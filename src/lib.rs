//! Verified decision logic for audio-style value controls: rotating knobs,
//! horizontal and vertical sliders, tick marks and text marks.
//!
//! Geometry and painting are left to the host toolkit; this crate decides
//! how a knob reacts to pointer, wheel and keyboard input, which part of a
//! value arc or modulation range is filled, and where marks are laid out.
mod indicator;
mod knob;
mod modifiers;
mod normal;
mod placement;

pub use indicator::{
    bipolar_arc_fill, bipolar_notch, interaction, mod_range_fill, rect_bipolar_state,
    v_mod_range_fill, value_arc_fill, ArcFill, BipolarState, FilledRange, Interaction, KnobInfo,
    ModulationRange, NotchChoice,
};
pub use knob::{
    count_of, lemma_idle_grabs_are_closed, transition, ClickKind, EventStatus, KnobAction,
    KnobConfig, KnobEvent, KnobResponse, KnobState, SliderStatus,
};
pub use modifiers::Modifiers;
pub use normal::{Normal, CENTER_BITS, MAX_BITS, NEAR_CENTER_HIGH_BITS, NEAR_CENTER_LOW_BITS};
pub use placement::{
    text_mark_passes, vertical_tick_passes, Edge, Placement, TextAlign, TextPass, TextPlacement,
    TickAlign, TickPass,
};
