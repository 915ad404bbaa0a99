use vstd::prelude::*;

use crate::normal::{Normal, CENTER_BITS, NEAR_CENTER_HIGH_BITS, NEAR_CENTER_LOW_BITS};

verus! {

/// Which appearance a widget takes from its style sheet.
#[derive(Clone, Copy, Debug, PartialEq, Eq, Structural)]
pub enum Interaction {
    Active,
    Hovered,
    Dragging,
}

/// Picks the appearance: dragging wins over hovering, hovering over rest.
pub fn interaction(is_dragging: bool, is_mouse_over: bool) -> (r: Interaction)
    ensures
        is_dragging ==> r == Interaction::Dragging,
        !is_dragging && is_mouse_over ==> r == Interaction::Hovered,
        !is_dragging && !is_mouse_over ==> r == Interaction::Active,
{
    if is_dragging {
        Interaction::Dragging
    } else if is_mouse_over {
        Interaction::Hovered
    } else {
        Interaction::Active
    }
}

/// The values of a knob that decide how its bipolar arc is drawn.
#[derive(Clone, Copy, Debug, PartialEq, Eq, Structural)]
pub struct KnobInfo {
    pub value: Normal,
    pub bipolar_center: Option<Normal>,
}

/// On which side of its center a bipolar value lies.
#[derive(Clone, Copy, Debug, PartialEq, Eq, Structural)]
pub enum BipolarState {
    Left,
    Right,
    Center,
}

/// The side of `value`: against `center` when one is given, else against
/// the band from `0.499` to `0.501`, both ends counted as center.
pub open spec fn bipolar_side(value: nat, center: Option<nat>) -> BipolarState {
    match center {
        Some(c) => if value < c {
            BipolarState::Left
        } else if value > c {
            BipolarState::Right
        } else {
            BipolarState::Center
        },
        None => if value < NEAR_CENTER_LOW_BITS {
            BipolarState::Left
        } else if value > NEAR_CENTER_HIGH_BITS {
            BipolarState::Right
        } else {
            BipolarState::Center
        },
    }
}

/// The view of an optional normal.
pub open spec fn opt_view(n: Option<Normal>) -> Option<nat> {
    match n {
        Some(c) => Some(c@),
        None => None,
    }
}

impl BipolarState {
    /// The side of the knob's value relative to its bipolar center.
    pub fn from_knob_info(knob_info: &KnobInfo) -> (r: BipolarState)
        ensures
            r == bipolar_side(knob_info.value@, opt_view(knob_info.bipolar_center)),
    {
        let value = knob_info.value.to_bits();
        match knob_info.bipolar_center {
            Some(center) => {
                let center = center.to_bits();
                if value < center {
                    BipolarState::Left
                } else if value > center {
                    BipolarState::Right
                } else {
                    BipolarState::Center
                }
            },
            None => {
                if value < NEAR_CENTER_LOW_BITS {
                    BipolarState::Left
                } else if value > NEAR_CENTER_HIGH_BITS {
                    BipolarState::Right
                } else {
                    BipolarState::Center
                }
            },
        }
    }
}

/// The side of a bipolar slider's value, with both ends of the band from
/// `0.499` to `0.501` left out of the center.
pub fn rect_bipolar_state(value: Normal) -> (r: BipolarState)
    ensures
        r == BipolarState::Center <==> NEAR_CENTER_LOW_BITS < value@ < NEAR_CENTER_HIGH_BITS,
        r == BipolarState::Left <==> value@ <= NEAR_CENTER_LOW_BITS,
        r == BipolarState::Right <==> value@ >= NEAR_CENTER_HIGH_BITS,
{
    let v = value.to_bits();
    if NEAR_CENTER_LOW_BITS < v && v < NEAR_CENTER_HIGH_BITS {
        BipolarState::Center
    } else if v < CENTER_BITS {
        BipolarState::Left
    } else {
        BipolarState::Right
    }
}

/// Which notch a bipolar knob shows.
#[derive(Clone, Copy, Debug, PartialEq, Eq, Structural)]
pub enum NotchChoice {
    Left,
    Right,
    Center,
}

/// The notch for a side: the side's own notch when the style gives a pair,
/// the center notch otherwise.
pub fn bipolar_notch(state: BipolarState, has_left_right: bool) -> (r: NotchChoice)
    ensures
        r == (if has_left_right {
            match state {
                BipolarState::Left => NotchChoice::Left,
                BipolarState::Right => NotchChoice::Right,
                BipolarState::Center => NotchChoice::Center,
            }
        } else {
            NotchChoice::Center
        }),
{
    if has_left_right {
        match state {
            BipolarState::Left => NotchChoice::Left,
            BipolarState::Right => NotchChoice::Right,
            BipolarState::Center => NotchChoice::Center,
        }
    } else {
        NotchChoice::Center
    }
}

/// The filled part of a knob's value arc.
#[derive(Clone, Copy, Debug, PartialEq, Eq, Structural)]
pub enum ArcFill {
    /// Nothing is filled.
    Empty,
    /// From the start of the arc to the value.
    StartToValue,
    /// From the value up to the center, in the left color.
    ValueToCenter,
    /// From the center up to the value, in the right color.
    CenterToValue,
}

/// Which part of the value arc to fill. With `split` (the style gives a
/// right color) the arc is filled from the center toward the value, unless
/// the value lies in the band from `0.499` to `0.501`; otherwise it is filled
/// from the start, unless the value is `0.0`.
pub fn value_arc_fill(value: Normal, split: bool) -> (r: ArcFill)
    ensures
        r == (if split {
            if value@ < NEAR_CENTER_LOW_BITS {
                ArcFill::ValueToCenter
            } else if value@ > NEAR_CENTER_HIGH_BITS {
                ArcFill::CenterToValue
            } else {
                ArcFill::Empty
            }
        } else if value@ == 0 {
            ArcFill::Empty
        } else {
            ArcFill::StartToValue
        }),
{
    let v = value.to_bits();
    if split {
        if v < NEAR_CENTER_LOW_BITS || v > NEAR_CENTER_HIGH_BITS {
            if value.below(&Normal::center()) {
                ArcFill::ValueToCenter
            } else if Normal::center().below(&value) {
                ArcFill::CenterToValue
            } else {
                ArcFill::Empty
            }
        } else {
            ArcFill::Empty
        }
    } else if !value.same(&Normal::min()) {
        ArcFill::StartToValue
    } else {
        ArcFill::Empty
    }
}

/// The filled part of a bipolar knob's arc for a side of its center.
pub fn bipolar_arc_fill(state: BipolarState) -> (r: ArcFill)
    ensures
        r == match state {
            BipolarState::Left => ArcFill::ValueToCenter,
            BipolarState::Right => ArcFill::CenterToValue,
            BipolarState::Center => ArcFill::Empty,
        },
{
    match state {
        BipolarState::Left => ArcFill::ValueToCenter,
        BipolarState::Right => ArcFill::CenterToValue,
        BipolarState::Center => ArcFill::Empty,
    }
}

/// A modulation range shown beside a value.
#[derive(Clone, Copy, Debug, PartialEq, Eq, Structural)]
pub struct ModulationRange {
    pub start: Normal,
    pub end: Normal,
    /// Whether the span between `start` and `end` is filled.
    pub filled_visible: bool,
}

/// The filled span of a modulation range: from one normal to another, in
/// the filled color or, when `inverse`, in the inverse color.
#[derive(Clone, Copy, Debug, PartialEq, Eq, Structural)]
pub struct FilledRange {
    pub from: Normal,
    pub to: Normal,
    pub inverse: bool,
}

/// The filled span of a modulation range on a knob or a horizontal slider:
/// from the smaller end to the larger, in the inverse color when the range
/// runs downward; none when hidden or empty.
pub fn mod_range_fill(mod_range: &ModulationRange) -> (r: Option<FilledRange>)
    ensures
        r is None <==> !mod_range.filled_visible || mod_range.start@ == mod_range.end@,
        r matches Some(f) ==> {
            let up = mod_range.start@ < mod_range.end@;
            &&& f.inverse == !up
            &&& f.from == (if up { mod_range.start } else { mod_range.end })
            &&& f.to == (if up { mod_range.end } else { mod_range.start })
        },
{
    if mod_range.filled_visible && !mod_range.start.same(&mod_range.end) {
        if mod_range.start.below(&mod_range.end) {
            Some(FilledRange { from: mod_range.start, to: mod_range.end, inverse: false })
        } else {
            Some(FilledRange { from: mod_range.end, to: mod_range.start, inverse: true })
        }
    } else {
        None
    }
}

/// The filled span of a modulation range on a vertical slider, whose axis
/// runs from the top: from the larger end to the smaller, in the inverse
/// color when the range runs upward; none when hidden or empty.
pub fn v_mod_range_fill(mod_range: &ModulationRange) -> (r: Option<FilledRange>)
    ensures
        r is None <==> !mod_range.filled_visible || mod_range.start@ == mod_range.end@,
        r matches Some(f) ==> {
            let down = mod_range.end@ < mod_range.start@;
            &&& f.inverse == !down
            &&& f.from == (if down { mod_range.start } else { mod_range.end })
            &&& f.to == (if down { mod_range.end } else { mod_range.start })
        },
{
    if mod_range.filled_visible && !mod_range.start.same(&mod_range.end) {
        if mod_range.end.below(&mod_range.start) {
            Some(FilledRange { from: mod_range.start, to: mod_range.end, inverse: false })
        } else {
            Some(FilledRange { from: mod_range.end, to: mod_range.start, inverse: true })
        }
    } else {
        None
    }
}

} // verus!
