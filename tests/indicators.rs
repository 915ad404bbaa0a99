use iced_audio::{
    bipolar_arc_fill, bipolar_notch, interaction, mod_range_fill, rect_bipolar_state,
    v_mod_range_fill, value_arc_fill, ArcFill, BipolarState, FilledRange, Interaction, KnobInfo,
    ModulationRange, NotchChoice, Normal, CENTER_BITS, MAX_BITS, NEAR_CENTER_HIGH_BITS,
    NEAR_CENTER_LOW_BITS,
};

fn n(v: f32) -> Normal {
    Normal::from_bits(v.to_bits()).unwrap()
}

#[test]
fn bit_constants_match_floats() {
    assert_eq!(MAX_BITS, 1.0f32.to_bits());
    assert_eq!(CENTER_BITS, 0.5f32.to_bits());
    assert_eq!(NEAR_CENTER_LOW_BITS, 0.499f32.to_bits());
    assert_eq!(NEAR_CENTER_HIGH_BITS, 0.501f32.to_bits());
}

#[test]
fn normal_from_bits_bounds() {
    assert!(Normal::from_bits(0).is_some());
    assert!(Normal::from_bits(MAX_BITS).is_some());
    assert!(Normal::from_bits(MAX_BITS + 1).is_none());
    assert!(Normal::from_bits((-0.5f32).to_bits()).is_none());
    assert_eq!(n(0.25).to_bits(), 0.25f32.to_bits());
    assert_eq!(Normal::min().to_bits(), 0);
    assert_eq!(Normal::center().to_bits(), CENTER_BITS);
    assert_eq!(Normal::max().to_bits(), MAX_BITS);
}

#[test]
fn normal_order_follows_values() {
    assert!(n(0.1).below(&n(0.2)));
    assert!(!n(0.2).below(&n(0.1)));
    assert!(!n(0.3).below(&n(0.3)));
    assert!(n(0.3).same(&n(0.3)));
    assert!(!n(0.3).same(&n(0.30001)));
    assert!(Normal::min().below(&n(f32::MIN_POSITIVE)));
}

#[test]
fn appearance_choice() {
    assert_eq!(interaction(true, true), Interaction::Dragging);
    assert_eq!(interaction(true, false), Interaction::Dragging);
    assert_eq!(interaction(false, true), Interaction::Hovered);
    assert_eq!(interaction(false, false), Interaction::Active);
}

#[test]
fn bipolar_against_explicit_center() {
    let at = |v: f32, c: f32| {
        BipolarState::from_knob_info(&KnobInfo { value: n(v), bipolar_center: Some(n(c)) })
    };
    assert_eq!(at(0.2, 0.3), BipolarState::Left);
    assert_eq!(at(0.3, 0.3), BipolarState::Center);
    assert_eq!(at(0.4, 0.3), BipolarState::Right);
    assert_eq!(at(0.0, 0.0), BipolarState::Center);
}

#[test]
fn bipolar_against_default_band() {
    let at = |v: f32| BipolarState::from_knob_info(&KnobInfo { value: n(v), bipolar_center: None });
    assert_eq!(at(0.2), BipolarState::Left);
    assert_eq!(at(0.4989), BipolarState::Left);
    assert_eq!(at(0.499), BipolarState::Center);
    assert_eq!(at(0.5), BipolarState::Center);
    assert_eq!(at(0.501), BipolarState::Center);
    assert_eq!(at(0.5011), BipolarState::Right);
    assert_eq!(at(1.0), BipolarState::Right);
}

#[test]
fn rect_bipolar_excludes_band_edges() {
    assert_eq!(rect_bipolar_state(n(0.5)), BipolarState::Center);
    assert_eq!(rect_bipolar_state(n(0.4995)), BipolarState::Center);
    assert_eq!(rect_bipolar_state(n(0.499)), BipolarState::Left);
    assert_eq!(rect_bipolar_state(n(0.501)), BipolarState::Right);
    assert_eq!(rect_bipolar_state(n(0.0)), BipolarState::Left);
    assert_eq!(rect_bipolar_state(n(0.9)), BipolarState::Right);
}

#[test]
fn bipolar_notch_choice() {
    assert_eq!(bipolar_notch(BipolarState::Left, true), NotchChoice::Left);
    assert_eq!(bipolar_notch(BipolarState::Right, true), NotchChoice::Right);
    assert_eq!(bipolar_notch(BipolarState::Center, true), NotchChoice::Center);
    assert_eq!(bipolar_notch(BipolarState::Left, false), NotchChoice::Center);
    assert_eq!(bipolar_notch(BipolarState::Right, false), NotchChoice::Center);
}

#[test]
fn bipolar_arc_choice() {
    assert_eq!(bipolar_arc_fill(BipolarState::Left), ArcFill::ValueToCenter);
    assert_eq!(bipolar_arc_fill(BipolarState::Right), ArcFill::CenterToValue);
    assert_eq!(bipolar_arc_fill(BipolarState::Center), ArcFill::Empty);
}

#[test]
fn value_arc_unipolar() {
    assert_eq!(value_arc_fill(n(0.0), false), ArcFill::Empty);
    assert_eq!(value_arc_fill(n(0.01), false), ArcFill::StartToValue);
    assert_eq!(value_arc_fill(n(1.0), false), ArcFill::StartToValue);
}

#[test]
fn value_arc_split_at_center() {
    assert_eq!(value_arc_fill(n(0.1), true), ArcFill::ValueToCenter);
    assert_eq!(value_arc_fill(n(0.499), true), ArcFill::Empty);
    assert_eq!(value_arc_fill(n(0.5), true), ArcFill::Empty);
    assert_eq!(value_arc_fill(n(0.501), true), ArcFill::Empty);
    assert_eq!(value_arc_fill(n(0.6), true), ArcFill::CenterToValue);
    assert_eq!(value_arc_fill(n(0.0), true), ArcFill::ValueToCenter);
}

fn range(start: f32, end: f32, filled_visible: bool) -> ModulationRange {
    ModulationRange { start: n(start), end: n(end), filled_visible }
}

#[test]
fn mod_range_on_knob() {
    assert_eq!(
        mod_range_fill(&range(0.2, 0.7, true)),
        Some(FilledRange { from: n(0.2), to: n(0.7), inverse: false })
    );
    assert_eq!(
        mod_range_fill(&range(0.7, 0.2, true)),
        Some(FilledRange { from: n(0.2), to: n(0.7), inverse: true })
    );
    assert_eq!(mod_range_fill(&range(0.4, 0.4, true)), None);
    assert_eq!(mod_range_fill(&range(0.2, 0.7, false)), None);
}

#[test]
fn mod_range_on_vertical_slider() {
    assert_eq!(
        v_mod_range_fill(&range(0.7, 0.2, true)),
        Some(FilledRange { from: n(0.7), to: n(0.2), inverse: false })
    );
    assert_eq!(
        v_mod_range_fill(&range(0.2, 0.7, true)),
        Some(FilledRange { from: n(0.7), to: n(0.2), inverse: true })
    );
    assert_eq!(v_mod_range_fill(&range(0.4, 0.4, true)), None);
    assert_eq!(v_mod_range_fill(&range(0.7, 0.2, false)), None);
}
