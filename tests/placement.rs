use iced_audio::{
    text_mark_passes, vertical_tick_passes, Edge, Placement, TextAlign, TextPass, TextPlacement,
    TickAlign, TickPass,
};

fn tick(edge: Edge, align: TickAlign) -> TickPass {
    TickPass { edge, align }
}

fn text(edge: Edge, align: TextAlign) -> TextPass {
    TextPass { edge, align }
}

#[test]
fn ticks_on_both_sides() {
    assert_eq!(
        vertical_tick_passes(Placement::BothSides { inside: true }),
        vec![tick(Edge::Start, TickAlign::Left), tick(Edge::End, TickAlign::Right)]
    );
    assert_eq!(
        vertical_tick_passes(Placement::BothSides { inside: false }),
        vec![tick(Edge::Start, TickAlign::Right), tick(Edge::End, TickAlign::Left)]
    );
}

#[test]
fn ticks_on_one_side() {
    assert_eq!(
        vertical_tick_passes(Placement::LeftOrTop { inside: true }),
        vec![tick(Edge::Start, TickAlign::Left)]
    );
    assert_eq!(
        vertical_tick_passes(Placement::LeftOrTop { inside: false }),
        vec![tick(Edge::Start, TickAlign::Right)]
    );
    assert_eq!(
        vertical_tick_passes(Placement::RightOrBottom { inside: true }),
        vec![tick(Edge::End, TickAlign::Right)]
    );
    assert_eq!(
        vertical_tick_passes(Placement::RightOrBottom { inside: false }),
        vec![tick(Edge::End, TickAlign::Left)]
    );
}

#[test]
fn ticks_in_center() {
    assert_eq!(
        vertical_tick_passes(Placement::Center { fill_length: true }),
        vec![tick(Edge::Middle, TickAlign::Center { fill_length: true })]
    );
    assert_eq!(
        vertical_tick_passes(Placement::CenterSplit { fill_length: false }),
        vec![tick(Edge::Middle, TickAlign::CenterSplit { fill_length: false })]
    );
}

#[test]
fn text_on_both_sides() {
    assert_eq!(
        text_mark_passes(TextPlacement::BothSides { inside: true }),
        vec![text(Edge::Start, TextAlign::Start), text(Edge::End, TextAlign::End)]
    );
    assert_eq!(
        text_mark_passes(TextPlacement::BothSides { inside: false }),
        vec![text(Edge::Start, TextAlign::End), text(Edge::End, TextAlign::Start)]
    );
}

#[test]
fn text_on_one_side() {
    assert_eq!(
        text_mark_passes(TextPlacement::LeftOrTop { inside: true }),
        vec![text(Edge::Start, TextAlign::Start)]
    );
    assert_eq!(
        text_mark_passes(TextPlacement::LeftOrTop { inside: false }),
        vec![text(Edge::Start, TextAlign::End)]
    );
    assert_eq!(
        text_mark_passes(TextPlacement::RightOrBottom { inside: true }),
        vec![text(Edge::End, TextAlign::End)]
    );
    assert_eq!(
        text_mark_passes(TextPlacement::RightOrBottom { inside: false }),
        vec![text(Edge::End, TextAlign::Start)]
    );
}

#[test]
fn text_in_center() {
    for align in [TextAlign::Start, TextAlign::End, TextAlign::Center] {
        assert_eq!(
            text_mark_passes(TextPlacement::Center { align }),
            vec![text(Edge::Middle, align)]
        );
    }
}
