use vstd::prelude::*;

verus! {

/// Where marks stand relative to a widget's bounds, as far as it decides
/// which edges are used and how marks are aligned there. Offsets and gaps
/// only shift the result and are applied by the host.
#[derive(Clone, Copy, Debug, PartialEq, Eq, Structural)]
pub enum Placement {
    /// On both sides; `inside` turns the marks toward the inside.
    BothSides { inside: bool },
    /// On the left side (or the top, on a horizontal axis).
    LeftOrTop { inside: bool },
    /// On the right side (or the bottom, on a horizontal axis).
    RightOrBottom { inside: bool },
    /// In the center, each tick mark spanning the width when `fill_length`.
    Center { fill_length: bool },
    /// In the center with a gap, split into two halves.
    CenterSplit { fill_length: bool },
}

/// The line across the bounds that a pass of marks is placed on.
#[derive(Clone, Copy, Debug, PartialEq, Eq, Structural)]
pub enum Edge {
    /// The left (or top) edge.
    Start,
    /// The right (or bottom) edge.
    End,
    /// The center line.
    Middle,
}

/// How tick marks are laid out against their line.
#[derive(Clone, Copy, Debug, PartialEq, Eq, Structural)]
pub enum TickAlign {
    /// Starting at the line and growing toward the end side.
    Left,
    /// Ending at the line, growing toward the start side.
    Right,
    /// Centered on the line.
    Center { fill_length: bool },
    /// Split in two halves around the line.
    CenterSplit { fill_length: bool },
}

/// One pass of tick marks: every tier of the group drawn on one line.
#[derive(Clone, Copy, Debug, PartialEq, Eq, Structural)]
pub struct TickPass {
    pub edge: Edge,
    pub align: TickAlign,
}

/// The passes for a placement, in drawing order.
pub open spec fn tick_passes_spec(placement: Placement) -> Seq<TickPass> {
    match placement {
        Placement::BothSides { inside } => if inside {
            seq![
                TickPass { edge: Edge::Start, align: TickAlign::Left },
                TickPass { edge: Edge::End, align: TickAlign::Right },
            ]
        } else {
            seq![
                TickPass { edge: Edge::Start, align: TickAlign::Right },
                TickPass { edge: Edge::End, align: TickAlign::Left },
            ]
        },
        Placement::LeftOrTop { inside } => seq![
            TickPass {
                edge: Edge::Start,
                align: if inside { TickAlign::Left } else { TickAlign::Right },
            },
        ],
        Placement::RightOrBottom { inside } => seq![
            TickPass {
                edge: Edge::End,
                align: if inside { TickAlign::Right } else { TickAlign::Left },
            },
        ],
        Placement::Center { fill_length } => seq![
            TickPass { edge: Edge::Middle, align: TickAlign::Center { fill_length } },
        ],
        Placement::CenterSplit { fill_length } => seq![
            TickPass { edge: Edge::Middle, align: TickAlign::CenterSplit { fill_length } },
        ],
    }
}

/// Lays out tick marks on a vertical axis: the passes to draw, in order.
pub fn vertical_tick_passes(placement: Placement) -> (r: Vec<TickPass>)
    ensures
        r@ == tick_passes_spec(placement),
{
    let mut passes: Vec<TickPass> = Vec::new();
    match placement {
        Placement::BothSides { inside } => {
            if inside {
                passes.push(TickPass { edge: Edge::Start, align: TickAlign::Left });
                passes.push(TickPass { edge: Edge::End, align: TickAlign::Right });
            } else {
                passes.push(TickPass { edge: Edge::Start, align: TickAlign::Right });
                passes.push(TickPass { edge: Edge::End, align: TickAlign::Left });
            }
        },
        Placement::LeftOrTop { inside } => {
            let align = if inside {
                TickAlign::Left
            } else {
                TickAlign::Right
            };
            passes.push(TickPass { edge: Edge::Start, align });
        },
        Placement::RightOrBottom { inside } => {
            let align = if inside {
                TickAlign::Right
            } else {
                TickAlign::Left
            };
            passes.push(TickPass { edge: Edge::End, align });
        },
        Placement::Center { fill_length } => {
            passes.push(TickPass { edge: Edge::Middle, align: TickAlign::Center { fill_length } });
        },
        Placement::CenterSplit { fill_length } => {
            passes.push(
                TickPass { edge: Edge::Middle, align: TickAlign::CenterSplit { fill_length } },
            );
        },
    }
    assert(passes@ =~= tick_passes_spec(placement));
    passes
}

/// Alignment of a text mark across the axis: toward the start side (left,
/// or top), toward the end side, or centered.
#[derive(Clone, Copy, Debug, PartialEq, Eq, Structural)]
pub enum TextAlign {
    Start,
    End,
    Center,
}

/// Where text marks sit, as far as it decides edges and alignment.
#[derive(Clone, Copy, Debug, PartialEq, Eq, Structural)]
pub enum TextPlacement {
    BothSides { inside: bool },
    LeftOrTop { inside: bool },
    RightOrBottom { inside: bool },
    /// In the center, aligned as given.
    Center { align: TextAlign },
}

/// One pass of text marks: every mark drawn on one line with one alignment.
#[derive(Clone, Copy, Debug, PartialEq, Eq, Structural)]
pub struct TextPass {
    pub edge: Edge,
    pub align: TextAlign,
}

/// The alignment of text at an edge: text inside the bounds lies on the
/// edge's own side, text outside on the far side.
pub open spec fn text_align_at(edge_is_start: bool, inside: bool) -> TextAlign {
    if edge_is_start == inside {
        TextAlign::Start
    } else {
        TextAlign::End
    }
}

/// The passes for a text placement, in drawing order.
pub open spec fn text_passes_spec(placement: TextPlacement) -> Seq<TextPass> {
    match placement {
        TextPlacement::BothSides { inside } => seq![
            TextPass { edge: Edge::Start, align: text_align_at(true, inside) },
            TextPass { edge: Edge::End, align: text_align_at(false, inside) },
        ],
        TextPlacement::LeftOrTop { inside } => seq![
            TextPass { edge: Edge::Start, align: text_align_at(true, inside) },
        ],
        TextPlacement::RightOrBottom { inside } => seq![
            TextPass { edge: Edge::End, align: text_align_at(false, inside) },
        ],
        TextPlacement::Center { align } => seq![TextPass { edge: Edge::Middle, align }],
    }
}

/// Lays out text marks across an axis: the passes to draw, in order. The
/// same layout serves a vertical axis (start is left) and a horizontal one
/// (start is top).
pub fn text_mark_passes(placement: TextPlacement) -> (r: Vec<TextPass>)
    ensures
        r@ == text_passes_spec(placement),
{
    let mut passes: Vec<TextPass> = Vec::new();
    match placement {
        TextPlacement::BothSides { inside } => {
            if inside {
                passes.push(TextPass { edge: Edge::Start, align: TextAlign::Start });
                passes.push(TextPass { edge: Edge::End, align: TextAlign::End });
            } else {
                passes.push(TextPass { edge: Edge::Start, align: TextAlign::End });
                passes.push(TextPass { edge: Edge::End, align: TextAlign::Start });
            }
        },
        TextPlacement::LeftOrTop { inside } => {
            let align = if inside {
                TextAlign::Start
            } else {
                TextAlign::End
            };
            passes.push(TextPass { edge: Edge::Start, align });
        },
        TextPlacement::RightOrBottom { inside } => {
            let align = if inside {
                TextAlign::End
            } else {
                TextAlign::Start
            };
            passes.push(TextPass { edge: Edge::End, align });
        },
        TextPlacement::Center { align } => {
            passes.push(TextPass { edge: Edge::Middle, align });
        },
    }
    assert(passes@ =~= text_passes_spec(placement));
    passes
}

} // verus!
