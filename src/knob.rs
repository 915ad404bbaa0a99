use vstd::prelude::*;

use crate::modifiers::Modifiers;

verus! {

/// Whether a drag has moved the value since it began.
#[derive(Clone, Copy, Debug, PartialEq, Eq, Structural)]
pub enum SliderStatus {
    Moved,
    Unchanged,
}

impl Default for SliderStatus {
    fn default() -> (r: SliderStatus)
        ensures
            r == SliderStatus::Unchanged,
    {
        SliderStatus::Unchanged
    }
}

impl SliderStatus {
    /// Whether the value moved.
    pub fn was_moved(&self) -> (r: bool)
        ensures
            r == (*self is Moved),
    {
        match self {
            SliderStatus::Moved => true,
            SliderStatus::Unchanged => false,
        }
    }

    /// Records that the value moved.
    pub fn moved(&mut self)
        ensures
            *final(self) == SliderStatus::Moved,
    {
        *self = SliderStatus::Moved;
    }
}

/// How a press was counted by the host's click tracker.
#[derive(Clone, Copy, Debug, PartialEq, Eq, Structural)]
pub enum ClickKind {
    Single,
    Double,
    Triple,
}

/// An input event, reduced to what the knob decides on.
///
/// The host measures the pointer and the value; the facts it hands over are:
/// whether the pointer position is known and lies over the knob, whether a
/// computed change of the value is large enough to count (at least one
/// `f32::EPSILON` in magnitude), and whether the value already equals its
/// default.
#[derive(Clone, Copy, Debug, PartialEq, Eq, Structural)]
pub enum KnobEvent {
    /// The mouse cursor or a finger moved.
    PointerMoved { has_position: bool, significant: bool },
    /// The mouse wheel turned. `enabled` is false when the wheel scalar is
    /// zero; `lines_nonzero` is false when the wheel moved by zero lines.
    WheelScrolled { enabled: bool, over: bool, lines_nonzero: bool, significant: bool },
    /// The left button or a finger went down.
    Pressed { over: bool, click: ClickKind, at_default: bool },
    /// The left button or a finger went up, or the finger was lost.
    Released,
    /// A key was pressed or released, or the modifiers changed.
    ModifiersChanged(Modifiers),
    /// Any other event.
    Other,
}

/// What the host does in answer to an event, in the order given.
#[derive(Clone, Copy, Debug, PartialEq, Eq, Structural)]
pub enum KnobAction {
    /// Remember the pointer's vertical position as the origin of the drag.
    TrackPointer,
    /// Move the value by the measured change; when `fine`, scale that change
    /// by the modifier scalar first.
    Move { fine: bool },
    /// Set the value to its default.
    ResetToDefault,
    /// Publish the grab message, if one is set.
    Grab,
    /// Publish the change message with the current value.
    Change,
    /// Publish the release message, if one is set.
    Release,
    /// Remember this press for counting later clicks.
    RecordClick,
}

/// Whether the event was consumed by the knob.
#[derive(Clone, Copy, Debug, PartialEq, Eq, Structural)]
pub enum EventStatus {
    Ignored,
    Captured,
}

/// The settings of a knob that its reactions depend on.
#[derive(Clone, Copy, Debug, PartialEq, Eq, Structural)]
pub struct KnobConfig {
    /// Whether a grab message is set.
    pub has_on_grab: bool,
    /// The keys that, all held, make a drag fine.
    pub modifier_keys: Modifiers,
}

impl KnobConfig {
    /// The settings of a new knob: no grab message, and the control key for
    /// fine moves.
    pub fn new() -> (r: KnobConfig)
        ensures
            !r.has_on_grab,
            r.modifier_keys == Modifiers::ctrl_only(),
    {
        KnobConfig { has_on_grab: false, modifier_keys: Modifiers::ctrl() }
    }
}

/// The answer to one event.
#[derive(Debug)]
pub struct KnobResponse {
    pub status: EventStatus,
    pub actions: Vec<KnobAction>,
}

/// The interaction state of a knob.
#[derive(Clone, Copy, Debug, PartialEq, Eq, Structural)]
pub struct KnobState {
    /// `Some` while the knob is grabbed, with whether the drag has moved it.
    pub dragging: Option<SliderStatus>,
    /// The modifier keys currently held.
    pub pressed_modifiers: Modifiers,
}

/// The state after a transition with nothing changed but the drag status.
pub open spec fn with_dragging(s: KnobState, d: Option<SliderStatus>) -> KnobState {
    KnobState { dragging: d, pressed_modifiers: s.pressed_modifiers }
}

/// Whether a move made now is fine: all the configured keys are held.
pub open spec fn is_fine(s: KnobState, c: KnobConfig) -> bool {
    s.pressed_modifiers.holds_all(c.modifier_keys)
}

/// An event that leaves everything as it was.
pub open spec fn ignored(s: KnobState) -> (KnobState, EventStatus, Seq<KnobAction>) {
    (s, EventStatus::Ignored, seq![])
}

/// How the knob reacts to each event: the next state, whether the event is
/// consumed, and the actions for the host.
///
/// - A pointer move counts only during a drag with a known position; it
///   re-anchors the drag and, when the change is significant, moves the value.
/// - A wheel turn over the knob moves the value; outside a drag it is framed
///   by a grab and a release, inside one it marks the drag as moved.
/// - A single press starts a drag; a double or triple press ends any drag and
///   resets the value to its default, with grab and release around the change.
/// - A release ends a drag; it publishes a release when a grab message is set
///   or the drag moved the value.
/// - Keyboard events update the held modifiers.
pub open spec fn transition(s: KnobState, c: KnobConfig, e: KnobEvent) -> (
    KnobState,
    EventStatus,
    Seq<KnobAction>,
) {
    match e {
        KnobEvent::PointerMoved { has_position, significant } => {
            if s.dragging is None || !has_position {
                ignored(s)
            } else if significant {
                (
                    with_dragging(s, Some(SliderStatus::Moved)),
                    EventStatus::Captured,
                    seq![
                        KnobAction::TrackPointer,
                        KnobAction::Move { fine: is_fine(s, c) },
                        KnobAction::Change,
                    ],
                )
            } else {
                (s, EventStatus::Captured, seq![KnobAction::TrackPointer])
            }
        },
        KnobEvent::WheelScrolled { enabled, over, lines_nonzero, significant } => {
            if !enabled || !over || !lines_nonzero {
                ignored(s)
            } else if !significant {
                (s, EventStatus::Captured, seq![])
            } else if s.dragging is Some {
                (
                    with_dragging(s, Some(SliderStatus::Moved)),
                    EventStatus::Captured,
                    seq![KnobAction::Move { fine: is_fine(s, c) }, KnobAction::Change],
                )
            } else {
                (
                    s,
                    EventStatus::Captured,
                    seq![
                        KnobAction::Move { fine: is_fine(s, c) },
                        KnobAction::Grab,
                        KnobAction::Change,
                        KnobAction::Release,
                    ],
                )
            }
        },
        KnobEvent::Pressed { over, click, at_default } => {
            if !over {
                ignored(s)
            } else if click is Single {
                (
                    with_dragging(s, Some(SliderStatus::Unchanged)),
                    EventStatus::Captured,
                    seq![KnobAction::Grab, KnobAction::TrackPointer, KnobAction::RecordClick],
                )
            } else if !at_default {
                let grab: Seq<KnobAction> = if s.dragging is None {
                    seq![KnobAction::Grab]
                } else {
                    seq![]
                };
                (
                    with_dragging(s, None),
                    EventStatus::Captured,
                    grab + seq![
                        KnobAction::ResetToDefault,
                        KnobAction::Change,
                        KnobAction::Release,
                        KnobAction::RecordClick,
                    ],
                )
            } else {
                let release: Seq<KnobAction> = if s.dragging is Some {
                    seq![KnobAction::Release]
                } else {
                    seq![]
                };
                (with_dragging(s, None), EventStatus::Captured, release + seq![KnobAction::RecordClick])
            }
        },
        KnobEvent::Released => match s.dragging {
            Some(status) => (
                with_dragging(s, None),
                EventStatus::Captured,
                if c.has_on_grab || status is Moved {
                    seq![KnobAction::Release]
                } else {
                    seq![]
                },
            ),
            None => ignored(s),
        },
        KnobEvent::ModifiersChanged(m) => (
            KnobState { dragging: s.dragging, pressed_modifiers: m },
            EventStatus::Captured,
            seq![],
        ),
        KnobEvent::Other => ignored(s),
    }
}

/// How many times `a` occurs in `actions`.
pub open spec fn count_of(actions: Seq<KnobAction>, a: KnobAction) -> nat
    decreases actions.len(),
{
    if actions.len() == 0 {
        0
    } else {
        count_of(actions.drop_last(), a) + if actions.last() == a {
            1nat
        } else {
            0nat
        }
    }
}

/// When a knob is not grabbed before an event nor after it, its answer
/// holds as many grabs as releases: a grab that starts no drag is closed in
/// the same answer.
pub proof fn lemma_idle_grabs_are_closed(s: KnobState, c: KnobConfig, e: KnobEvent)
    requires
        s.dragging is None,
        transition(s, c, e).0.dragging is None,
    ensures
        count_of(transition(s, c, e).2, KnobAction::Grab) == count_of(
            transition(s, c, e).2,
            KnobAction::Release,
        ),
{
    reveal_with_fuel(count_of, 6);
    let actions = transition(s, c, e).2;
    match e {
        KnobEvent::Pressed { over, click, at_default } => {
            if over && !(click is Single) {
                if !at_default {
                    assert(actions =~= seq![
                        KnobAction::Grab,
                        KnobAction::ResetToDefault,
                        KnobAction::Change,
                        KnobAction::Release,
                        KnobAction::RecordClick,
                    ]);
                } else {
                    assert(actions =~= seq![KnobAction::RecordClick]);
                }
            }
        },
        _ => {},
    }
}

impl KnobState {
    /// A knob that is not grabbed, with no modifier held.
    pub fn new() -> (r: KnobState)
        ensures
            r.dragging is None,
            r.pressed_modifiers == Modifiers::no_keys(),
    {
        KnobState { dragging: None, pressed_modifiers: Modifiers::empty() }
    }

    /// Whether the knob is grabbed.
    pub fn is_dragging(&self) -> (r: bool)
        ensures
            r == (self.dragging is Some),
    {
        self.dragging.is_some()
    }

    /// Asks the host to move the value, finely when the configured keys are
    /// all held.
    fn move_virtual_slider(&self, config: &KnobConfig, actions: &mut Vec<KnobAction>)
        ensures
            final(actions)@ == old(actions)@.push(KnobAction::Move { fine: is_fine(*self, *config) }),
    {
        let fine = self.pressed_modifiers.contains(&config.modifier_keys);
        actions.push(KnobAction::Move { fine });
    }

    /// Marks an ongoing drag as having moved the value.
    fn mark_moved(&mut self)
        requires
            old(self).dragging is Some,
        ensures
            *final(self) == with_dragging(*old(self), Some(SliderStatus::Moved)),
    {
        if let Some(status) = &mut self.dragging {
            status.moved();
        }
    }

    /// Reacts to one event: updates the state and tells the host what to do.
    pub fn on_event(&mut self, config: &KnobConfig, event: KnobEvent) -> (r: KnobResponse)
        ensures
            (*final(self), r.status, r.actions@) == transition(*old(self), *config, event),
    {
        let mut actions: Vec<KnobAction> = Vec::new();
        let status = match event {
            KnobEvent::PointerMoved { has_position, significant } => {
                if self.dragging.is_none() || !has_position {
                    EventStatus::Ignored
                } else {
                    actions.push(KnobAction::TrackPointer);
                    if significant {
                        self.move_virtual_slider(config, &mut actions);
                        actions.push(KnobAction::Change);
                        self.mark_moved();
                    }
                    EventStatus::Captured
                }
            },
            KnobEvent::WheelScrolled { enabled, over, lines_nonzero, significant } => {
                if !enabled || !over || !lines_nonzero {
                    EventStatus::Ignored
                } else {
                    if significant {
                        self.move_virtual_slider(config, &mut actions);
                        if self.dragging.is_none() {
                            actions.push(KnobAction::Grab);
                        }
                        actions.push(KnobAction::Change);
                        if self.dragging.is_some() {
                            // a grabbed knob stays grabbed
                            self.mark_moved();
                        } else {
                            actions.push(KnobAction::Release);
                        }
                    }
                    EventStatus::Captured
                }
            },
            KnobEvent::Pressed { over, click, at_default } => {
                if !over {
                    EventStatus::Ignored
                } else {
                    match click {
                        ClickKind::Single => {
                            actions.push(KnobAction::Grab);
                            self.dragging = Some(SliderStatus::default());
                            actions.push(KnobAction::TrackPointer);
                        },
                        _ => {
                            let prev_dragging = self.dragging.take();
                            if !at_default {
                                if prev_dragging.is_none() {
                                    actions.push(KnobAction::Grab);
                                }
                                actions.push(KnobAction::ResetToDefault);
                                actions.push(KnobAction::Change);
                                actions.push(KnobAction::Release);
                            } else if prev_dragging.is_some() {
                                actions.push(KnobAction::Release);
                            }
                        },
                    }
                    actions.push(KnobAction::RecordClick);
                    EventStatus::Captured
                }
            },
            KnobEvent::Released => {
                match self.dragging.take() {
                    Some(slider_status) => {
                        if config.has_on_grab || slider_status.was_moved() {
                            actions.push(KnobAction::Release);
                        }
                        EventStatus::Captured
                    },
                    None => EventStatus::Ignored,
                }
            },
            KnobEvent::ModifiersChanged(modifiers) => {
                self.pressed_modifiers = modifiers;
                EventStatus::Captured
            },
            KnobEvent::Other => EventStatus::Ignored,
        };
        KnobResponse { status, actions }
    }
}

} // verus!
