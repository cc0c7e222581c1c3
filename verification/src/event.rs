//! Raw device events and their classification into moves.
//!
//! A raw event is the triple that the kernel's input layer reports: an event
//! type, a code whose meaning depends on the type, and a value. Only motion
//! along X or Y, relative or absolute, becomes a move; every other event is
//! dropped.

use vstd::prelude::*;
use evdev::{EventType, InputEvent, InputEventKind};
use crate::moves::{Ax, Lr, MouseMove, MouseMoveData};

verus! {

/// The event type of relative motion.
pub const EV_REL: u16 = 2;

/// The event type of absolute motion.
pub const EV_ABS: u16 = 3;

/// The code of the X axis among relative axes.
pub const REL_X: u16 = 0;

/// The code of the Y axis among relative axes.
pub const REL_Y: u16 = 1;

/// The code of the X axis among absolute axes.
pub const ABS_X: u16 = 0;

/// The code of the Y axis among absolute axes.
pub const ABS_Y: u16 = 1;

/// One event as a device reports it.
#[derive(Debug, Clone, Copy, PartialEq, Eq, Structural)]
pub struct RawEvent {
    pub event_type: u16,
    pub code: u16,
    pub value: i32,
}

/// What kind of event a raw event is, as far as tracking cares: motion along
/// a relative axis, motion along an absolute axis, each with the axis code,
/// or anything else.
#[derive(Debug, Clone, Copy, PartialEq, Eq, Structural)]
pub enum RawKind {
    RelAxis(u16),
    AbsAxis(u16),
    Other,
}

/// The kind of a raw event: decided by the event type alone, the code is
/// carried along unchanged.
pub open spec fn kind_of(ev: RawEvent) -> RawKind {
    if ev.event_type == EV_REL {
        RawKind::RelAxis(ev.code)
    } else if ev.event_type == EV_ABS {
        RawKind::AbsAxis(ev.code)
    } else {
        RawKind::Other
    }
}

/// Whether a raw event is motion along X or Y.
pub open spec fn is_motion(ev: RawEvent) -> bool {
    ||| ev.event_type == EV_REL && (ev.code == REL_X || ev.code == REL_Y)
    ||| ev.event_type == EV_ABS && (ev.code == ABS_X || ev.code == ABS_Y)
}

/// The move that a raw event of the device on the side `right` stands for,
/// if it stands for one. The value is taken over as it is.
pub open spec fn classify(ev: RawEvent, right: bool) -> Option<MouseMove> {
    let lr = Lr::of(right);
    let v = ev.value;
    if ev.event_type == EV_REL && ev.code == REL_X {
        Some(MouseMove::Rel(MouseMoveData { lr, ax: Ax::X, v }))
    } else if ev.event_type == EV_REL && ev.code == REL_Y {
        Some(MouseMove::Rel(MouseMoveData { lr, ax: Ax::Y, v }))
    } else if ev.event_type == EV_ABS && ev.code == ABS_X {
        Some(MouseMove::Abs(MouseMoveData { lr, ax: Ax::X, v }))
    } else if ev.event_type == EV_ABS && ev.code == ABS_Y {
        Some(MouseMove::Abs(MouseMoveData { lr, ax: Ax::Y, v }))
    } else {
        None
    }
}

/// Asks evdev for the kind of an event: builds an `InputEvent` from the three
/// raw fields with `InputEvent::new` and calls `InputEvent::kind` on it.
///
/// Trusted, not proved: `kind` answers `RelAxis` exactly for event type 2 and
/// `AbsAxis` exactly for event type 3, each time wrapping the event's code
/// unchanged; every other event type gives another variant.
#[verifier::external_body]
fn event_kind(ev: &RawEvent) -> (kind: RawKind)
    ensures
        kind == kind_of(*ev),
{
    match InputEvent::new(EventType(ev.event_type), ev.code, ev.value).kind() {
        InputEventKind::RelAxis(ax) => RawKind::RelAxis(ax.0),
        InputEventKind::AbsAxis(ax) => RawKind::AbsAxis(ax.0),
        _ => RawKind::Other,
    }
}

/// Classifies one raw event of the left device (`right` false) or of the
/// right device (`right` true). Motion along X or Y gives a move that carries
/// the event's value; anything else gives nothing.
pub fn event_to_mouse_move(ev: RawEvent, right: bool) -> (m_move: Option<MouseMove>)
    ensures
        m_move == classify(ev, right),
        m_move.is_some() <==> is_motion(ev),
        m_move.is_some() ==> m_move.unwrap().side() == Lr::of(right) && m_move.unwrap().data().v
            == ev.value,
{
    let lr = if right {
        Lr::Right
    } else {
        Lr::Left
    };
    let v = ev.value;
    match event_kind(&ev) {
        RawKind::RelAxis(ax_) => {
            let ax = if ax_ == REL_X {
                Ax::X
            } else if ax_ == REL_Y {
                Ax::Y
            } else {
                return None;
            };
            Some(MouseMove::Rel(MouseMoveData { lr, ax, v }))
        },
        RawKind::AbsAxis(ax_) => {
            let ax = if ax_ == ABS_X {
                Ax::X
            } else if ax_ == ABS_Y {
                Ax::Y
            } else {
                return None;
            };
            Some(MouseMove::Abs(MouseMoveData { lr, ax, v }))
        },
        RawKind::Other => None,
    }
}

} // verus!
