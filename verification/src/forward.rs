//! The decisions of the forwarding worker: it pulls from the merged event
//! stream of both devices and passes every move on to the tracker's queue.
//! Pulling and sending are the caller's; what to do with each pulled item is
//! decided here.

use vstd::prelude::*;
use crate::event::{classify, event_to_mouse_move, RawEvent};
use crate::merge::{classified, classifier};
use crate::moves::{Lr, MouseMove};
use crate::track::{moves_of, on_side};

verus! {

/// What one pull from the merged stream gave.
#[derive(Debug, Clone, Copy, PartialEq, Eq, Structural)]
pub enum Pulled {
    /// Both devices are closed: the stream has ended.
    Closed,
    /// Reading a device failed.
    Failed,
    /// An event of the left device (`false`) or of the right one (`true`).
    Event(bool, RawEvent),
}

/// What the worker does next.
#[derive(Debug, Clone, Copy, PartialEq, Eq, Structural)]
pub enum Forward {
    /// Leave the loop: nothing more will come.
    Stop,
    /// Pull again: the event was no move.
    Skip,
    /// Send this move, then pull again.
    Send(MouseMove),
}

/// The step that answers a pulled item.
pub open spec fn step_of(pulled: Pulled) -> Forward {
    match pulled {
        Pulled::Closed => Forward::Stop,
        Pulled::Failed => Forward::Stop,
        Pulled::Event(right, ev) => match classify(ev, right) {
            Some(m_move) => Forward::Send(m_move),
            None => Forward::Skip,
        },
    }
}

/// Decides one round of the worker's loop: the end of the stream and a
/// failed read stop it, an event that is a move is sent on, any other event
/// is passed over.
pub fn mouse_thread_step(pulled: Pulled) -> (step: Forward)
    ensures
        step == step_of(pulled),
{
    match pulled {
        Pulled::Event(right, ev) => match event_to_mouse_move(ev, right) {
            Some(m_move) => Forward::Send(m_move),
            None => Forward::Skip,
        },
        _ => Forward::Stop,
    }
}

/// Whether some item of `pulls` stops the worker.
pub open spec fn stopped(pulls: Seq<Pulled>) -> bool {
    exists|i: int| 0 <= i < pulls.len() && step_of(#[trigger] pulls[i]) == Forward::Stop
}

/// The moves that the worker sends while it is handed the items of `pulls`
/// one by one: those of the items before the first that stops it.
pub open spec fn forwarded(pulls: Seq<Pulled>) -> Seq<MouseMove>
    decreases pulls.len(),
{
    if pulls.len() == 0 {
        Seq::empty()
    } else if stopped(pulls.drop_last()) {
        forwarded(pulls.drop_last())
    } else {
        match step_of(pulls.last()) {
            Forward::Send(m_move) => forwarded(pulls.drop_last()).push(m_move),
            _ => forwarded(pulls.drop_last()),
        }
    }
}

/// The events of the device on the side `right` among the items of `pulls`
/// before the first that stops the worker, in the order they were pulled.
pub open spec fn pulled_events(pulls: Seq<Pulled>, right: bool) -> Seq<RawEvent>
    decreases pulls.len(),
{
    if pulls.len() == 0 {
        Seq::empty()
    } else if stopped(pulls.drop_last()) {
        pulled_events(pulls.drop_last(), right)
    } else {
        match pulls.last() {
            Pulled::Event(from_right, ev) if from_right == right => pulled_events(
                pulls.drop_last(),
                right,
            ).push(ev),
            _ => pulled_events(pulls.drop_last(), right),
        }
    }
}

/// However the stream interleaves the two devices, the moves that the
/// worker sends for one device are that device's classified events, in the
/// order they were pulled.
pub proof fn lemma_forwarding_keeps_order(pulls: Seq<Pulled>, right: bool)
    ensures
        moves_of(forwarded(pulls), Lr::of(right)) == classified(pulled_events(pulls, right), right),
    decreases pulls.len(),
{
    let side = on_side(Lr::of(right));
    if pulls.len() == 0 {
        assert(forwarded(pulls).filter(side) == Seq::<MouseMove>::empty()) by {
            reveal(Seq::filter);
        }
    } else {
        let rest = pulls.drop_last();
        lemma_forwarding_keeps_order(rest, right);
        if !stopped(rest) {
            match pulls.last() {
                Pulled::Event(from_right, ev) => {
                    let events = pulled_events(rest, right);
                    match classify(ev, from_right) {
                        Some(m_move) => {
                            forwarded(rest).lemma_filter_push(m_move, side);
                        },
                        None => {},
                    }
                    if from_right == right {
                        assert(events.push(ev).drop_last() == events);
                        assert(classifier(right)(ev) == classify(ev, right));
                    }
                },
                _ => {},
            }
        }
    }
}

} // verus!
