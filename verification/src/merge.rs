//! The stream merger: the events of both devices become one sequence of
//! moves, in which each device's moves keep the order of its events.

use vstd::prelude::*;
use crate::event::{classify, event_to_mouse_move, is_motion, RawEvent};
use crate::moves::{Lr, MouseMove};
use crate::track::{moves_of, on_side};

verus! {

/// The classification of the events of the device on the side `right`, as a
/// function of the event.
pub open spec fn classifier(right: bool) -> spec_fn(RawEvent) -> Option<MouseMove> {
    |ev: RawEvent| classify(ev, right)
}

/// The moves that the events of one device stand for, in the order of the
/// events.
pub open spec fn classified(events: Seq<RawEvent>, right: bool) -> Seq<MouseMove> {
    events.filter_map(classifier(right))
}

/// The moves of one tick: those of the left device, then those of the right.
pub open spec fn merged(left_events: Seq<RawEvent>, right_events: Seq<RawEvent>) -> Seq<MouseMove> {
    classified(left_events, false) + classified(right_events, true)
}

/// Classifies the events of one device and appends the moves to `moves`.
pub fn collect_moves(events: &Vec<RawEvent>, right: bool, moves: &mut Vec<MouseMove>)
    ensures
        final(moves)@ == old(moves)@ + classified(events@, right),
{
    let mut i: usize = 0;
    while i < events.len()
        invariant
            i <= events.len(),
            moves@ == old(moves)@ + classified(events@.take(i as int), right),
        decreases events.len() - i,
    {
        proof {
            events@.lemma_filter_map_take_succ(classifier(right), i as int);
        }
        if let Some(m_move) = event_to_mouse_move(events[i], right) {
            moves.push(m_move);
        }
        i += 1;
    }
    proof {
        assert(events@.take(i as int) == events@);
    }
}

/// Merges the events that the two devices gave in one tick into one
/// sequence of moves: left first, then right.
pub fn merge_moves(left_events: &Vec<RawEvent>, right_events: &Vec<RawEvent>) -> (moves: Vec<MouseMove>)
    ensures
        moves@ == merged(left_events@, right_events@),
        moves_of(moves@, Lr::Left) == classified(left_events@, false),
        moves_of(moves@, Lr::Right) == classified(right_events@, true),
{
    let mut moves: Vec<MouseMove> = Vec::new();
    collect_moves(left_events, false, &mut moves);
    let ghost left_moves = moves@;
    collect_moves(right_events, true, &mut moves);
    proof {
        assert(left_moves == classified(left_events@, false));
        lemma_merge_keeps_order(left_events@, right_events@);
    }
    moves
}

/// Every move classified from the events of a device carries that device's
/// side.
pub proof fn lemma_classified_side(events: Seq<RawEvent>, right: bool)
    ensures
        forall|i: int|
            0 <= i < classified(events, right).len() ==> (#[trigger] classified(events, right)[i]).side()
                == Lr::of(right),
    decreases events.len(),
{
    if events.len() > 0 {
        lemma_classified_side(events.drop_last(), right);
    }
}

/// Events that are not motion along X or Y give no move at all.
pub proof fn lemma_no_motion_no_moves(events: Seq<RawEvent>, right: bool)
    requires
        forall|i: int| 0 <= i < events.len() ==> !is_motion(#[trigger] events[i]),
    ensures
        classified(events, right) == Seq::<MouseMove>::empty(),
    decreases events.len(),
{
    if events.len() > 0 {
        lemma_no_motion_no_moves(events.drop_last(), right);
    }
}

/// The moves of a sequence all made by the device on side `lr` are what is
/// left when the sequence is filtered for that side; those of the other
/// device leave nothing.
proof fn lemma_filter_one_side(moves: Seq<MouseMove>, made_by: Lr, lr: Lr)
    requires
        forall|i: int| 0 <= i < moves.len() ==> (#[trigger] moves[i]).side() == made_by,
    ensures
        moves.filter(on_side(lr)) == (if lr == made_by {
            moves
        } else {
            Seq::empty()
        }),
    decreases moves.len(),
{
    reveal(Seq::filter);
    if moves.len() > 0 {
        lemma_filter_one_side(moves.drop_last(), made_by, lr);
        if lr == made_by {
            assert(moves.drop_last().push(moves.last()) == moves);
        }
    }
}

/// In the merged sequence each device's moves stand in the order of its
/// events: filtered for one side, the sequence is that side's classified
/// events. Nothing is said of how the two sides interleave.
pub proof fn lemma_merge_keeps_order(left_events: Seq<RawEvent>, right_events: Seq<RawEvent>)
    ensures
        moves_of(merged(left_events, right_events), Lr::Left) == classified(left_events, false),
        moves_of(merged(left_events, right_events), Lr::Right) == classified(right_events, true),
{
    let l = classified(left_events, false);
    let r = classified(right_events, true);
    lemma_classified_side(left_events, false);
    lemma_classified_side(right_events, true);
    lemma_filter_one_side(l, Lr::Left, Lr::Left);
    lemma_filter_one_side(l, Lr::Left, Lr::Right);
    lemma_filter_one_side(r, Lr::Right, Lr::Left);
    lemma_filter_one_side(r, Lr::Right, Lr::Right);
    Seq::filter_distributes_over_add(l, r, on_side(Lr::Left));
    Seq::filter_distributes_over_add(l, r, on_side(Lr::Right));
    assert(l + Seq::<MouseMove>::empty() == l);
    assert(Seq::<MouseMove>::empty() + r == r);
}

} // verus!
