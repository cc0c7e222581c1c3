//! One tick of the polling design: what two batches of raw events do to the
//! tracked positions, and the target that results.

use vstd::prelude::*;
use crate::event::{is_motion, RawEvent};
use crate::merge::{lemma_no_motion_no_moves, merge_moves, merged};
use crate::moves::{Ax, Lr, MouseMove};
use crate::normal::{normal, normalize, Ratio};
use crate::space::{MicePos, MouseSpaces};
use crate::track::{after_moves, apply_moves};

verus! {

/// Runs one tick on the events that the left and the right device had
/// pending: classifies them, applies the moves of the left device and then
/// those of the right, and gives the target, the normalized X coordinate of
/// the left device.
pub fn mice_input(
    left_events: &Vec<RawEvent>,
    right_events: &Vec<RawEvent>,
    mice_pos: &mut MicePos,
    spaces: &MouseSpaces,
) -> (normal_target: Ratio)
    requires
        spaces.wf(),
    ensures
        *final(mice_pos) == after_moves(*old(mice_pos), *spaces, merged(left_events@, right_events@)),
        normal_target == normal(*final(mice_pos), *spaces, Lr::Left, Ax::X),
{
    let moves = merge_moves(left_events, right_events);
    apply_moves(&moves, mice_pos, spaces);
    normalize(Lr::Left, Ax::X, mice_pos, spaces)
}

/// A tick whose events are all something else than motion along X or Y
/// leaves both positions as they were.
pub proof fn lemma_dropped_events_keep_position(
    pos: MicePos,
    spaces: MouseSpaces,
    left_events: Seq<RawEvent>,
    right_events: Seq<RawEvent>,
)
    requires
        forall|i: int| 0 <= i < left_events.len() ==> !is_motion(#[trigger] left_events[i]),
        forall|i: int| 0 <= i < right_events.len() ==> !is_motion(#[trigger] right_events[i]),
    ensures
        merged(left_events, right_events) == Seq::<MouseMove>::empty(),
        after_moves(pos, spaces, merged(left_events, right_events)) == pos,
{
    lemma_no_motion_no_moves(left_events, false);
    lemma_no_motion_no_moves(right_events, true);
}

} // verus!
