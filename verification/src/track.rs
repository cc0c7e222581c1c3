//! The position tracker: moves are applied to the position of the device
//! that made them, and the result is clamped into that device's rectangle.

use vstd::prelude::*;
use crate::moves::{AbsMouseMove, Ax, Lr, MouseMove, MouseMoveData, RelMouseMove};
use crate::space::{MicePos, MouseSpaces};

verus! {

/// `v` brought into the half-open range that starts at `low` and ends
/// before `high`.
pub open spec fn clamped(v: int, low: int, high: int) -> int {
    if v < low {
        low
    } else if v >= high {
        high - 1
    } else {
        v
    }
}

/// The positions with coordinate `d.ax` of device `d.lr` set to `v`, clamped.
pub open spec fn placed(pos: MicePos, spaces: MouseSpaces, d: MouseMoveData, v: int) -> MicePos {
    let space = spaces.of(d.lr);
    let to = clamped(v, space.low(d.ax), space.high(d.ax));
    pos.with(d.lr, pos.of(d.lr).with(d.ax, to as i32))
}

/// The positions after the relative move `d`: its value is added to the
/// coordinate.
pub open spec fn rel_moved(pos: MicePos, spaces: MouseSpaces, d: MouseMoveData) -> MicePos {
    placed(pos, spaces, d, pos.of(d.lr).at(d.ax) + d.v)
}

/// The positions after the absolute move `d`: its value replaces the
/// coordinate.
pub open spec fn abs_moved(pos: MicePos, spaces: MouseSpaces, d: MouseMoveData) -> MicePos {
    placed(pos, spaces, d, d.v as int)
}

/// The positions after the move `m`.
pub open spec fn moved(pos: MicePos, spaces: MouseSpaces, m: MouseMove) -> MicePos {
    match m {
        MouseMove::Rel(d) => rel_moved(pos, spaces, d),
        MouseMove::Abs(d) => abs_moved(pos, spaces, d),
    }
}

/// The positions after the moves of `moves`, applied first to last.
pub open spec fn after_moves(pos: MicePos, spaces: MouseSpaces, moves: Seq<MouseMove>) -> MicePos
    decreases moves.len(),
{
    if moves.len() == 0 {
        pos
    } else {
        moved(after_moves(pos, spaces, moves.drop_last()), spaces, moves.last())
    }
}

/// Whether a move was made by the device on side `lr`, as a function of the
/// move.
pub open spec fn on_side(lr: Lr) -> spec_fn(MouseMove) -> bool {
    |m: MouseMove| m.side() == lr
}

/// The moves of `moves` made by the device on side `lr`, in their order.
pub open spec fn moves_of(moves: Seq<MouseMove>, lr: Lr) -> Seq<MouseMove> {
    moves.filter(on_side(lr))
}

/// Whether some move of `moves` goes along axis `ax` of the device on side `lr`.
pub open spec fn touches(moves: Seq<MouseMove>, lr: Lr, ax: Ax) -> bool {
    exists|i: int| 0 <= i < moves.len() && (#[trigger] moves[i]).side() == lr && moves[i].axis() == ax
}

fn clamp(v: i64, low: i32, high: i32) -> (to: i32)
    requires
        low < high,
    ensures
        to == clamped(v as int, low as int, high as int),
{
    if v < low as i64 {
        low
    } else if v >= high as i64 {
        high - 1
    } else {
        v as i32
    }
}

/// Applies a relative move: the value is added to the coordinate it names,
/// and the sum is clamped into the rectangle of its device. The sum is taken
/// exactly, so no delta is too large.
pub fn resolve_rel_m_move(m_move: &RelMouseMove, mice_pos: &mut MicePos, spaces: &MouseSpaces)
    requires
        spaces.wf(),
    ensures
        *final(mice_pos) == rel_moved(*old(mice_pos), *spaces, *m_move),
        spaces.of(m_move.lr).holds(m_move.ax, final(mice_pos).of(m_move.lr).at(m_move.ax)),
        forall|lr: Lr| lr != m_move.lr ==> final(mice_pos).of(lr) == old(mice_pos).of(lr),
{
    let (space, mouse_pos) = match m_move.lr {
        Lr::Left => (&spaces.l, &mut mice_pos.l),
        Lr::Right => (&spaces.r, &mut mice_pos.r),
    };
    let (value_to_change, min_bound, max_bound) = match m_move.ax {
        Ax::X => (&mut mouse_pos.x, space.left, space.right),
        Ax::Y => (&mut mouse_pos.y, space.top, space.bottom),
    };

    *value_to_change = clamp(*value_to_change as i64 + m_move.v as i64, min_bound, max_bound);
}

/// Applies an absolute move: the value replaces the coordinate it names,
/// clamped into the rectangle of its device.
pub fn resolve_abs_m_move(m_move: &AbsMouseMove, mice_pos: &mut MicePos, spaces: &MouseSpaces)
    requires
        spaces.wf(),
    ensures
        *final(mice_pos) == abs_moved(*old(mice_pos), *spaces, *m_move),
        spaces.of(m_move.lr).holds(m_move.ax, final(mice_pos).of(m_move.lr).at(m_move.ax)),
        forall|lr: Lr| lr != m_move.lr ==> final(mice_pos).of(lr) == old(mice_pos).of(lr),
{
    let (space, mouse_pos) = match m_move.lr {
        Lr::Left => (&spaces.l, &mut mice_pos.l),
        Lr::Right => (&spaces.r, &mut mice_pos.r),
    };
    let (value_to_change, min_bound, max_bound) = match m_move.ax {
        Ax::X => (&mut mouse_pos.x, space.left, space.right),
        Ax::Y => (&mut mouse_pos.y, space.top, space.bottom),
    };

    *value_to_change = clamp(m_move.v as i64, min_bound, max_bound);
}

/// Applies one move, by its kind.
pub fn apply_move(m_move: &MouseMove, mice_pos: &mut MicePos, spaces: &MouseSpaces)
    requires
        spaces.wf(),
    ensures
        *final(mice_pos) == moved(*old(mice_pos), *spaces, *m_move),
{
    match m_move {
        MouseMove::Rel(m_m) => resolve_rel_m_move(m_m, mice_pos, spaces),
        MouseMove::Abs(m_m) => resolve_abs_m_move(m_m, mice_pos, spaces),
    }
}

/// Applies the moves of `moves`, first to last.
pub fn apply_moves(moves: &Vec<MouseMove>, mice_pos: &mut MicePos, spaces: &MouseSpaces)
    requires
        spaces.wf(),
    ensures
        *final(mice_pos) == after_moves(*old(mice_pos), *spaces, moves@),
{
    let mut i: usize = 0;
    while i < moves.len()
        invariant
            spaces.wf(),
            i <= moves.len(),
            *mice_pos == after_moves(*old(mice_pos), *spaces, moves@.take(i as int)),
        decreases moves.len() - i,
    {
        proof {
            assert(moves@.take(i + 1).drop_last() == moves@.take(i as int));
        }
        apply_move(&moves[i], mice_pos, spaces);
        i += 1;
    }
    proof {
        assert(moves@.take(i as int) == moves@);
    }
}

/// A move brings the coordinate it names into the rectangle of its device,
/// wherever the device stood before.
pub proof fn lemma_move_lands_within(pos: MicePos, spaces: MouseSpaces, m: MouseMove)
    requires
        spaces.wf(),
    ensures
        spaces.of(m.side()).holds(m.axis(), moved(pos, spaces, m).of(m.side()).at(m.axis())),
{
}

/// A move changes one coordinate of one device: the other coordinate of
/// that device and the position of the other device stay as they were.
pub proof fn lemma_move_changes_one_coordinate(pos: MicePos, spaces: MouseSpaces, m: MouseMove, lr: Lr, ax: Ax)
    requires
        lr != m.side() || ax != m.axis(),
    ensures
        moved(pos, spaces, m).of(lr).at(ax) == pos.of(lr).at(ax),
{
}

/// An absolute move sets its coordinate without regard to where the device
/// stood: from any two positions it leads to the same coordinate, the value
/// of the move clamped into the rectangle.
pub proof fn lemma_absolute_move_overwrites(p: MicePos, q: MicePos, spaces: MouseSpaces, d: MouseMoveData)
    requires
        spaces.wf(),
    ensures
        abs_moved(p, spaces, d).of(d.lr).at(d.ax) == abs_moved(q, spaces, d).of(d.lr).at(d.ax),
        abs_moved(p, spaces, d).of(d.lr).at(d.ax) == clamped(
            d.v as int,
            spaces.of(d.lr).low(d.ax),
            spaces.of(d.lr).high(d.ax),
        ),
{
}

/// Relative moves along one coordinate add up, as long as each sum on the
/// way stays inside the rectangle.
pub proof fn lemma_relative_moves_add_up(pos: MicePos, spaces: MouseSpaces, a: MouseMoveData, b: MouseMoveData)
    requires
        spaces.wf(),
        a.lr == b.lr,
        a.ax == b.ax,
        spaces.of(a.lr).holds(a.ax, pos.of(a.lr).at(a.ax) + a.v),
        spaces.of(a.lr).holds(a.ax, pos.of(a.lr).at(a.ax) + a.v + b.v),
    ensures
        rel_moved(rel_moved(pos, spaces, a), spaces, b).of(a.lr).at(a.ax) == pos.of(a.lr).at(a.ax) + a.v
            + b.v,
{
}

/// Positions that lie in their rectangles stay there under every sequence
/// of moves, relative or absolute.
pub proof fn lemma_moves_stay_within(pos: MicePos, spaces: MouseSpaces, moves: Seq<MouseMove>)
    requires
        spaces.wf(),
        pos.within(spaces),
    ensures
        after_moves(pos, spaces, moves).within(spaces),
    decreases moves.len(),
{
    if moves.len() > 0 {
        lemma_moves_stay_within(pos, spaces, moves.drop_last());
    }
}

/// A coordinate that some move of the sequence names lies in the rectangle
/// of its device once the sequence is applied, wherever the device started.
pub proof fn lemma_touched_coordinate_within(
    pos: MicePos,
    spaces: MouseSpaces,
    moves: Seq<MouseMove>,
    lr: Lr,
    ax: Ax,
)
    requires
        spaces.wf(),
        touches(moves, lr, ax),
    ensures
        spaces.of(lr).holds(ax, after_moves(pos, spaces, moves).of(lr).at(ax)),
    decreases moves.len(),
{
    let i = choose|i: int| 0 <= i < moves.len() && (#[trigger] moves[i]).side() == lr && moves[i].axis() == ax;
    let last = moves.last();
    let before = after_moves(pos, spaces, moves.drop_last());
    if last.side() == lr && last.axis() == ax {
        lemma_move_lands_within(before, spaces, last);
    } else {
        assert(moves.drop_last()[i] == moves[i]);
        lemma_touched_coordinate_within(pos, spaces, moves.drop_last(), lr, ax);
        lemma_move_changes_one_coordinate(before, spaces, last, lr, ax);
    }
}

/// A coordinate that no move of the sequence names is left as it was.
pub proof fn lemma_untouched_coordinate_kept(
    pos: MicePos,
    spaces: MouseSpaces,
    moves: Seq<MouseMove>,
    lr: Lr,
    ax: Ax,
)
    requires
        !touches(moves, lr, ax),
    ensures
        after_moves(pos, spaces, moves).of(lr).at(ax) == pos.of(lr).at(ax),
    decreases moves.len(),
{
    if moves.len() > 0 {
        let rest = moves.drop_last();
        assert(!touches(rest, lr, ax)) by {
            if touches(rest, lr, ax) {
                let i = choose|i: int| 0 <= i < rest.len() && (#[trigger] rest[i]).side() == lr && rest[i].axis() == ax;
                assert(moves[i] == rest[i]);
            }
        }
        lemma_untouched_coordinate_kept(pos, spaces, rest, lr, ax);
        let last = moves.last();
        assert(moves[moves.len() - 1] == last);
        lemma_move_changes_one_coordinate(after_moves(pos, spaces, rest), spaces, last, lr, ax);
    }
}

/// The position of a device after a sequence of moves is the one it has
/// after its own moves alone: however the moves of the two devices are
/// interleaved, those of one never reach the other.
pub proof fn lemma_side_isolation(pos: MicePos, spaces: MouseSpaces, moves: Seq<MouseMove>, lr: Lr)
    ensures
        after_moves(pos, spaces, moves).of(lr) == after_moves(pos, spaces, moves_of(moves, lr)).of(lr),
    decreases moves.len(),
{
    if moves.len() == 0 {
        assert(moves.filter(on_side(lr)) == moves) by {
            reveal(Seq::filter);
        }
    } else {
        let rest = moves.drop_last();
        let last = moves.last();
        lemma_side_isolation(pos, spaces, rest, lr);
        assert(rest.push(last) == moves);
        rest.lemma_filter_push(last, on_side(lr));
        if last.side() == lr {
            assert(rest.filter(on_side(lr)).push(last).drop_last() == rest.filter(on_side(lr)));
        }
    }
}

/// The moves of one device leave the position of the other as it was.
pub proof fn lemma_other_side_kept(pos: MicePos, spaces: MouseSpaces, moves: Seq<MouseMove>, lr: Lr)
    requires
        forall|i: int| 0 <= i < moves.len() ==> (#[trigger] moves[i]).side() != lr,
    ensures
        after_moves(pos, spaces, moves).of(lr) == pos.of(lr),
    decreases moves.len(),
{
    if moves.len() > 0 {
        lemma_other_side_kept(pos, spaces, moves.drop_last(), lr);
    }
}

} // verus!
