//! The actuation mapper's exact part: where a device stands in its
//! rectangle, as a fraction of the rectangle's extent.
//!
//! The fraction is kept as two integers, so nothing is rounded here; turning
//! it into a floating-point signal is left to the caller.

use vstd::prelude::*;
use crate::moves::{Ax, Lr};
use crate::space::{MicePos, MouseSpaces};

verus! {

/// The fraction `num / den`.
#[derive(Debug, Clone, Copy, PartialEq, Eq, Structural)]
pub struct Ratio {
    pub num: i64,
    pub den: i64,
}

impl Ratio {
    /// The fraction is at least 0 and less than 1.
    pub open spec fn in_unit(self) -> bool {
        0 <= self.num < self.den
    }
}

/// The distance of coordinate `ax` of the device on side `lr` from the low
/// edge of its rectangle, over the rectangle's extent along `ax`.
pub open spec fn normal(pos: MicePos, spaces: MouseSpaces, lr: Lr, ax: Ax) -> Ratio {
    Ratio {
        num: (pos.of(lr).at(ax) - spaces.of(lr).low(ax)) as i64,
        den: (spaces.of(lr).high(ax) - spaces.of(lr).low(ax)) as i64,
    }
}

/// Normalizes one coordinate of one device: its offset from the low edge of
/// the rectangle, as a fraction of the rectangle's extent. For a coordinate
/// inside the rectangle the fraction lies between 0 and 1: it is 0 at the low
/// edge and one step short of 1 at the last valid coordinate.
pub fn normalize(lr: Lr, ax: Ax, mice_pos: &MicePos, spaces: &MouseSpaces) -> (target: Ratio)
    requires
        spaces.wf(),
    ensures
        target == normal(*mice_pos, *spaces, lr, ax),
        target.num == mice_pos.of(lr).at(ax) - spaces.of(lr).low(ax),
        target.den == spaces.of(lr).high(ax) - spaces.of(lr).low(ax),
        target.den > 0,
        spaces.of(lr).holds(ax, mice_pos.of(lr).at(ax)) <==> target.in_unit(),
{
    let (space, mouse_pos) = match lr {
        Lr::Left => (&spaces.l, &mice_pos.l),
        Lr::Right => (&spaces.r, &mice_pos.r),
    };
    let (value, min_bound, max_bound) = match ax {
        Ax::X => (mouse_pos.x, space.left, space.right),
        Ax::Y => (mouse_pos.y, space.top, space.bottom),
    };
    Ratio { num: value as i64 - min_bound as i64, den: max_bound as i64 - min_bound as i64 }
}

/// A position inside its rectangle normalizes to a fraction from 0 up to,
/// but not reaching, 1; the low edge gives exactly 0, and the last valid
/// coordinate gives 1 less one part in the extent.
pub proof fn lemma_normal_in_unit(pos: MicePos, spaces: MouseSpaces, lr: Lr, ax: Ax)
    requires
        spaces.wf(),
        spaces.of(lr).holds(ax, pos.of(lr).at(ax)),
    ensures
        normal(pos, spaces, lr, ax).in_unit(),
        pos.of(lr).at(ax) == spaces.of(lr).low(ax) ==> normal(pos, spaces, lr, ax).num == 0,
        pos.of(lr).at(ax) == spaces.of(lr).high(ax) - 1 ==> normal(pos, spaces, lr, ax).num == normal(
            pos,
            spaces,
            lr,
            ax,
        ).den - 1,
{
}

} // verus!
