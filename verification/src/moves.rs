//! The vocabulary of moves: which device, which axis, relative or absolute.

use vstd::prelude::*;

verus! {

/// The device a value comes from.
#[derive(Debug, Clone, Copy, PartialEq, Eq, Structural)]
pub enum Lr {
    Left,
    Right,
}

/// An axis of the plane.
#[derive(Debug, Clone, Copy, PartialEq, Eq, Structural)]
pub enum Ax {
    X,
    Y,
}

/// One reading of one axis of one device.
#[derive(Debug, Clone, Copy, PartialEq, Eq, Structural)]
pub struct MouseMoveData {
    pub lr: Lr,
    pub ax: Ax,
    pub v: i32,
}

pub type RelMouseMove = MouseMoveData;

pub type AbsMouseMove = MouseMoveData;

/// A move of a device along one axis: `Rel` carries a delta that is added to
/// the position, `Abs` a reading that replaces it.
#[derive(Debug, Clone, Copy, PartialEq, Eq, Structural)]
pub enum MouseMove {
    Rel(RelMouseMove),
    Abs(AbsMouseMove),
}

impl Lr {
    /// The side of the device that the flag `right` names.
    pub open spec fn of(right: bool) -> Lr {
        if right {
            Lr::Right
        } else {
            Lr::Left
        }
    }
}

impl MouseMove {
    /// The reading that the move carries, whatever its kind.
    pub open spec fn data(self) -> MouseMoveData {
        match self {
            MouseMove::Rel(d) => d,
            MouseMove::Abs(d) => d,
        }
    }

    /// The device that made the move.
    pub open spec fn side(self) -> Lr {
        self.data().lr
    }

    /// The axis along which the move goes.
    pub open spec fn axis(self) -> Ax {
        self.data().ax
    }
}

} // verus!
