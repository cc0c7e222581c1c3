//! The rectangle a device is tracked in, and the position tracked in it.
//!
//! A rectangle is half open: `left` and `top` are the first valid
//! coordinates, `right` and `bottom` are one past the last. The edges thus
//! double as a width and a height.

use vstd::prelude::*;
use crate::moves::{Ax, Lr};

verus! {

/// The rectangle of one device.
#[derive(Debug, Clone, Copy, PartialEq, Eq, Structural)]
pub struct MouseSpace {
    pub top: i32,
    pub bottom: i32,
    pub right: i32,
    pub left: i32,
}

/// The rectangles of both devices.
#[derive(Debug, Clone, Copy, PartialEq, Eq, Structural)]
pub struct MouseSpaces {
    pub l: MouseSpace,
    pub r: MouseSpace,
}

/// The position of one device.
#[derive(Debug, Clone, Copy, PartialEq, Eq, Structural)]
pub struct MousePos {
    pub x: i32,
    pub y: i32,
}

/// The positions of both devices.
#[derive(Debug, Clone, Copy, PartialEq, Eq, Structural)]
pub struct MicePos {
    pub l: MousePos,
    pub r: MousePos,
}

impl MouseSpace {
    /// A rectangle is well formed when it holds at least one point.
    pub open spec fn wf(self) -> bool {
        self.left < self.right && self.top < self.bottom
    }

    /// The first valid coordinate along `ax`.
    pub open spec fn low(self, ax: Ax) -> int {
        match ax {
            Ax::X => self.left as int,
            Ax::Y => self.top as int,
        }
    }

    /// One past the last valid coordinate along `ax`.
    pub open spec fn high(self, ax: Ax) -> int {
        match ax {
            Ax::X => self.right as int,
            Ax::Y => self.bottom as int,
        }
    }

    /// Whether `v` is a valid coordinate along `ax`.
    pub open spec fn holds(self, ax: Ax, v: int) -> bool {
        self.low(ax) <= v < self.high(ax)
    }

    /// Whether `pos` lies in the rectangle.
    pub open spec fn contains(self, pos: MousePos) -> bool {
        self.holds(Ax::X, pos.x as int) && self.holds(Ax::Y, pos.y as int)
    }

    /// The rectangle with the given edges, unless it would be empty.
    pub fn new(top: i32, bottom: i32, left: i32, right: i32) -> (space: Option<MouseSpace>)
        ensures
            space.is_some() <==> left < right && top < bottom,
            space.is_some() ==> space.unwrap() == (MouseSpace { top, bottom, right, left }),
    {
        if left < right && top < bottom {
            Some(MouseSpace { top, bottom, right, left })
        } else {
            None
        }
    }

    /// Whether the rectangle is well formed.
    pub fn is_valid(&self) -> (valid: bool)
        ensures
            valid == self.wf(),
    {
        self.left < self.right && self.top < self.bottom
    }
}

impl MouseSpaces {
    /// Both rectangles are well formed.
    pub open spec fn wf(self) -> bool {
        self.l.wf() && self.r.wf()
    }

    /// The rectangle of the device on side `lr`.
    pub open spec fn of(self, lr: Lr) -> MouseSpace {
        match lr {
            Lr::Left => self.l,
            Lr::Right => self.r,
        }
    }

    /// Whether both rectangles are well formed.
    pub fn is_valid(&self) -> (valid: bool)
        ensures
            valid == self.wf(),
    {
        self.l.is_valid() && self.r.is_valid()
    }
}

impl MousePos {
    /// The coordinate along `ax`.
    pub open spec fn at(self, ax: Ax) -> int {
        match ax {
            Ax::X => self.x as int,
            Ax::Y => self.y as int,
        }
    }

    /// The position with the coordinate along `ax` replaced by `v`.
    pub open spec fn with(self, ax: Ax, v: i32) -> MousePos {
        match ax {
            Ax::X => MousePos { x: v, y: self.y },
            Ax::Y => MousePos { x: self.x, y: v },
        }
    }
}

impl MicePos {
    /// The position of the device on side `lr`.
    pub open spec fn of(self, lr: Lr) -> MousePos {
        match lr {
            Lr::Left => self.l,
            Lr::Right => self.r,
        }
    }

    /// The positions with that of the device on side `lr` replaced by `pos`.
    pub open spec fn with(self, lr: Lr, pos: MousePos) -> MicePos {
        match lr {
            Lr::Left => MicePos { l: pos, r: self.r },
            Lr::Right => MicePos { l: self.l, r: pos },
        }
    }

    /// Whether each device lies in its own rectangle.
    pub open spec fn within(self, spaces: MouseSpaces) -> bool {
        spaces.l.contains(self.l) && spaces.r.contains(self.r)
    }
}

} // verus!
