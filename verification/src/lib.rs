//! Tracking of two pointing devices, a left one and a right one.
//!
//! Raw device events are classified into moves, the moves of both devices are
//! merged into one sequence, and the sequence drives one bounded position per
//! device. The position of a device is read back as an exact fraction of its
//! rectangle.

pub mod event;
pub mod forward;
pub mod merge;
pub mod moves;
pub mod normal;
pub mod space;
pub mod tick;
pub mod track;

pub use moves::{AbsMouseMove, Ax, Lr, MouseMove, MouseMoveData, RelMouseMove};
pub use space::{MicePos, MousePos, MouseSpace, MouseSpaces};
