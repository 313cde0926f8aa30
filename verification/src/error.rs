//! Errors that handlers and clients report.

use vstd::prelude::*;

verus! {

/// Largest angle, in degrees, that a servo can be set to.
pub const MAX_ANGLE: u8 = 180;

/// Largest heater duty, in parts per thousand.
pub const MAX_DUTY: u16 = 1000;

/// An argument outside the range its operation accepts. It holds the value
/// that was handed in.
#[derive(Clone, Copy, Debug, PartialEq, Eq, Structural)]
pub enum InvalidArgument {
    /// A channel number other than 1 to 4.
    Channel(u8),
    /// An angle above `MAX_ANGLE`.
    Angle(u8),
    /// A duty above `MAX_DUTY`.
    Duty(u16),
    /// A direction other than 0 or 1.
    Direction(u8),
}

/// What can go wrong on the host before anything is sent to the board.
#[derive(Clone, Copy, Debug, PartialEq, Eq, Structural)]
pub enum BoardError {
    /// The caller handed in data that the board cannot take.
    InvalidData(InvalidArgument),
}

} // verus!
