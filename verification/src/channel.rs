//! PWM channel selectors.

use vstd::prelude::*;

verus! {

/// One of the four compare channels of a shared PWM timer.
#[derive(Clone, Copy, Debug, PartialEq, Eq, Structural)]
pub enum PwmChannel {
    Channel1,
    Channel2,
    Channel3,
    Channel4,
}

impl PwmChannel {
    /// Zero-based position of the channel in per-channel tables.
    pub open spec fn spec_index(self) -> int {
        match self {
            PwmChannel::Channel1 => 0,
            PwmChannel::Channel2 => 1,
            PwmChannel::Channel3 => 2,
            PwmChannel::Channel4 => 3,
        }
    }

    /// The channel a one-based user-facing number names, if any.
    pub open spec fn from_number(value: int) -> Option<PwmChannel> {
        if value == 1 {
            Some(PwmChannel::Channel1)
        } else if value == 2 {
            Some(PwmChannel::Channel2)
        } else if value == 3 {
            Some(PwmChannel::Channel3)
        } else if value == 4 {
            Some(PwmChannel::Channel4)
        } else {
            None
        }
    }

    /// Converts a one-based channel number (1 to 4) into a channel.
    /// Any other number is handed back as the error.
    pub fn try_from(value: u8) -> (r: Result<PwmChannel, u8>)
        ensures
            1 <= value <= 4 <==> r is Ok,
            r matches Ok(c) ==> Self::from_number(value as int) == Some(c) && c.spec_index() == value - 1,
            r matches Err(e) ==> e == value,
    {
        match value {
            1 => Ok(PwmChannel::Channel1),
            2 => Ok(PwmChannel::Channel2),
            3 => Ok(PwmChannel::Channel3),
            4 => Ok(PwmChannel::Channel4),
            _ => Err(value),
        }
    }

    /// Zero-based position of the channel in per-channel tables.
    pub fn index(self) -> (i: usize)
        ensures
            i == self.spec_index(),
            i < 4,
    {
        match self {
            PwmChannel::Channel1 => 0,
            PwmChannel::Channel2 => 1,
            PwmChannel::Channel3 => 2,
            PwmChannel::Channel4 => 3,
        }
    }

    /// The one-based number of the channel.
    pub fn number(self) -> (n: u8)
        ensures
            n == self.spec_index() + 1,
            Self::from_number(n as int) == Some(self),
    {
        match self {
            PwmChannel::Channel1 => 1,
            PwmChannel::Channel2 => 2,
            PwmChannel::Channel3 => 3,
            PwmChannel::Channel4 => 4,
        }
    }
}

} // verus!
