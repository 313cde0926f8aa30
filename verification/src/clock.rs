//! The clock tree that the board needs for USB: an 8 MHz crystal, multiplied
//! to a system clock of 72 MHz, from which the USB clock of 48 MHz derives.

use vstd::prelude::*;

verus! {

/// Frequency of the board's crystal, in hertz.
pub const HSE_FREQ: u32 = 8_000_000;

/// Frequency that the USB peripheral needs, in hertz.
pub const USB_FREQ: u32 = 48_000_000;

/// How the external clock is supplied.
#[derive(Clone, Copy, Debug, PartialEq, Eq, Structural)]
pub enum HseMode {
    /// A crystal across the oscillator pins.
    Oscillator,
    /// A clock signal fed into the input pin.
    Bypass,
}

/// What drives the phase-locked loop.
#[derive(Clone, Copy, Debug, PartialEq, Eq, Structural)]
pub enum PllSource {
    /// The internal oscillator.
    Hsi,
    /// The external clock.
    Hse,
}

/// What drives the system clock.
#[derive(Clone, Copy, Debug, PartialEq, Eq, Structural)]
pub enum Sysclk {
    /// The internal oscillator.
    Hsi,
    /// The external clock.
    Hse,
    /// The output of the phase-locked loop.
    Pll,
}

/// The external clock.
#[derive(Clone, Copy, Debug, PartialEq, Eq, Structural)]
pub struct Hse {
    pub freq: u32,
    pub mode: HseMode,
}

/// The phase-locked loop: its input is divided by `prediv`, then
/// multiplied by `mul`.
#[derive(Clone, Copy, Debug, PartialEq, Eq, Structural)]
pub struct Pll {
    pub src: PllSource,
    pub prediv: u8,
    pub mul: u8,
}

/// The clock tree.
#[derive(Clone, Copy, Debug, PartialEq, Eq, Structural)]
pub struct ClockConfig {
    pub hse: Option<Hse>,
    pub pll: Option<Pll>,
    pub sys: Sysclk,
    /// Divider from the system clock to the AHB bus.
    pub ahb_pre: u16,
    /// Divider from the AHB bus to the slow peripheral bus.
    pub apb1_pre: u8,
    /// Divider from the AHB bus to the fast peripheral bus.
    pub apb2_pre: u8,
}

impl ClockConfig {
    /// The clock tree after reset: everything runs from the internal
    /// oscillator, undivided.
    pub open spec fn at_reset() -> ClockConfig {
        ClockConfig { hse: None, pll: None, sys: Sysclk::Hsi, ahb_pre: 1, apb1_pre: 1, apb2_pre: 1 }
    }

    /// The clock tree for USB on a board with a crystal.
    pub open spec fn for_usb() -> ClockConfig {
        ClockConfig {
            hse: Some(Hse { freq: HSE_FREQ, mode: HseMode::Oscillator }),
            pll: Some(Pll { src: PllSource::Hse, prediv: 1, mul: 9 }),
            sys: Sysclk::Pll,
            ahb_pre: 1,
            apb1_pre: 2,
            apb2_pre: 1,
        }
    }

    /// Frequency of the system clock, in hertz, where the tree runs from
    /// the external clock through the phase-locked loop.
    pub open spec fn pll_hz(self) -> int {
        match (self.hse, self.pll) {
            (Some(hse), Some(pll)) => if pll.prediv > 0 {
                hse.freq as int / pll.prediv as int * pll.mul as int
            } else {
                0
            },
            _ => 0,
        }
    }

    /// The clock tree after reset.
    pub fn new() -> (c: ClockConfig)
        ensures
            c == Self::at_reset(),
    {
        ClockConfig { hse: None, pll: None, sys: Sysclk::Hsi, ahb_pre: 1, apb1_pre: 1, apb2_pre: 1 }
    }
}

/// Sets the clock tree up for USB: the crystal drives the phase-locked
/// loop, which multiplies it by nine to the system clock; the slow
/// peripheral bus runs at half of that. The USB clock is two thirds of the
/// system clock: 48 MHz.
pub fn enable_usb_clock(config: &mut ClockConfig)
    ensures
        *final(config) == ClockConfig::for_usb(),
        final(config).pll_hz() == 72_000_000,
        final(config).pll_hz() * 2 == USB_FREQ * 3,
        final(config).pll_hz() / (final(config).apb1_pre as int) == 36_000_000,
{
    config.hse = Some(Hse { freq: HSE_FREQ, mode: HseMode::Oscillator });
    config.pll = Some(Pll { src: PllSource::Hse, prediv: 1, mul: 9 });
    config.sys = Sysclk::Pll;
    config.ahb_pre = 1;
    config.apb1_pre = 2;
    config.apb2_pre = 1;
}

} // verus!
