//! The stepper board: a direction pin and a pulse train of a requested
//! number of steps, one pulse per tick of a fixed-rate ticker.
//!
//! The pulse train is a small state machine. The caller starts it, then at
//! every tick asks it what to do next and does that.

use vstd::prelude::*;
use crate::error::InvalidArgument;

verus! {

/// Rate, in hertz, at which pulses are sent.
pub const STEPPER_FREQ: u32 = 500;

/// Level of the direction pin.
#[derive(Clone, Copy, Debug, PartialEq, Eq, Structural)]
pub enum Level {
    Low,
    High,
}

/// What the caller is to do to the step channel.
#[derive(Clone, Copy, Debug, PartialEq, Eq, Structural)]
pub enum StepperAction {
    /// Set the channel's duty cycle and switch it on.
    Start { duty_cycle: u16 },
    /// Send one pulse of the given duty cycle, then wait for the next tick.
    Pulse { duty_cycle: u16 },
    /// The train is complete: switch the channel off and answer the request.
    Finish,
    /// No train is running: nothing to do.
    Idle,
}

/// State shared by the stepper handlers.
#[derive(Clone, Copy, Debug, PartialEq, Eq, Structural)]
pub struct Context {
    /// Level the direction pin is at.
    pub dir: Level,
    /// Whether a pulse train is running.
    pub running: bool,
    /// Pulses of the running train that are still to be sent.
    pub remaining: u32,
    /// Duty cycle of each pulse of the running train.
    pub pulse_duty: u16,
    /// Whether the step channel is switched on.
    pub enabled: bool,
}

/// The level that a direction request asks for, if it is one.
pub open spec fn direction_level(rqst: u8) -> Option<Level> {
    if rqst == 0 {
        Some(Level::Low)
    } else if rqst == 1 {
        Some(Level::High)
    } else {
        None
    }
}

impl Context {
    /// The state at boot: direction low, no train running, channel off.
    pub open spec fn at_boot() -> Context {
        Context { dir: Level::Low, running: false, remaining: 0, pulse_duty: 0, enabled: false }
    }

    /// The state at boot.
    pub fn new() -> (c: Context)
        ensures
            c == Self::at_boot(),
    {
        Context { dir: Level::Low, running: false, remaining: 0, pulse_duty: 0, enabled: false }
    }

    /// The state after `n` ticks of a running train, `n` at most the pulses
    /// that remain.
    pub open spec fn after_pulses(self, n: int) -> Context {
        Context { remaining: (self.remaining - n) as u32, ..self }
    }

    /// The state after the train has finished.
    pub open spec fn finished(self) -> Context {
        Context { running: false, remaining: 0, enabled: false, ..self }
    }
}

/// The state after a tick, and what the tick asks for.
pub open spec fn spec_tick(c: Context) -> (Context, StepperAction) {
    if !c.running {
        (c, StepperAction::Idle)
    } else if c.remaining > 0 {
        (c.after_pulses(1), StepperAction::Pulse { duty_cycle: c.pulse_duty })
    } else {
        (c.finished(), StepperAction::Finish)
    }
}

/// The state after `n` ticks.
pub open spec fn after_ticks(c: Context, n: nat) -> Context
    decreases n,
{
    if n == 0 {
        c
    } else {
        spec_tick(after_ticks(c, (n - 1) as nat)).0
    }
}

/// Sets the direction pin: 0 for low, 1 for high. Anything else is turned
/// down and changes nothing. Returns the level to set the pin to.
pub fn set_direction_handler(context: &mut Context, rqst: u8) -> (r: Result<Level, InvalidArgument>)
    ensures
        match r {
            Ok(level) => direction_level(rqst) == Some(level) && *final(context) == (Context {
                dir: level,
                ..*old(context)
            }),
            Err(e) => direction_level(rqst) is None && e == InvalidArgument::Direction(rqst)
                && *final(context) == *old(context),
        },
{
    if rqst == 0 {
        context.dir = Level::Low;
        Ok(Level::Low)
    } else if rqst == 1 {
        context.dir = Level::High;
        Ok(Level::High)
    } else {
        Err(InvalidArgument::Direction(rqst))
    }
}

/// Starts a train of `rqst` pulses on a timer whose full duty cycle is
/// `max_duty_cycle`. The channel is set to a quarter of the full duty cycle
/// and switched on; each pulse is half of it. While a train is running a
/// second one is not started: `None` is returned and nothing changes.
pub fn set_stepper_handler(context: &mut Context, rqst: u32, max_duty_cycle: u16) -> (action: Option<
    StepperAction,
>)
    ensures
        old(context).running ==> action is None && *final(context) == *old(context),
        !old(context).running ==> action == Some(
            StepperAction::Start { duty_cycle: (max_duty_cycle / 4) as u16 },
        ) && *final(context) == (Context {
            running: true,
            remaining: rqst,
            pulse_duty: (max_duty_cycle / 2) as u16,
            enabled: true,
            ..*old(context)
        }),
{
    if context.running {
        return None;
    }
    let max_duty: u16 = max_duty_cycle / 2;
    context.running = true;
    context.remaining = rqst;
    context.pulse_duty = max_duty;
    context.enabled = true;
    Some(StepperAction::Start { duty_cycle: max_duty / 2 })
}

/// What to do at this tick. A running train sends one pulse per tick until
/// none remains; the tick after the last pulse finishes the train and leaves
/// the channel switched off.
pub fn stepper_tick(context: &mut Context) -> (action: StepperAction)
    ensures
        (*final(context), action) == spec_tick(*old(context)),
{
    if !context.running {
        StepperAction::Idle
    } else if context.remaining > 0 {
        context.remaining = context.remaining - 1;
        StepperAction::Pulse { duty_cycle: context.pulse_duty }
    } else {
        context.running = false;
        context.enabled = false;
        StepperAction::Finish
    }
}

} // verus!
