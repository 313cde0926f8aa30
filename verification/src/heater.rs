//! The heater board: a PWM-driven heater under proportional-integral control.
//!
//! Each handler updates the context and returns what the caller is to do to
//! the heater's PWM channel. Readings of the ADC and of the clock are taken
//! by the caller and handed in.

use vstd::prelude::*;
use crate::error::{InvalidArgument, MAX_DUTY};
use crate::pid::{duty_for, DutyCommand, Pidvals};

verus! {

/// What the caller is to do to the heater's PWM channel.
#[derive(Clone, Copy, Debug, PartialEq, Eq, Structural)]
pub enum HeaterCommand {
    /// Set the duty cycle.
    SetDuty(DutyCommand),
    /// Let the channel drive its pin.
    Enable,
    /// Stop the channel from driving its pin.
    Disable,
}

/// State shared by the heater handlers.
#[derive(Clone, Copy, Debug, PartialEq, Eq, Structural)]
pub struct Context {
    /// The controller.
    pub pidvals: Pidvals,
    /// Whether the heater's channel drives its pin.
    pub heater_enabled: bool,
    /// The duty cycle last set.
    pub heater_duty: DutyCommand,
}

impl Context {
    /// The state at boot: a controller at rest, the heater off at duty cycle zero.
    pub open spec fn at_boot(now: u64) -> Context {
        Context {
            pidvals: Pidvals::at_rest(now),
            heater_enabled: false,
            heater_duty: DutyCommand::Zero,
        }
    }

    /// The state at boot, at clock `now`.
    pub fn new(now: u64) -> (c: Context)
        ensures
            c == Self::at_boot(now),
    {
        Context { pidvals: Pidvals::new(now), heater_enabled: false, heater_duty: DutyCommand::Zero }
    }
}

/// Sets the heater's duty to `rqst` parts per thousand. More than a thousand
/// is turned down and changes nothing. The controller is not touched.
pub fn set_pwm_duty(context: &mut Context, rqst: u16) -> (r: Result<HeaterCommand, InvalidArgument>)
    ensures
        final(context).pidvals == old(context).pidvals,
        final(context).heater_enabled == old(context).heater_enabled,
        match r {
            Ok(command) => {
                &&& rqst <= MAX_DUTY
                &&& command == HeaterCommand::SetDuty(
                    DutyCommand::Fraction { num: rqst, denom: MAX_DUTY },
                )
                &&& final(context).heater_duty == (DutyCommand::Fraction {
                    num: rqst,
                    denom: MAX_DUTY,
                })
            },
            Err(e) => {
                &&& rqst > MAX_DUTY
                &&& e == InvalidArgument::Duty(rqst)
                &&& final(context).heater_duty == old(context).heater_duty
            },
        },
{
    if rqst > MAX_DUTY {
        return Err(InvalidArgument::Duty(rqst));
    }
    let duty = DutyCommand::Fraction { num: rqst, denom: MAX_DUTY };
    context.heater_duty = duty;
    Ok(HeaterCommand::SetDuty(duty))
}

/// Empties the integral accumulator and restarts the controller's clock at `now`.
pub fn pid_reset(context: &mut Context, now: u64)
    ensures
        final(context).pidvals == old(context).pidvals.spec_reset(now),
        final(context).heater_enabled == old(context).heater_enabled,
        final(context).heater_duty == old(context).heater_duty,
{
    context.pidvals.reset(now);
}

/// Sets the gains: `rqst[0]` is the proportional gain, `rqst[1]` the
/// integral gain, both in thousandths.
pub fn pid_set_const(context: &mut Context, rqst: [i32; 2])
    ensures
        final(context).pidvals == (Pidvals { kp: rqst@[0], ki: rqst@[1], ..old(context).pidvals }),
        final(context).heater_enabled == old(context).heater_enabled,
        final(context).heater_duty == old(context).heater_duty,
{
    context.pidvals.set_consts(rqst[0], rqst[1]);
}

/// Switches the heater's channel on.
pub fn heater_enable(context: &mut Context) -> (command: HeaterCommand)
    ensures
        command == HeaterCommand::Enable,
        *final(context) == (Context { heater_enabled: true, ..*old(context) }),
{
    context.heater_enabled = true;
    HeaterCommand::Enable
}

/// Switches the heater's channel off.
pub fn heater_disable(context: &mut Context) -> (command: HeaterCommand)
    ensures
        command == HeaterCommand::Disable,
        *final(context) == (Context { heater_enabled: false, ..*old(context) }),
{
    context.heater_enabled = false;
    HeaterCommand::Disable
}

/// One control step with the ADC reading `reading` taken at clock `now`. The
/// command returned sets the heater's duty cycle to what the new correction
/// asks for.
pub fn recalc_pi(context: &mut Context, reading: u16, now: u64) -> (command: HeaterCommand)
    ensures
        final(context).pidvals == old(context).pidvals.spec_recompute(reading, now),
        final(context).heater_enabled == old(context).heater_enabled,
        final(context).heater_duty == duty_for(final(context).pidvals.err_corr as int),
        command == HeaterCommand::SetDuty(final(context).heater_duty),
{
    let duty = context.pidvals.recompute(reading, now);
    context.heater_duty = duty;
    HeaterCommand::SetDuty(duty)
}

/// The controller's state.
pub fn get_pidvals(context: &Context) -> (p: Pidvals)
    ensures
        p == context.pidvals,
{
    context.pidvals
}

/// Sets the reading that the controller steers towards.
pub fn set_setpoint(context: &mut Context, rqst: u16)
    ensures
        final(context).pidvals == (Pidvals { setpoint: rqst, ..old(context).pidvals }),
        final(context).heater_enabled == old(context).heater_enabled,
        final(context).heater_duty == old(context).heater_duty,
{
    context.pidvals.set_setpoint(rqst);
}

} // verus!
