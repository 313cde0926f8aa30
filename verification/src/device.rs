//! The peripheral context of the whole board and the typed step that one
//! request takes on it.
//!
//! The step reads no peripheral and drives none: the caller hands in the
//! readings it may need and carries out the effect that comes back.

use vstd::prelude::*;
use crate::channel::PwmChannel;
use crate::error::{InvalidArgument, MAX_DUTY};
use crate::heater;
use crate::heater::HeaterCommand;
use crate::log::LogStream;
use crate::message::{Request, Response, WireError};
use crate::pid::{duty_for, DutyCommand, Pidvals};
use crate::servo;
use crate::servo::{angle_request_error, PwmCommand, ServoChannelConfig};
use crate::stepper;
use crate::stepper::{direction_level, Level, StepperAction};

verus! {

/// All state that handlers share. There is one per board; it is made at
/// boot and lives as long as the board runs.
#[derive(Clone, Copy, Debug, PartialEq, Eq)]
pub struct State {
    pub heater: heater::Context,
    pub servo: servo::Context,
    pub stepper: stepper::Context,
    pub log: LogStream,
}

/// Readings of the peripherals, taken by the caller before a request is served.
#[derive(Clone, Copy, Debug, PartialEq, Eq)]
pub struct Inputs {
    /// Ticks of the monotonic clock.
    pub now: u64,
    /// One conversion of the ADC.
    pub adc_val: u16,
    /// Full duty cycle of the step timer.
    pub max_duty_cycle: u16,
    /// The board's unique identifier.
    pub unique_id: [u8; 12],
}

/// What the caller is to do to the peripherals after a request was served.
#[derive(Clone, Copy, Debug, PartialEq, Eq, Structural)]
pub enum Effect {
    Nothing,
    Heater(HeaterCommand),
    Pwm(PwmCommand),
    Direction(Level),
    Stepper(StepperAction),
}

/// What goes back to the sender of a request.
#[derive(Clone, Copy, Debug, PartialEq, Eq)]
pub enum Reply {
    /// The endpoint's response.
    Response(Response),
    /// An error in place of the response.
    Error(WireError),
    /// Nothing yet: the response follows when the endpoint's task is done.
    Deferred,
}

/// Twice `value`, wrapped to 32 bits.
pub open spec fn doubled(value: u32) -> u32 {
    ((value as nat * 2nat) % 0x1_0000_0000nat) as u32
}

impl State {
    /// Whether everything but the heater's context is the same in `post`.
    pub open spec fn only_heater_differs(self, post: State) -> bool {
        post.servo == self.servo && post.stepper == self.stepper && post.log == self.log
    }

    /// Whether `post` differs from `self` in nothing but the configuration
    /// of servo channel `index`, which is `config`.
    pub open spec fn channel_replaced(self, post: State, index: int, config: ServoChannelConfig) -> bool {
        &&& post.heater == self.heater
        &&& post.stepper == self.stepper
        &&& post.log == self.log
        &&& post.servo.config.servo_frequency == self.servo.config.servo_frequency
        &&& post.servo.config.max_duty_cycle == self.servo.config.max_duty_cycle
        &&& post.servo.config.channels@ == self.servo.config.channels@.update(index, config)
    }

    /// Whether `post` differs from `self` in nothing but that every servo
    /// channel is switched off.
    pub open spec fn channels_disabled(self, post: State) -> bool {
        &&& post.heater == self.heater
        &&& post.stepper == self.stepper
        &&& post.log == self.log
        &&& post.servo.config.servo_frequency == self.servo.config.servo_frequency
        &&& post.servo.config.max_duty_cycle == self.servo.config.max_duty_cycle
        &&& forall|i: int|
            0 <= i < 4 ==> #[trigger] post.servo.config.channels@[i]
                == self.servo.config.channels@[i].disabled()
    }

    /// Whether serving `request` with the readings `inputs` in state `self`
    /// leaves the state `post`, answers `reply` and asks for `effect`.
    pub open spec fn steps_to(
        self,
        request: Request,
        inputs: Inputs,
        post: State,
        reply: Reply,
        effect: Effect,
    ) -> bool {
        match request {
            Request::UniqueId => {
                &&& post == self
                &&& reply == Reply::Response(Response::UniqueId(inputs.unique_id))
                &&& effect == Effect::Nothing
            },
            Request::AdcGet => {
                &&& post == self
                &&& reply == Reply::Response(Response::Adc(inputs.adc_val))
                &&& effect == Effect::Nothing
            },
            Request::HeaterSetPwm(duty) => if duty <= MAX_DUTY {
                let set = DutyCommand::Fraction { num: duty, denom: MAX_DUTY };
                &&& self.only_heater_differs(post)
                &&& post.heater == (heater::Context { heater_duty: set, ..self.heater })
                &&& reply == Reply::Response(Response::Unit)
                &&& effect == Effect::Heater(HeaterCommand::SetDuty(set))
            } else {
                &&& post == self
                &&& reply == Reply::Error(WireError::Invalid(InvalidArgument::Duty(duty)))
                &&& effect == Effect::Nothing
            },
            Request::PidGet => {
                &&& post == self
                &&& reply == Reply::Response(Response::Pidvals(self.heater.pidvals))
                &&& effect == Effect::Nothing
            },
            Request::HeaterEnable => {
                &&& self.only_heater_differs(post)
                &&& post.heater == (heater::Context { heater_enabled: true, ..self.heater })
                &&& reply == Reply::Response(Response::Unit)
                &&& effect == Effect::Heater(HeaterCommand::Enable)
            },
            Request::HeaterDisable => {
                &&& self.only_heater_differs(post)
                &&& post.heater == (heater::Context { heater_enabled: false, ..self.heater })
                &&& reply == Reply::Response(Response::Unit)
                &&& effect == Effect::Heater(HeaterCommand::Disable)
            },
            Request::PidSetConsts(kp, ki) => {
                &&& self.only_heater_differs(post)
                &&& post.heater == (heater::Context {
                    pidvals: Pidvals { kp, ki, ..self.heater.pidvals },
                    ..self.heater
                })
                &&& reply == Reply::Response(Response::Unit)
                &&& effect == Effect::Nothing
            },
            Request::PidReset => {
                &&& self.only_heater_differs(post)
                &&& post.heater == (heater::Context {
                    pidvals: self.heater.pidvals.spec_reset(inputs.now),
                    ..self.heater
                })
                &&& reply == Reply::Response(Response::Unit)
                &&& effect == Effect::Nothing
            },
            Request::PidRecalc => {
                let pidvals = self.heater.pidvals.spec_recompute(inputs.adc_val, inputs.now);
                let duty = duty_for(pidvals.err_corr as int);
                &&& self.only_heater_differs(post)
                &&& post.heater == (heater::Context { pidvals, heater_duty: duty, ..self.heater })
                &&& reply == Reply::Response(Response::Unit)
                &&& effect == Effect::Heater(HeaterCommand::SetDuty(duty))
            },
            Request::PidSetpoint(setpoint) => {
                &&& self.only_heater_differs(post)
                &&& post.heater == (heater::Context {
                    pidvals: Pidvals { setpoint, ..self.heater.pidvals },
                    ..self.heater
                })
                &&& reply == Reply::Response(Response::Unit)
                &&& effect == Effect::Nothing
            },
            Request::ServoSetAngle(number, angle) => match angle_request_error(number, angle) {
                Some(e) => {
                    &&& post == self
                    &&& reply == Reply::Error(WireError::Invalid(e))
                    &&& effect == Effect::Nothing
                },
                None => {
                    let channel = PwmChannel::from_number(number as int)->0;
                    let config = self.servo.config.channels@[channel.spec_index()].at_angle(angle);
                    &&& self.channel_replaced(post, channel.spec_index(), config)
                    &&& reply == Reply::Response(Response::Unit)
                    &&& effect == Effect::Pwm(
                        PwmCommand::Channel {
                            channel,
                            duty_cycle: config.current_duty_cycle,
                            enable: true,
                        },
                    )
                },
            },
            Request::ServoGetAngle(number) => {
                &&& post == self
                &&& effect == Effect::Nothing
                &&& match PwmChannel::from_number(number as int) {
                    Some(channel) => reply == Reply::Response(
                        Response::Angle(
                            self.servo.config.channels@[channel.spec_index()].spec_angle() as u8,
                        ),
                    ),
                    None => reply == Reply::Error(
                        WireError::Invalid(InvalidArgument::Channel(number)),
                    ),
                }
            },
            Request::ServoChannel(channel, config) => {
                &&& self.channel_replaced(post, channel.spec_index(), config)
                &&& reply == Reply::Response(Response::Unit)
                &&& effect == Effect::Pwm(
                    PwmCommand::Channel {
                        channel,
                        duty_cycle: config.current_duty_cycle,
                        enable: config.enabled,
                    },
                )
            },
            Request::ServoConfig => {
                &&& post == self
                &&& reply == Reply::Response(Response::ServoConfig(self.servo.config))
                &&& effect == Effect::Nothing
            },
            Request::ServoFrequency(frequency) => {
                &&& self.channels_disabled(post)
                &&& reply == Reply::Response(Response::Unit)
                &&& effect == Effect::Pwm(PwmCommand::Retune { frequency })
            },
            Request::StepperSet(steps) => if self.stepper.running {
                &&& post == self
                &&& reply == Reply::Error(WireError::Busy)
                &&& effect == Effect::Nothing
            } else {
                &&& post == (State {
                    stepper: stepper::Context {
                        running: true,
                        remaining: steps,
                        pulse_duty: (inputs.max_duty_cycle / 2) as u16,
                        enabled: true,
                        ..self.stepper
                    },
                    ..self
                })
                &&& reply == Reply::Deferred
                &&& effect == Effect::Stepper(
                    StepperAction::Start { duty_cycle: (inputs.max_duty_cycle / 4) as u16 },
                )
            },
            Request::StepperDirection(direction) => match direction_level(direction) {
                Some(level) => {
                    &&& post == (State {
                        stepper: stepper::Context { dir: level, ..self.stepper },
                        ..self
                    })
                    &&& reply == Reply::Response(Response::Unit)
                    &&& effect == Effect::Direction(level)
                },
                None => {
                    &&& post == self
                    &&& reply == Reply::Error(
                        WireError::Invalid(InvalidArgument::Direction(direction)),
                    )
                    &&& effect == Effect::Nothing
                },
            },
            Request::DefmtStart => {
                &&& post == (State {
                    log: if self.log.active {
                        self.log
                    } else {
                        LogStream { active: true, stop_requested: false, ..self.log }
                    },
                    ..self
                })
                &&& reply == Reply::Response(Response::Unit)
                &&& effect == Effect::Nothing
            },
            Request::DefmtStop => {
                &&& post == (State {
                    log: if self.log.active {
                        LogStream { stop_requested: true, ..self.log }
                    } else {
                        self.log
                    },
                    ..self
                })
                &&& reply == Reply::Response(Response::Stopped(self.log.active))
                &&& effect == Effect::Nothing
            },
            Request::PingX2(value) => {
                &&& post == self
                &&& reply == Reply::Response(Response::Pong(doubled(value)))
                &&& effect == Effect::Nothing
            },
        }
    }

    /// Whether this is the state at boot, at clock `now`, on a servo timer
    /// whose full duty cycle is `max_duty_cycle`.
    pub open spec fn is_boot(self, now: u64, max_duty_cycle: u16) -> bool {
        &&& self.heater == heater::Context::at_boot(now)
        &&& self.servo.config.is_boot(max_duty_cycle)
        &&& self.stepper == stepper::Context::at_boot()
        &&& self.log == LogStream::at_boot()
    }

    /// The state at boot.
    pub fn new(now: u64, max_duty_cycle: u16) -> (s: State)
        ensures
            s.is_boot(now, max_duty_cycle),
    {
        State {
            heater: heater::Context::new(now),
            servo: servo::Context { config: servo::ServoConfig::boot(max_duty_cycle) },
            stepper: stepper::Context::new(),
            log: LogStream::new(),
        }
    }

    /// Serves one request: runs its handler on the state and returns the
    /// reply and what the caller is to do to the peripherals.
    pub fn handle(&mut self, request: Request, inputs: &Inputs) -> (out: (Reply, Effect))
        ensures
            old(self).steps_to(request, *inputs, *final(self), out.0, out.1),
    {
        let unit = Reply::Response(Response::Unit);
        match request {
            Request::UniqueId => (Reply::Response(Response::UniqueId(inputs.unique_id)), Effect::Nothing),
            Request::AdcGet => (Reply::Response(Response::Adc(inputs.adc_val)), Effect::Nothing),
            Request::HeaterSetPwm(duty) => match heater::set_pwm_duty(&mut self.heater, duty) {
                Ok(command) => (unit, Effect::Heater(command)),
                Err(e) => (Reply::Error(WireError::Invalid(e)), Effect::Nothing),
            },
            Request::PidGet => (
                Reply::Response(Response::Pidvals(heater::get_pidvals(&self.heater))),
                Effect::Nothing,
            ),
            Request::HeaterEnable => (unit, Effect::Heater(heater::heater_enable(&mut self.heater))),
            Request::HeaterDisable => (
                unit,
                Effect::Heater(heater::heater_disable(&mut self.heater)),
            ),
            Request::PidSetConsts(kp, ki) => {
                heater::pid_set_const(&mut self.heater, [kp, ki]);
                (unit, Effect::Nothing)
            },
            Request::PidReset => {
                heater::pid_reset(&mut self.heater, inputs.now);
                (unit, Effect::Nothing)
            },
            Request::PidRecalc => {
                let command = heater::recalc_pi(&mut self.heater, inputs.adc_val, inputs.now);
                (unit, Effect::Heater(command))
            },
            Request::PidSetpoint(setpoint) => {
                heater::set_setpoint(&mut self.heater, setpoint);
                (unit, Effect::Nothing)
            },
            Request::ServoSetAngle(number, angle) => match servo::set_angle_handler(
                &mut self.servo,
                (number, angle),
            ) {
                Ok(command) => (unit, Effect::Pwm(command)),
                Err(e) => (Reply::Error(WireError::Invalid(e)), Effect::Nothing),
            },
            Request::ServoGetAngle(number) => match servo::get_angle_handler(&self.servo, number) {
                Ok(angle) => (Reply::Response(Response::Angle(angle)), Effect::Nothing),
                Err(e) => (Reply::Error(WireError::Invalid(e)), Effect::Nothing),
            },
            Request::ServoChannel(channel, config) => {
                let command = servo::configure_channel_handler(&mut self.servo, (channel, config));
                (unit, Effect::Pwm(command))
            },
            Request::ServoConfig => (
                Reply::Response(Response::ServoConfig(servo::get_servo_config_handler(&self.servo))),
                Effect::Nothing,
            ),
            Request::ServoFrequency(frequency) => {
                let command = servo::set_frequency_handler(&mut self.servo, frequency);
                (unit, Effect::Pwm(command))
            },
            Request::StepperSet(steps) => match stepper::set_stepper_handler(
                &mut self.stepper,
                steps,
                inputs.max_duty_cycle,
            ) {
                Some(action) => (Reply::Deferred, Effect::Stepper(action)),
                None => (Reply::Error(WireError::Busy), Effect::Nothing),
            },
            Request::StepperDirection(direction) => match stepper::set_direction_handler(
                &mut self.stepper,
                direction,
            ) {
                Ok(level) => (unit, Effect::Direction(level)),
                Err(e) => (Reply::Error(WireError::Invalid(e)), Effect::Nothing),
            },
            Request::DefmtStart => {
                self.log.start();
                (unit, Effect::Nothing)
            },
            Request::DefmtStop => {
                let was_active = self.log.stop();
                (Reply::Response(Response::Stopped(was_active)), Effect::Nothing)
            },
            Request::PingX2(value) => (
                Reply::Response(Response::Pong(value.wrapping_mul(2))),
                Effect::Nothing,
            ),
        }
    }
}

} // verus!
