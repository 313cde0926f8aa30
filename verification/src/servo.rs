//! Servo channel configuration as the device mirrors it, and the handlers
//! that change it.
//!
//! The handlers update the mirrored configuration and return the command
//! that the caller is to carry out on the PWM timer.

use vstd::prelude::*;
use crate::angle::{angle_duty, angle_to_duty_cycle, duty_angle, duty_cycle_to_angle};
use crate::channel::PwmChannel;
use crate::error::{InvalidArgument, MAX_ANGLE};

verus! {

/// PWM frequency, in hertz, that the board boots with.
pub const SERVO_FREQ: u32 = 50;

/// Pulse width, in microseconds, of the smallest servo angle.
pub const SERVO_MIN_US: u32 = 500;

/// Pulse width, in microseconds, of the largest servo angle.
pub const SERVO_MAX_US: u32 = 2500;

/// Configuration of one PWM channel.
#[derive(Clone, Copy, Debug, PartialEq, Eq, Structural)]
pub struct ServoChannelConfig {
    /// Duty cycle that stands for the smallest angle.
    pub min_angle_duty_cycle: u16,
    /// Duty cycle that stands for the largest angle.
    pub max_angle_duty_cycle: u16,
    /// Duty cycle the channel is set to.
    pub current_duty_cycle: u16,
    /// Whether the channel drives its pin.
    pub enabled: bool,
}

/// Configuration of the timer and its four channels.
#[derive(Clone, Copy, Debug, PartialEq, Eq)]
pub struct ServoConfig {
    /// Frequency of the PWM signal, in hertz.
    pub servo_frequency: u32,
    /// Duty cycle value that stands for 100%.
    pub max_duty_cycle: u16,
    /// The four channels, in order.
    pub channels: [ServoChannelConfig; 4],
}

/// What the caller is to do to the PWM timer.
#[derive(Clone, Copy, Debug, PartialEq, Eq, Structural)]
pub enum PwmCommand {
    /// Set the channel's duty cycle, then enable or disable it.
    Channel { channel: PwmChannel, duty_cycle: u16, enable: bool },
    /// Disable all four channels, then change the timer's frequency.
    Retune { frequency: u32 },
}

/// State shared by the servo handlers.
#[derive(Clone, Copy, Debug, PartialEq, Eq)]
pub struct Context {
    pub config: ServoConfig,
}

/// Duty cycle of a pulse of `pulse_us` microseconds at the boot frequency,
/// on a timer whose full duty cycle is `max_duty_cycle`.
pub open spec fn pulse_duty(max_duty_cycle: u16, pulse_us: u32) -> int {
    (max_duty_cycle as int) * (SERVO_FREQ as int) / 1000 * (pulse_us as int) / 1000
}

/// Why a request to set channel number `channel` to `angle` degrees is
/// turned down, if it is: the channel number is looked at first.
pub open spec fn angle_request_error(channel: u8, angle: u8) -> Option<InvalidArgument> {
    if !(1 <= channel <= 4) {
        Some(InvalidArgument::Channel(channel))
    } else if angle > MAX_ANGLE {
        Some(InvalidArgument::Angle(angle))
    } else {
        None
    }
}

/// The configuration that every channel boots with, on a timer whose full
/// duty cycle is `max_duty_cycle`: switched off at duty cycle 0, the angle
/// range set to the pulse widths `SERVO_MIN_US` to `SERVO_MAX_US`.
pub open spec fn boot_channel(max_duty_cycle: u16) -> ServoChannelConfig {
    ServoChannelConfig {
        min_angle_duty_cycle: pulse_duty(max_duty_cycle, SERVO_MIN_US) as u16,
        max_angle_duty_cycle: pulse_duty(max_duty_cycle, SERVO_MAX_US) as u16,
        current_duty_cycle: 0,
        enabled: false,
    }
}

impl ServoChannelConfig {
    /// The same channel, switched off.
    pub open spec fn disabled(self) -> ServoChannelConfig {
        ServoChannelConfig { enabled: false, ..self }
    }

    /// The same channel, switched on and moved to `angle` degrees.
    pub open spec fn at_angle(self, angle: u8) -> ServoChannelConfig {
        ServoChannelConfig {
            enabled: true,
            current_duty_cycle: angle_duty(
                angle as int,
                self.min_angle_duty_cycle as int,
                self.max_angle_duty_cycle as int,
            ) as u16,
            ..self
        }
    }

    /// The angle, in degrees, that the channel is set to.
    pub open spec fn spec_angle(self) -> int {
        duty_angle(
            self.current_duty_cycle as int,
            self.min_angle_duty_cycle as int,
            self.max_angle_duty_cycle as int,
        )
    }

    /// The angle, in degrees, that the channel is set to.
    pub fn angle(&self) -> (a: u8)
        ensures
            a == self.spec_angle(),
            a <= MAX_ANGLE,
    {
        duty_cycle_to_angle(
            self.current_duty_cycle,
            self.min_angle_duty_cycle,
            self.max_angle_duty_cycle,
        )
    }

    /// The same channel, switched on and moved to `angle` degrees.
    pub fn with_angle(&self, angle: u8) -> (c: ServoChannelConfig)
        ensures
            c == self.at_angle(angle),
    {
        ServoChannelConfig {
            min_angle_duty_cycle: self.min_angle_duty_cycle,
            max_angle_duty_cycle: self.max_angle_duty_cycle,
            current_duty_cycle: angle_to_duty_cycle(
                angle,
                self.min_angle_duty_cycle,
                self.max_angle_duty_cycle,
            ),
            enabled: true,
        }
    }
}

impl ServoConfig {
    /// Whether this is the configuration that a timer boots with, where its
    /// full duty cycle is `max_duty_cycle`: the boot frequency, and every
    /// channel as `boot_channel` says.
    pub open spec fn is_boot(self, max_duty_cycle: u16) -> bool {
        &&& self.servo_frequency == SERVO_FREQ
        &&& self.max_duty_cycle == max_duty_cycle
        &&& forall|i: int| 0 <= i < 4 ==> #[trigger] self.channels@[i] == boot_channel(max_duty_cycle)
    }

    /// The configuration that a timer boots with.
    pub fn boot(max_duty_cycle: u16) -> (c: ServoConfig)
        ensures
            c.is_boot(max_duty_cycle),
            pulse_duty(max_duty_cycle, SERVO_MIN_US) <= pulse_duty(max_duty_cycle, SERVO_MAX_US)
                <= u16::MAX,
    {
        let base: u32 = (max_duty_cycle as u32) * SERVO_FREQ / 1_000;
        let servo_min: u32 = base * SERVO_MIN_US / 1_000;
        let servo_max: u32 = base * SERVO_MAX_US / 1_000;
        let channel = ServoChannelConfig {
            min_angle_duty_cycle: servo_min as u16,
            max_angle_duty_cycle: servo_max as u16,
            current_duty_cycle: 0,
            enabled: false,
        };
        ServoConfig {
            servo_frequency: SERVO_FREQ,
            max_duty_cycle,
            channels: [channel, channel, channel, channel],
        }
    }

    /// The configuration of one channel.
    pub fn channel(&self, channel: PwmChannel) -> (c: ServoChannelConfig)
        ensures
            c == self.channels@[channel.spec_index()],
    {
        self.channels[channel.index()]
    }
}

/// Takes `rqst.1` as the new configuration of channel `rqst.0`. The command
/// returned sets the channel's duty cycle and switches it as configured.
pub fn configure_channel_handler(context: &mut Context, rqst: (PwmChannel, ServoChannelConfig)) -> (command:
    PwmCommand)
    ensures
        final(context).config.channels@ == old(context).config.channels@.update(
            rqst.0.spec_index(),
            rqst.1,
        ),
        final(context).config.servo_frequency == old(context).config.servo_frequency,
        final(context).config.max_duty_cycle == old(context).config.max_duty_cycle,
        command == (PwmCommand::Channel {
            channel: rqst.0,
            duty_cycle: rqst.1.current_duty_cycle,
            enable: rqst.1.enabled,
        }),
{
    let (channel, config) = rqst;
    context.config.channels[channel.index()] = config;
    PwmCommand::Channel { channel, duty_cycle: config.current_duty_cycle, enable: config.enabled }
}

/// The configuration as the device mirrors it.
pub fn get_servo_config_handler(context: &Context) -> (config: ServoConfig)
    ensures
        config == context.config,
{
    context.config
}

/// Moves channel number `rqst.0` (1 to 4) to `rqst.1` degrees (0 to 180) and
/// switches it on. A request outside these ranges is turned down and
/// changes nothing.
pub fn set_angle_handler(context: &mut Context, rqst: (u8, u8)) -> (r: Result<
    PwmCommand,
    InvalidArgument,
>)
    ensures
        match r {
            Ok(command) => {
                &&& angle_request_error(rqst.0, rqst.1) is None
                &&& PwmChannel::from_number(rqst.0 as int) matches Some(channel)
                &&& final(context).config.channels@ == old(context).config.channels@.update(
                    channel.spec_index(),
                    old(context).config.channels@[channel.spec_index()].at_angle(rqst.1),
                )
                &&& final(context).config.servo_frequency == old(context).config.servo_frequency
                &&& final(context).config.max_duty_cycle == old(context).config.max_duty_cycle
                &&& command == (PwmCommand::Channel {
                    channel,
                    duty_cycle: final(context).config.channels@[channel.spec_index()].current_duty_cycle,
                    enable: true,
                })
            },
            Err(e) => angle_request_error(rqst.0, rqst.1) == Some(e) && *final(context) == *old(
                context,
            ),
        },
{
    let (number, angle) = rqst;
    match PwmChannel::try_from(number) {
        Err(n) => Err(InvalidArgument::Channel(n)),
        Ok(channel) => {
            if angle > MAX_ANGLE {
                return Err(InvalidArgument::Angle(angle));
            }
            let config = context.config.channel(channel).with_angle(angle);
            Ok(configure_channel_handler(context, (channel, config)))
        },
    }
}

/// The angle, in degrees, that channel number `rqst` (1 to 4) is set to.
pub fn get_angle_handler(context: &Context, rqst: u8) -> (r: Result<u8, InvalidArgument>)
    ensures
        match r {
            Ok(angle) => PwmChannel::from_number(rqst as int) matches Some(channel)
                && angle == context.config.channels@[channel.spec_index()].spec_angle(),
            Err(e) => !(1 <= rqst <= 4) && e == InvalidArgument::Channel(rqst),
        },
{
    match PwmChannel::try_from(rqst) {
        Err(n) => Err(InvalidArgument::Channel(n)),
        Ok(channel) => Ok(context.config.channel(channel).angle()),
    }
}

/// Changes the timer's frequency. The duty cycle scale changes with it, so
/// every channel is switched off, in the command returned and in the
/// mirrored configuration; nothing else in the configuration changes.
pub fn set_frequency_handler(context: &mut Context, rqst: u32) -> (command: PwmCommand)
    ensures
        forall|i: int|
            0 <= i < 4 ==> #[trigger] final(context).config.channels@[i] == old(
                context,
            ).config.channels@[i].disabled(),
        forall|i: int| 0 <= i < 4 ==> !(#[trigger] final(context).config.channels@[i]).enabled,
        final(context).config.servo_frequency == old(context).config.servo_frequency,
        final(context).config.max_duty_cycle == old(context).config.max_duty_cycle,
        command == (PwmCommand::Retune { frequency: rqst }),
{
    let mut i: usize = 0;
    while i < 4
        invariant
            i <= 4,
            context.config.servo_frequency == old(context).config.servo_frequency,
            context.config.max_duty_cycle == old(context).config.max_duty_cycle,
            forall|j: int|
                0 <= j < i ==> #[trigger] context.config.channels@[j] == old(
                    context,
                ).config.channels@[j].disabled(),
            forall|j: int|
                i <= j < 4 ==> #[trigger] context.config.channels@[j] == old(
                    context,
                ).config.channels@[j],
        decreases 4 - i,
    {
        context.config.channels[i].enabled = false;
        i += 1;
    }
    PwmCommand::Retune { frequency: rqst }
}

} // verus!
