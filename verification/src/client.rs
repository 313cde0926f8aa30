//! Host-side rules of the servo client: what it checks and how it keeps
//! its copy of the board's configuration before a request goes out.
//!
//! The connection itself is the caller's. Each operation returns the
//! request that the caller is to send.

use vstd::prelude::*;
use crate::angle::{
    angle_duty,
    angle_to_duty_cycle,
    duty_angle,
    duty_cycle_to_angle,
    pulse_to_duty_cycle,
    pulse_width_duty,
};
use crate::channel::PwmChannel;
use crate::error::{BoardError, InvalidArgument, MAX_ANGLE};
use crate::servo::{angle_request_error, ServoChannelConfig, ServoConfig};

verus! {

/// A client's view of one servo board.
#[derive(Clone, Copy, Debug, PartialEq, Eq)]
pub struct ServoClient {
    /// The board's configuration as last fetched or sent.
    pub config: ServoConfig,
}

/// `current` unless `requested` holds a value to replace it.
pub open spec fn or_current<T>(requested: Option<T>, current: T) -> T {
    match requested {
        Some(v) => v,
        None => current,
    }
}

/// A channel configuration with the requested fields replaced.
pub open spec fn merged(
    current: ServoChannelConfig,
    enabled: Option<bool>,
    current_duty_cycle: Option<u16>,
    min_angle_duty_cycle: Option<u16>,
    max_angle_duty_cycle: Option<u16>,
) -> ServoChannelConfig {
    ServoChannelConfig {
        enabled: or_current(enabled, current.enabled),
        current_duty_cycle: or_current(current_duty_cycle, current.current_duty_cycle),
        min_angle_duty_cycle: or_current(min_angle_duty_cycle, current.min_angle_duty_cycle),
        max_angle_duty_cycle: or_current(max_angle_duty_cycle, current.max_angle_duty_cycle),
    }
}

impl ServoClient {
    /// A client that starts from the configuration fetched from the board.
    pub fn new(config: ServoConfig) -> (c: ServoClient)
        ensures
            c.config == config,
    {
        ServoClient { config }
    }

    /// Replaces the client's copy of the configuration by the one fetched.
    pub fn update_config(&mut self, config: ServoConfig)
        ensures
            final(self).config == config,
    {
        self.config = config;
    }

    /// Changes the configuration of channel number `channel` (1 to 4) in the
    /// client's copy: each argument that holds a value replaces that field,
    /// the others stay. Returns the channel and its new configuration, to be
    /// sent to the board. Another channel number is turned down and changes
    /// nothing.
    pub fn configure_channel(
        &mut self,
        channel: u8,
        enabled: Option<bool>,
        current_duty_cycle: Option<u16>,
        min_angle_duty_cycle: Option<u16>,
        max_angle_duty_cycle: Option<u16>,
    ) -> (r: Result<(PwmChannel, ServoChannelConfig), BoardError>)
        ensures
            match r {
                Ok((ch, config)) => {
                    &&& PwmChannel::from_number(channel as int) == Some(ch)
                    &&& config == merged(
                        old(self).config.channels@[ch.spec_index()],
                        enabled,
                        current_duty_cycle,
                        min_angle_duty_cycle,
                        max_angle_duty_cycle,
                    )
                    &&& final(self).config.channels@ == old(self).config.channels@.update(
                        ch.spec_index(),
                        config,
                    )
                    &&& final(self).config.servo_frequency == old(self).config.servo_frequency
                    &&& final(self).config.max_duty_cycle == old(self).config.max_duty_cycle
                },
                Err(e) => {
                    &&& !(1 <= channel <= 4)
                    &&& e == BoardError::InvalidData(InvalidArgument::Channel(channel))
                    &&& *final(self) == *old(self)
                },
            },
    {
        let ch = match PwmChannel::try_from(channel) {
            Ok(ch) => ch,
            Err(n) => {
                return Err(BoardError::InvalidData(InvalidArgument::Channel(n)));
            },
        };
        let current = self.config.channel(ch);
        let config = ServoChannelConfig {
            enabled: match enabled {
                Some(v) => v,
                None => current.enabled,
            },
            current_duty_cycle: match current_duty_cycle {
                Some(v) => v,
                None => current.current_duty_cycle,
            },
            min_angle_duty_cycle: match min_angle_duty_cycle {
                Some(v) => v,
                None => current.min_angle_duty_cycle,
            },
            max_angle_duty_cycle: match max_angle_duty_cycle {
                Some(v) => v,
                None => current.max_angle_duty_cycle,
            },
        };
        self.config.channels[ch.index()] = config;
        Ok((ch, config))
    }

    /// Moves the servo on channel number `channel` (1 to 4) to `angle`
    /// degrees (0 to 180) and switches the channel on, in the client's copy.
    /// Returns the channel and its new configuration, to be sent to the
    /// board. A request outside these ranges is turned down and changes nothing.
    pub fn set_angle(&mut self, channel: u8, angle: u8) -> (r: Result<
        (PwmChannel, ServoChannelConfig),
        BoardError,
    >)
        ensures
            match r {
                Ok((ch, config)) => {
                    &&& angle_request_error(channel, angle) is None
                    &&& PwmChannel::from_number(channel as int) == Some(ch)
                    &&& config == old(self).config.channels@[ch.spec_index()].at_angle(angle)
                    &&& final(self).config.channels@ == old(self).config.channels@.update(
                        ch.spec_index(),
                        config,
                    )
                    &&& final(self).config.servo_frequency == old(self).config.servo_frequency
                    &&& final(self).config.max_duty_cycle == old(self).config.max_duty_cycle
                },
                Err(e) => {
                    &&& angle_request_error(channel, angle) matches Some(reason)
                    &&& e == BoardError::InvalidData(reason)
                    &&& *final(self) == *old(self)
                },
            },
    {
        let ch = match PwmChannel::try_from(channel) {
            Ok(ch) => ch,
            Err(n) => {
                return Err(BoardError::InvalidData(InvalidArgument::Channel(n)));
            },
        };
        if angle > MAX_ANGLE {
            return Err(BoardError::InvalidData(InvalidArgument::Angle(angle)));
        }
        let current = self.config.channel(ch);
        let duty_cycle = self.angle_to_duty_cycle(
            angle,
            current.min_angle_duty_cycle,
            current.max_angle_duty_cycle,
        );
        self.configure_channel(channel, Some(true), Some(duty_cycle), None, None)
    }

    /// The angle, in degrees, of the servo on channel number `channel` (1 to
    /// 4), by the client's copy of the configuration.
    pub fn get_angle(&self, channel: u8) -> (r: Result<u8, BoardError>)
        ensures
            match r {
                Ok(angle) => PwmChannel::from_number(channel as int) matches Some(ch)
                    && angle == self.config.channels@[ch.spec_index()].spec_angle(),
                Err(e) => !(1 <= channel <= 4) && e == BoardError::InvalidData(
                    InvalidArgument::Channel(channel),
                ),
            },
    {
        match PwmChannel::try_from(channel) {
            Err(n) => Err(BoardError::InvalidData(InvalidArgument::Channel(n))),
            Ok(ch) => {
                let current = self.config.channel(ch);
                Ok(
                    self.duty_cycle_to_angle(
                        current.current_duty_cycle,
                        current.min_angle_duty_cycle,
                        current.max_angle_duty_cycle,
                    ),
                )
            },
        }
    }

    /// Duty cycle for `angle` degrees in the range from `min_duty_cycle` to `max_duty_cycle`.
    pub fn angle_to_duty_cycle(&self, angle: u8, min_duty_cycle: u16, max_duty_cycle: u16) -> (d:
        u16)
        ensures
            d == angle_duty(angle as int, min_duty_cycle as int, max_duty_cycle as int),
    {
        angle_to_duty_cycle(angle, min_duty_cycle, max_duty_cycle)
    }

    /// Angle for `duty_cycle` in the range from `min_duty_cycle` to `max_duty_cycle`.
    pub fn duty_cycle_to_angle(&self, duty_cycle: u16, min_duty_cycle: u16, max_duty_cycle: u16) -> (a:
        u8)
        ensures
            a == duty_angle(duty_cycle as int, min_duty_cycle as int, max_duty_cycle as int),
            a <= MAX_ANGLE,
    {
        duty_cycle_to_angle(duty_cycle, min_duty_cycle, max_duty_cycle)
    }

    /// Duty cycle, on a 16-bit scale, of a pulse of `us` microseconds at the
    /// board's PWM frequency.
    pub fn us_to_duty_cycle(&self, us: u32) -> (d: u16)
        ensures
            d == pulse_width_duty(us as int, self.config.servo_frequency as int),
    {
        pulse_to_duty_cycle(us, self.config.servo_frequency)
    }
}

} // verus!
