//! The typed messages of every endpoint: requests, responses and errors,
//! and how each is laid out in a frame's payload.
//!
//! A payload is read against the endpoint it was sent to. Reading is the
//! exact inverse of the layout: bytes that are no message of the endpoint
//! are reported as of unknown type.

use vstd::prelude::*;
use crate::channel::PwmChannel;
use crate::dispatch::Endpoint;
use crate::error::InvalidArgument;
use crate::frame::CodecError;
use crate::payload::{
    channel_config_wire,
    channel_wire,
    flag_wire,
    lemma_channel_config_wire,
    lemma_pidvals_wire,
    lemma_servo_config_wire,
    pidvals_wire,
    push_channel,
    push_channel_config,
    push_flag,
    push_pidvals,
    push_servo_config,
    read_channel,
    read_channel_config,
    read_flag,
    read_pidvals,
    read_servo_config,
    servo_config_wire,
};
use crate::pid::Pidvals;
use crate::servo::{ServoChannelConfig, ServoConfig};
use crate::wire::{
    bits32,
    le16,
    le32,
    lemma_bits_round_trip,
    lemma_join,
    lemma_le16_at,
    lemma_le32_at,
    push_bytes,
    push_i32,
    push_u16,
    push_u32,
    read_i32,
    read_u16,
    read_u32,
    value16,
    value32,
};

verus! {

/// Bytes of the board's unique identifier.
pub const UNIQUE_ID_LEN: usize = 12;

/// A request, with what it carries.
#[derive(Clone, Copy, Debug, PartialEq, Eq, Structural)]
pub enum Request {
    UniqueId,
    AdcGet,
    /// Heater duty in parts per thousand.
    HeaterSetPwm(u16),
    PidGet,
    HeaterEnable,
    HeaterDisable,
    /// Proportional and integral gain, in thousandths.
    PidSetConsts(i32, i32),
    PidReset,
    PidRecalc,
    PidSetpoint(u16),
    /// Channel number and angle in degrees.
    ServoSetAngle(u8, u8),
    /// Channel number.
    ServoGetAngle(u8),
    ServoChannel(PwmChannel, ServoChannelConfig),
    ServoConfig,
    /// Frequency in hertz.
    ServoFrequency(u32),
    /// Number of steps.
    StepperSet(u32),
    StepperDirection(u8),
    DefmtStart,
    DefmtStop,
    PingX2(u32),
}

impl Request {
    /// The endpoint that the request is sent to.
    pub open spec fn spec_endpoint(self) -> Endpoint {
        match self {
            Request::UniqueId => Endpoint::UniqueId,
            Request::AdcGet => Endpoint::AdcGet,
            Request::HeaterSetPwm(_) => Endpoint::HeaterSetPwm,
            Request::PidGet => Endpoint::PidGet,
            Request::HeaterEnable => Endpoint::HeaterEnable,
            Request::HeaterDisable => Endpoint::HeaterDisable,
            Request::PidSetConsts(_, _) => Endpoint::PidSetConsts,
            Request::PidReset => Endpoint::PidReset,
            Request::PidRecalc => Endpoint::PidRecalc,
            Request::PidSetpoint(_) => Endpoint::PidSetpoint,
            Request::ServoSetAngle(_, _) => Endpoint::ServoSetAngle,
            Request::ServoGetAngle(_) => Endpoint::ServoGetAngle,
            Request::ServoChannel(_, _) => Endpoint::ServoChannel,
            Request::ServoConfig => Endpoint::ServoConfig,
            Request::ServoFrequency(_) => Endpoint::ServoFrequency,
            Request::StepperSet(_) => Endpoint::StepperSet,
            Request::StepperDirection(_) => Endpoint::StepperDirection,
            Request::DefmtStart => Endpoint::DefmtStart,
            Request::DefmtStop => Endpoint::DefmtStop,
            Request::PingX2(_) => Endpoint::PingX2,
        }
    }

    /// The request's payload.
    pub open spec fn wire(self) -> Seq<u8> {
        match self {
            Request::HeaterSetPwm(duty) => le16(duty),
            Request::PidSetConsts(kp, ki) => le32(bits32(kp)) + le32(bits32(ki)),
            Request::PidSetpoint(setpoint) => le16(setpoint),
            Request::ServoSetAngle(channel, angle) => seq![channel, angle],
            Request::ServoGetAngle(channel) => seq![channel],
            Request::ServoChannel(channel, config) => channel_wire(channel) + channel_config_wire(
                config,
            ),
            Request::ServoFrequency(frequency) => le32(frequency),
            Request::StepperSet(steps) => le32(steps),
            Request::StepperDirection(direction) => seq![direction],
            Request::PingX2(value) => le32(value),
            _ => Seq::empty(),
        }
    }

    /// The endpoint that the request is sent to.
    pub fn endpoint(&self) -> (e: Endpoint)
        ensures
            e == self.spec_endpoint(),
    {
        match self {
            Request::UniqueId => Endpoint::UniqueId,
            Request::AdcGet => Endpoint::AdcGet,
            Request::HeaterSetPwm(_) => Endpoint::HeaterSetPwm,
            Request::PidGet => Endpoint::PidGet,
            Request::HeaterEnable => Endpoint::HeaterEnable,
            Request::HeaterDisable => Endpoint::HeaterDisable,
            Request::PidSetConsts(_, _) => Endpoint::PidSetConsts,
            Request::PidReset => Endpoint::PidReset,
            Request::PidRecalc => Endpoint::PidRecalc,
            Request::PidSetpoint(_) => Endpoint::PidSetpoint,
            Request::ServoSetAngle(_, _) => Endpoint::ServoSetAngle,
            Request::ServoGetAngle(_) => Endpoint::ServoGetAngle,
            Request::ServoChannel(_, _) => Endpoint::ServoChannel,
            Request::ServoConfig => Endpoint::ServoConfig,
            Request::ServoFrequency(_) => Endpoint::ServoFrequency,
            Request::StepperSet(_) => Endpoint::StepperSet,
            Request::StepperDirection(_) => Endpoint::StepperDirection,
            Request::DefmtStart => Endpoint::DefmtStart,
            Request::DefmtStop => Endpoint::DefmtStop,
            Request::PingX2(_) => Endpoint::PingX2,
        }
    }

    /// The request's payload.
    pub fn encode(&self) -> (bytes: Vec<u8>)
        ensures
            bytes@ == self.wire(),
    {
        let mut out: Vec<u8> = Vec::new();
        match self {
            Request::HeaterSetPwm(duty) => push_u16(&mut out, *duty),
            Request::PidSetConsts(kp, ki) => {
                push_i32(&mut out, *kp);
                push_i32(&mut out, *ki);
            },
            Request::PidSetpoint(setpoint) => push_u16(&mut out, *setpoint),
            Request::ServoSetAngle(channel, angle) => {
                out.push(*channel);
                out.push(*angle);
            },
            Request::ServoGetAngle(channel) => out.push(*channel),
            Request::ServoChannel(channel, config) => {
                push_channel(&mut out, *channel);
                push_channel_config(&mut out, config);
            },
            Request::ServoFrequency(frequency) => push_u32(&mut out, *frequency),
            Request::StepperSet(steps) => push_u32(&mut out, *steps),
            Request::StepperDirection(direction) => out.push(*direction),
            Request::PingX2(value) => push_u32(&mut out, *value),
            _ => {},
        }
        assert(out@ =~= self.wire());
        out
    }

    /// The length of the payload of every request to `endpoint`.
    pub open spec fn spec_len(endpoint: Endpoint) -> nat {
        match endpoint {
            Endpoint::HeaterSetPwm | Endpoint::PidSetpoint | Endpoint::ServoSetAngle => 2,
            Endpoint::PidSetConsts | Endpoint::ServoChannel => 8,
            Endpoint::ServoGetAngle | Endpoint::StepperDirection => 1,
            Endpoint::ServoFrequency | Endpoint::StepperSet | Endpoint::PingX2 => 4,
            _ => 0,
        }
    }

    /// Every request to an endpoint has a payload of the endpoint's
    /// length; a channel in it is a byte of 0 to 3, a flag a byte of 0 or 1.
    pub proof fn lemma_wire_shape(self)
        ensures
            self.wire().len() == Self::spec_len(self.spec_endpoint()),
            self is ServoChannel ==> self.wire()[0] <= 3 && self.wire()[7] <= 1,
    {
        if let Request::ServoChannel(channel, config) = self {
            lemma_channel_config_wire(config);
            assert(self.wire()[7] == channel_config_wire(config)[6]);
        }
    }

    /// The request to `endpoint` that `payload` is. Bytes that no request
    /// to `endpoint` is laid out as are of unknown type.
    pub fn decode(endpoint: Endpoint, payload: &[u8]) -> (r: Result<Request, CodecError>)
        ensures
            match r {
                Ok(request) => request.spec_endpoint() == endpoint && request.wire() == payload@,
                Err(e) => e == CodecError::UnknownType && forall|q: Request|
                    q.spec_endpoint() == endpoint ==> q.wire() != payload@,
            },
    {
        let expected: usize = match endpoint {
            Endpoint::HeaterSetPwm | Endpoint::PidSetpoint | Endpoint::ServoSetAngle => 2,
            Endpoint::PidSetConsts | Endpoint::ServoChannel => 8,
            Endpoint::ServoGetAngle | Endpoint::StepperDirection => 1,
            Endpoint::ServoFrequency | Endpoint::StepperSet | Endpoint::PingX2 => 4,
            _ => 0,
        };
        if payload.len() != expected {
            assert forall|q: Request| q.spec_endpoint() == endpoint implies q.wire()
                != payload@ by {
                q.lemma_wire_shape();
            }
            return Err(CodecError::UnknownType);
        }
        let ghost s = payload@;
        let request = match endpoint {
            Endpoint::UniqueId => Request::UniqueId,
            Endpoint::AdcGet => Request::AdcGet,
            Endpoint::HeaterSetPwm => {
                proof {
                    lemma_le16_at(s, 0);
                }
                Request::HeaterSetPwm(read_u16(payload, 0))
            },
            Endpoint::PidGet => Request::PidGet,
            Endpoint::HeaterEnable => Request::HeaterEnable,
            Endpoint::HeaterDisable => Request::HeaterDisable,
            Endpoint::PidSetConsts => {
                proof {
                    lemma_le32_at(s, 0);
                    lemma_le32_at(s, 4);
                    lemma_join(s, 0, 4, 8);
                    lemma_bits_round_trip(value32(s, 0), 0);
                    lemma_bits_round_trip(value32(s, 4), 0);
                }
                Request::PidSetConsts(read_i32(payload, 0), read_i32(payload, 4))
            },
            Endpoint::PidReset => Request::PidReset,
            Endpoint::PidRecalc => Request::PidRecalc,
            Endpoint::PidSetpoint => {
                proof {
                    lemma_le16_at(s, 0);
                }
                Request::PidSetpoint(read_u16(payload, 0))
            },
            Endpoint::ServoSetAngle => Request::ServoSetAngle(payload[0], payload[1]),
            Endpoint::ServoGetAngle => Request::ServoGetAngle(payload[0]),
            Endpoint::ServoChannel => {
                let channel = read_channel(payload, 0);
                let config = read_channel_config(payload, 1);
                match (channel, config) {
                    (Some(channel), Some(config)) => {
                        proof {
                            lemma_join(s, 0, 1, 8);
                        }
                        Request::ServoChannel(channel, config)
                    },
                    _ => {
                        assert forall|q: Request| q.spec_endpoint() == endpoint implies q.wire()
                            != payload@ by {
                            q.lemma_wire_shape();
                        }
                        return Err(CodecError::UnknownType);
                    },
                }
            },
            Endpoint::ServoConfig => Request::ServoConfig,
            Endpoint::ServoFrequency => {
                proof {
                    lemma_le32_at(s, 0);
                }
                Request::ServoFrequency(read_u32(payload, 0))
            },
            Endpoint::StepperSet => {
                proof {
                    lemma_le32_at(s, 0);
                }
                Request::StepperSet(read_u32(payload, 0))
            },
            Endpoint::StepperDirection => Request::StepperDirection(payload[0]),
            Endpoint::DefmtStart => Request::DefmtStart,
            Endpoint::DefmtStop => Request::DefmtStop,
            Endpoint::PingX2 => {
                proof {
                    lemma_le32_at(s, 0);
                }
                Request::PingX2(read_u32(payload, 0))
            },
        };
        assert(request.wire() =~= s.subrange(0, s.len() as int));
        assert(s.subrange(0, s.len() as int) =~= s);
        Ok(request)
    }
}

/// A response, with what it carries.
#[derive(Clone, Copy, Debug, PartialEq, Eq)]
pub enum Response {
    /// The request was carried out; there is nothing to report.
    Unit,
    UniqueId([u8; 12]),
    Adc(u16),
    Pidvals(Pidvals),
    /// Angle in degrees.
    Angle(u8),
    ServoConfig(ServoConfig),
    /// Whether a log stream was running and has been told to stop.
    Stopped(bool),
    Pong(u32),
}

/// An error reported to the sender of a request, in place of a response.
#[derive(Clone, Copy, Debug, PartialEq, Eq, Structural)]
pub enum WireError {
    /// No endpoint is registered under the request's path key.
    UnknownKey,
    /// The payload is no request to the endpoint.
    UnknownType,
    /// The request carries an argument out of range.
    Invalid(InvalidArgument),
    /// The endpoint's task is running already.
    Busy,
}

impl Response {
    /// Whether the response is of the type that `endpoint` answers with.
    pub open spec fn answers(self, endpoint: Endpoint) -> bool {
        match endpoint {
            Endpoint::UniqueId => self is UniqueId,
            Endpoint::AdcGet => self is Adc,
            Endpoint::PidGet => self is Pidvals,
            Endpoint::ServoGetAngle => self is Angle,
            Endpoint::ServoConfig => self is ServoConfig,
            Endpoint::DefmtStop => self is Stopped,
            Endpoint::PingX2 => self is Pong,
            _ => self is Unit,
        }
    }

    /// The response's payload.
    pub open spec fn wire(self) -> Seq<u8> {
        match self {
            Response::Unit => Seq::empty(),
            Response::UniqueId(id) => id@,
            Response::Adc(value) => le16(value),
            Response::Pidvals(p) => pidvals_wire(p),
            Response::Angle(angle) => seq![angle],
            Response::ServoConfig(c) => servo_config_wire(c),
            Response::Stopped(b) => flag_wire(b),
            Response::Pong(value) => le32(value),
        }
    }

    /// The response's payload.
    pub fn encode(&self) -> (bytes: Vec<u8>)
        ensures
            bytes@ == self.wire(),
    {
        let mut out: Vec<u8> = Vec::new();
        match self {
            Response::Unit => {},
            Response::UniqueId(id) => push_bytes(&mut out, id.as_slice()),
            Response::Adc(value) => push_u16(&mut out, *value),
            Response::Pidvals(p) => push_pidvals(&mut out, p),
            Response::Angle(angle) => out.push(*angle),
            Response::ServoConfig(c) => push_servo_config(&mut out, c),
            Response::Stopped(b) => push_flag(&mut out, *b),
            Response::Pong(value) => push_u32(&mut out, *value),
        }
        assert(out@ =~= self.wire());
        out
    }

    /// The length of a response's payload, and where in it a flag stands.
    pub proof fn lemma_wire_shape(self)
        ensures
            self is Unit ==> self.wire().len() == 0,
            self is UniqueId ==> self.wire().len() == UNIQUE_ID_LEN,
            self is Adc ==> self.wire().len() == 2,
            self is Pidvals ==> self.wire().len() == 53 && self.wire()[40] <= 1,
            self is Angle ==> self.wire().len() == 1,
            self is ServoConfig ==> self.wire().len() == 34,
            self is Stopped ==> self.wire().len() == 1 && self.wire()[0] <= 1,
            self is Pong ==> self.wire().len() == 4,
    {
        match self {
            Response::Pidvals(p) => lemma_pidvals_wire(p),
            Response::ServoConfig(c) => lemma_servo_config_wire(c),
            _ => {},
        }
    }

    /// The response of `endpoint` that `payload` is. Bytes that no
    /// response of `endpoint` is laid out as are of unknown type.
    pub fn decode(endpoint: Endpoint, payload: &[u8]) -> (r: Result<Response, CodecError>)
        ensures
            match r {
                Ok(response) => response.answers(endpoint) && response.wire() == payload@,
                Err(e) => e == CodecError::UnknownType && forall|q: Response|
                    q.answers(endpoint) ==> q.wire() != payload@,
            },
    {
        let ghost s = payload@;
        let found: Option<Response> = match endpoint {
            Endpoint::UniqueId => {
                if payload.len() == UNIQUE_ID_LEN {
                    let mut id: [u8; 12] = [0u8; 12];
                    let mut i: usize = 0;
                    while i < UNIQUE_ID_LEN
                        invariant
                            i <= UNIQUE_ID_LEN,
                            payload.len() == UNIQUE_ID_LEN,
                            forall|j: int| 0 <= j < i ==> id@[j] == payload@[j],
                        decreases UNIQUE_ID_LEN - i,
                    {
                        id[i] = payload[i];
                        i += 1;
                    }
                    assert(id@ =~= s);
                    Some(Response::UniqueId(id))
                } else {
                    None
                }
            },
            Endpoint::AdcGet => {
                if payload.len() == 2 {
                    proof {
                        lemma_le16_at(s, 0);
                        assert(s.subrange(0, 2) =~= s);
                    }
                    Some(Response::Adc(read_u16(payload, 0)))
                } else {
                    None
                }
            },
            Endpoint::PidGet => match read_pidvals(payload) {
                Some(p) => Some(Response::Pidvals(p)),
                None => None,
            },
            Endpoint::ServoGetAngle => {
                if payload.len() == 1 {
                    assert(seq![s[0]] =~= s);
                    Some(Response::Angle(payload[0]))
                } else {
                    None
                }
            },
            Endpoint::ServoConfig => match read_servo_config(payload) {
                Some(c) => Some(Response::ServoConfig(c)),
                None => None,
            },
            Endpoint::DefmtStop => {
                if payload.len() == 1 {
                    match read_flag(payload, 0) {
                        Some(b) => {
                            assert(s.subrange(0, 1) =~= s);
                            Some(Response::Stopped(b))
                        },
                        None => None,
                    }
                } else {
                    None
                }
            },
            Endpoint::PingX2 => {
                if payload.len() == 4 {
                    proof {
                        lemma_le32_at(s, 0);
                        assert(s.subrange(0, 4) =~= s);
                    }
                    Some(Response::Pong(read_u32(payload, 0)))
                } else {
                    None
                }
            },
            _ => {
                if payload.len() == 0 {
                    assert(Seq::<u8>::empty() =~= s);
                    Some(Response::Unit)
                } else {
                    None
                }
            },
        };
        match found {
            Some(response) => Ok(response),
            None => {
                assert forall|q: Response| q.answers(endpoint) implies q.wire() != payload@ by {
                    q.lemma_wire_shape();
                }
                Err(CodecError::UnknownType)
            },
        }
    }
}

/// The bytes of an argument that was turned down: its kind, then its value
/// in two bytes.
pub open spec fn invalid_wire(e: InvalidArgument) -> Seq<u8> {
    match e {
        InvalidArgument::Channel(v) => seq![0u8] + le16(v as u16),
        InvalidArgument::Angle(v) => seq![1u8] + le16(v as u16),
        InvalidArgument::Duty(v) => seq![2u8] + le16(v),
        InvalidArgument::Direction(v) => seq![3u8] + le16(v as u16),
    }
}

impl WireError {
    /// The error's payload.
    pub open spec fn wire(self) -> Seq<u8> {
        match self {
            WireError::UnknownKey => seq![0u8],
            WireError::UnknownType => seq![1u8],
            WireError::Invalid(e) => seq![2u8] + invalid_wire(e),
            WireError::Busy => seq![3u8],
        }
    }

    /// The error's payload.
    pub fn encode(&self) -> (bytes: Vec<u8>)
        ensures
            bytes@ == self.wire(),
    {
        let mut out: Vec<u8> = Vec::new();
        match self {
            WireError::UnknownKey => out.push(0),
            WireError::UnknownType => out.push(1),
            WireError::Invalid(e) => {
                out.push(2);
                match e {
                    InvalidArgument::Channel(v) => {
                        out.push(0);
                        push_u16(&mut out, *v as u16);
                    },
                    InvalidArgument::Angle(v) => {
                        out.push(1);
                        push_u16(&mut out, *v as u16);
                    },
                    InvalidArgument::Duty(v) => {
                        out.push(2);
                        push_u16(&mut out, *v);
                    },
                    InvalidArgument::Direction(v) => {
                        out.push(3);
                        push_u16(&mut out, *v as u16);
                    },
                }
            },
            WireError::Busy => out.push(3),
        }
        assert(out@ =~= self.wire());
        out
    }

    /// The length of an error's payload and the bytes that tell its kind.
    pub proof fn lemma_wire_shape(self)
        ensures
            self is UnknownKey ==> self.wire() == seq![0u8],
            self is UnknownType ==> self.wire() == seq![1u8],
            self is Busy ==> self.wire() == seq![3u8],
            self matches WireError::Invalid(e) ==> {
                &&& self.wire().len() == 4
                &&& self.wire()[0] == 2
                &&& self.wire()[1] <= 3
                &&& (e is Channel <==> self.wire()[1] == 0)
                &&& (e is Angle <==> self.wire()[1] == 1)
                &&& (e is Duty <==> self.wire()[1] == 2)
                &&& (e is Direction <==> self.wire()[1] == 3)
                &&& (!(e is Duty) ==> value16(self.wire(), 2) < 256)
            },
    {
    }

    /// The error that `payload` is. Bytes that no error is laid out as are
    /// of unknown type.
    pub fn decode(payload: &[u8]) -> (r: Result<WireError, CodecError>)
        ensures
            match r {
                Ok(error) => error.wire() == payload@,
                Err(e) => e == CodecError::UnknownType && forall|q: WireError|
                    q.wire() != payload@,
            },
    {
        let ghost s = payload@;
        let mut found: Option<WireError> = None;
        if payload.len() == 1 {
            let tag: u8 = payload[0];
            if tag == 0 {
                found = Some(WireError::UnknownKey);
            } else if tag == 1 {
                found = Some(WireError::UnknownType);
            } else if tag == 3 {
                found = Some(WireError::Busy);
            }
        } else if payload.len() == 4 && payload[0] == 2 {
            let kind: u8 = payload[1];
            let value: u16 = read_u16(payload, 2);
            proof {
                lemma_le16_at(s, 2);
            }
            if kind == 2 {
                found = Some(WireError::Invalid(InvalidArgument::Duty(value)));
            } else if value < 256 {
                if kind == 0 {
                    found = Some(WireError::Invalid(InvalidArgument::Channel(value as u8)));
                } else if kind == 1 {
                    found = Some(WireError::Invalid(InvalidArgument::Angle(value as u8)));
                } else if kind == 3 {
                    found = Some(WireError::Invalid(InvalidArgument::Direction(value as u8)));
                }
            }
        }
        match found {
            Some(error) => {
                assert(error.wire() =~= s);
                Ok(error)
            },
            None => {
                assert forall|q: WireError| q.wire() != payload@ by {
                    q.lemma_wire_shape();
                }
                Err(CodecError::UnknownType)
            },
        }
    }
}

} // verus!
