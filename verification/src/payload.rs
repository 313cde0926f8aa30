//! How the values that travel in payloads are laid out in bytes.
//!
//! Every value has one layout of fixed length: integers little-endian, a
//! flag as one byte of 0 or 1, a channel as one byte of 0 to 3, a structure
//! as its fields in order. Each reader is the exact inverse of its layout:
//! it gives a value for the bytes that some value is laid out as, and for
//! no others.

use vstd::prelude::*;
use crate::channel::PwmChannel;
use crate::pid::Pidvals;
use crate::servo::{ServoChannelConfig, ServoConfig};
use crate::wire::{
    bits32,
    bits64,
    le16,
    le32,
    le64,
    lemma_bits32_injective,
    lemma_bits64_injective,
    lemma_bits_round_trip,
    lemma_concat_injective,
    lemma_join,
    lemma_le16_injective,
    lemma_le32_injective,
    lemma_le64_injective,
    lemma_le16_at,
    lemma_le32_at,
    lemma_le64_at,
    push_i32,
    push_i64,
    push_u16,
    push_u32,
    push_u64,
    read_i32,
    read_i64,
    read_u16,
    read_u32,
    read_u64,
    value16,
    value32,
    value64,
};

verus! {

/// Bytes that a channel configuration takes.
pub const CHANNEL_CONFIG_LEN: usize = 7;

/// Bytes that a servo configuration takes.
pub const SERVO_CONFIG_LEN: usize = 34;

/// Bytes that the controller's state takes.
pub const PIDVALS_LEN: usize = 53;

/// The byte of a flag.
pub open spec fn flag_wire(b: bool) -> Seq<u8> {
    seq![if b { 1u8 } else { 0u8 }]
}

/// The byte of a channel.
pub open spec fn channel_wire(c: PwmChannel) -> Seq<u8> {
    seq![c.spec_index() as u8]
}

/// The bytes of a channel configuration.
pub open spec fn channel_config_wire(c: ServoChannelConfig) -> Seq<u8> {
    le16(c.min_angle_duty_cycle) + le16(c.max_angle_duty_cycle) + le16(c.current_duty_cycle)
        + flag_wire(c.enabled)
}

/// The bytes of a servo configuration.
pub open spec fn servo_config_wire(c: ServoConfig) -> Seq<u8> {
    le32(c.servo_frequency) + le16(c.max_duty_cycle) + channel_config_wire(c.channels@[0])
        + channel_config_wire(c.channels@[1]) + channel_config_wire(c.channels@[2])
        + channel_config_wire(c.channels@[3])
}

/// The bytes of the controller's state.
pub open spec fn pidvals_wire(p: Pidvals) -> Seq<u8> {
    le16(p.setpoint) + le16(p.adc_val) + le32(bits32(p.error_val)) + le64(bits64(p.err_corr))
        + le32(bits32(p.kp)) + le32(bits32(p.ki)) + le64(p.dt) + le64(p.prev_clk) + flag_wire(
        p.is_on,
    ) + le32(p.max_int_val) + le64(bits64(p.int_sum))
}

/// Appends the byte of a flag.
pub fn push_flag(out: &mut Vec<u8>, b: bool)
    ensures
        final(out)@ == old(out)@ + flag_wire(b),
{
    out.push(if b { 1u8 } else { 0u8 });
    assert(out@ =~= old(out)@ + flag_wire(b));
}

/// The flag in the byte at `at`, if the byte is one.
pub fn read_flag(bytes: &[u8], at: usize) -> (r: Option<bool>)
    requires
        at < bytes.len(),
    ensures
        r matches Some(b) ==> flag_wire(b) == bytes@.subrange(at as int, at + 1),
        r is None ==> bytes@[at as int] > 1,
{
    let byte: u8 = bytes[at];
    if byte == 0 {
        assert(flag_wire(false) =~= bytes@.subrange(at as int, at + 1));
        Some(false)
    } else if byte == 1 {
        assert(flag_wire(true) =~= bytes@.subrange(at as int, at + 1));
        Some(true)
    } else {
        None
    }
}

/// Appends the byte of a channel.
pub fn push_channel(out: &mut Vec<u8>, c: PwmChannel)
    ensures
        final(out)@ == old(out)@ + channel_wire(c),
{
    out.push(c.index() as u8);
    assert(out@ =~= old(out)@ + channel_wire(c));
}

/// The channel in the byte at `at`, if the byte is one.
pub fn read_channel(bytes: &[u8], at: usize) -> (r: Option<PwmChannel>)
    requires
        at < bytes.len(),
    ensures
        r matches Some(c) ==> channel_wire(c) == bytes@.subrange(at as int, at + 1),
        r is None ==> bytes@[at as int] > 3,
{
    let byte: u8 = bytes[at];
    let r = match byte {
        0 => Some(PwmChannel::Channel1),
        1 => Some(PwmChannel::Channel2),
        2 => Some(PwmChannel::Channel3),
        3 => Some(PwmChannel::Channel4),
        _ => None,
    };
    proof {
        if let Some(c) = r {
            assert(channel_wire(c) =~= bytes@.subrange(at as int, at + 1));
        }
    }
    r
}

/// Appends the bytes of a channel configuration.
pub fn push_channel_config(out: &mut Vec<u8>, c: &ServoChannelConfig)
    ensures
        final(out)@ == old(out)@ + channel_config_wire(*c),
        channel_config_wire(*c).len() == CHANNEL_CONFIG_LEN,
{
    push_u16(out, c.min_angle_duty_cycle);
    push_u16(out, c.max_angle_duty_cycle);
    push_u16(out, c.current_duty_cycle);
    push_flag(out, c.enabled);
    assert(out@ =~= old(out)@ + channel_config_wire(*c));
}

/// The channel configuration in the seven bytes from `at` on, if they are one.
pub fn read_channel_config(bytes: &[u8], at: usize) -> (r: Option<ServoChannelConfig>)
    requires
        at + CHANNEL_CONFIG_LEN <= bytes.len(),
    ensures
        r matches Some(c) ==> channel_config_wire(c) == bytes@.subrange(
            at as int,
            at + CHANNEL_CONFIG_LEN,
        ),
        r is None ==> bytes@[at + 6] > 1,
{
    let enabled = match read_flag(bytes, at + 6) {
        None => {
            return None;
        },
        Some(b) => b,
    };
    let c = ServoChannelConfig {
        min_angle_duty_cycle: read_u16(bytes, at),
        max_angle_duty_cycle: read_u16(bytes, at + 2),
        current_duty_cycle: read_u16(bytes, at + 4),
        enabled,
    };
    proof {
        let s = bytes@;
        lemma_le16_at(s, at as int);
        lemma_le16_at(s, at + 2);
        lemma_le16_at(s, at + 4);
        lemma_join(s, at as int, at + 2, at + 4);
        lemma_join(s, at as int, at + 4, at + 6);
        lemma_join(s, at as int, at + 6, at + 7);
    }
    Some(c)
}

/// A channel configuration's bytes are seven, the last of them 0 or 1, and
/// no two configurations have the same bytes.
pub proof fn lemma_channel_config_wire(c: ServoChannelConfig)
    ensures
        channel_config_wire(c).len() == CHANNEL_CONFIG_LEN,
        channel_config_wire(c)[6] <= 1,
        value16(channel_config_wire(c), 0) == c.min_angle_duty_cycle,
        value16(channel_config_wire(c), 2) == c.max_angle_duty_cycle,
        value16(channel_config_wire(c), 4) == c.current_duty_cycle,
        channel_config_wire(c)[6] == 1 <==> c.enabled,
{
}

/// Different channel configurations have different bytes.
pub proof fn lemma_channel_config_injective(x: ServoChannelConfig, y: ServoChannelConfig)
    requires
        channel_config_wire(x) == channel_config_wire(y),
    ensures
        x == y,
{
    lemma_channel_config_wire(x);
    lemma_channel_config_wire(y);
}

/// Appends the bytes of a servo configuration.
pub fn push_servo_config(out: &mut Vec<u8>, c: &ServoConfig)
    ensures
        final(out)@ == old(out)@ + servo_config_wire(*c),
        servo_config_wire(*c).len() == SERVO_CONFIG_LEN,
{
    push_u32(out, c.servo_frequency);
    push_u16(out, c.max_duty_cycle);
    push_channel_config(out, &c.channels[0]);
    push_channel_config(out, &c.channels[1]);
    push_channel_config(out, &c.channels[2]);
    push_channel_config(out, &c.channels[3]);
    assert(out@ =~= old(out)@ + servo_config_wire(*c));
}

/// The servo configuration that `bytes` are, if they are one.
pub fn read_servo_config(bytes: &[u8]) -> (r: Option<ServoConfig>)
    ensures
        r matches Some(c) ==> servo_config_wire(c) == bytes@,
        r is None ==> forall|c: ServoConfig| servo_config_wire(c) != bytes@,
{
    if bytes.len() != SERVO_CONFIG_LEN {
        assert forall|c: ServoConfig| servo_config_wire(c) != bytes@ by {
            lemma_servo_config_wire(c);
        }
        return None;
    }
    let c0 = read_channel_config(bytes, 6);
    let c1 = read_channel_config(bytes, 13);
    let c2 = read_channel_config(bytes, 20);
    let c3 = read_channel_config(bytes, 27);
    match (c0, c1, c2, c3) {
        (Some(c0), Some(c1), Some(c2), Some(c3)) => {
            let c = ServoConfig {
                servo_frequency: read_u32(bytes, 0),
                max_duty_cycle: read_u16(bytes, 4),
                channels: [c0, c1, c2, c3],
            };
            proof {
                let s = bytes@;
                lemma_le32_at(s, 0);
                lemma_le16_at(s, 4);
                lemma_join(s, 0, 4, 6);
                lemma_join(s, 0, 6, 13);
                lemma_join(s, 0, 13, 20);
                lemma_join(s, 0, 20, 27);
                lemma_join(s, 0, 27, 34);
                assert(s.subrange(0, 34) =~= s);
            }
            Some(c)
        },
        _ => {
            assert forall|c: ServoConfig| servo_config_wire(c) != bytes@ by {
                lemma_servo_config_wire(c);
            }
            None
        },
    }
}

/// A servo configuration's bytes are thirty-four, with a 0 or 1 where each
/// channel's flag stands.
pub proof fn lemma_servo_config_wire(c: ServoConfig)
    ensures
        servo_config_wire(c).len() == SERVO_CONFIG_LEN,
        servo_config_wire(c)[12] <= 1,
        servo_config_wire(c)[19] <= 1,
        servo_config_wire(c)[26] <= 1,
        servo_config_wire(c)[33] <= 1,
{
    lemma_channel_config_wire(c.channels@[0]);
    lemma_channel_config_wire(c.channels@[1]);
    lemma_channel_config_wire(c.channels@[2]);
    lemma_channel_config_wire(c.channels@[3]);
    let s = servo_config_wire(c);
    assert(s[12] == channel_config_wire(c.channels@[0])[6]);
    assert(s[19] == channel_config_wire(c.channels@[1])[6]);
    assert(s[26] == channel_config_wire(c.channels@[2])[6]);
    assert(s[33] == channel_config_wire(c.channels@[3])[6]);
}

/// Appends the bytes of the controller's state.
pub fn push_pidvals(out: &mut Vec<u8>, p: &Pidvals)
    ensures
        final(out)@ == old(out)@ + pidvals_wire(*p),
        pidvals_wire(*p).len() == PIDVALS_LEN,
{
    push_u16(out, p.setpoint);
    push_u16(out, p.adc_val);
    push_i32(out, p.error_val);
    push_i64(out, p.err_corr);
    push_i32(out, p.kp);
    push_i32(out, p.ki);
    push_u64(out, p.dt);
    push_u64(out, p.prev_clk);
    push_flag(out, p.is_on);
    push_u32(out, p.max_int_val);
    push_i64(out, p.int_sum);
    assert(out@ =~= old(out)@ + pidvals_wire(*p));
}

/// The controller's state that `bytes` are, if they are one.
pub fn read_pidvals(bytes: &[u8]) -> (r: Option<Pidvals>)
    ensures
        r matches Some(p) ==> pidvals_wire(p) == bytes@,
        r is None ==> forall|p: Pidvals| pidvals_wire(p) != bytes@,
{
    if bytes.len() != PIDVALS_LEN {
        assert forall|p: Pidvals| pidvals_wire(p) != bytes@ by {
            lemma_pidvals_wire(p);
        }
        return None;
    }
    let is_on = match read_flag(bytes, 40) {
        None => {
            assert forall|p: Pidvals| pidvals_wire(p) != bytes@ by {
                lemma_pidvals_wire(p);
            }
            return None;
        },
        Some(b) => b,
    };
    let p = Pidvals {
        setpoint: read_u16(bytes, 0),
        adc_val: read_u16(bytes, 2),
        error_val: read_i32(bytes, 4),
        err_corr: read_i64(bytes, 8),
        kp: read_i32(bytes, 16),
        ki: read_i32(bytes, 20),
        dt: read_u64(bytes, 24),
        prev_clk: read_u64(bytes, 32),
        is_on,
        max_int_val: read_u32(bytes, 41),
        int_sum: read_i64(bytes, 45),
    };
    proof {
        let s = bytes@;
        lemma_bits_round_trip(value32(s, 4), value64(s, 8));
        lemma_bits_round_trip(value32(s, 16), value64(s, 45));
        lemma_bits_round_trip(value32(s, 20), value64(s, 45));
        lemma_le16_at(s, 0);
        lemma_le16_at(s, 2);
        lemma_le32_at(s, 4);
        lemma_le64_at(s, 8);
        lemma_le32_at(s, 16);
        lemma_le32_at(s, 20);
        lemma_le64_at(s, 24);
        lemma_le64_at(s, 32);
        lemma_le32_at(s, 41);
        lemma_le64_at(s, 45);
        lemma_join(s, 0, 2, 4);
        lemma_join(s, 0, 4, 8);
        lemma_join(s, 0, 8, 16);
        lemma_join(s, 0, 16, 20);
        lemma_join(s, 0, 20, 24);
        lemma_join(s, 0, 24, 32);
        lemma_join(s, 0, 32, 40);
        lemma_join(s, 0, 40, 41);
        lemma_join(s, 0, 41, 45);
        lemma_join(s, 0, 45, 53);
        assert(s.subrange(0, 53) =~= s);
    }
    Some(p)
}

/// Different servo configurations have different bytes.
pub proof fn lemma_servo_config_injective(x: ServoConfig, y: ServoConfig)
    requires
        servo_config_wire(x) == servo_config_wire(y),
    ensures
        x == y,
{
    let x0 = le32(x.servo_frequency);
    let y0 = le32(y.servo_frequency);
    let x1 = x0 + le16(x.max_duty_cycle);
    let y1 = y0 + le16(y.max_duty_cycle);
    let x2 = x1 + channel_config_wire(x.channels@[0]);
    let y2 = y1 + channel_config_wire(y.channels@[0]);
    let x3 = x2 + channel_config_wire(x.channels@[1]);
    let y3 = y2 + channel_config_wire(y.channels@[1]);
    let x4 = x3 + channel_config_wire(x.channels@[2]);
    let y4 = y3 + channel_config_wire(y.channels@[2]);
    lemma_channel_config_wire(x.channels@[0]);
    lemma_channel_config_wire(y.channels@[0]);
    lemma_channel_config_wire(x.channels@[1]);
    lemma_channel_config_wire(y.channels@[1]);
    lemma_channel_config_wire(x.channels@[2]);
    lemma_channel_config_wire(y.channels@[2]);
    lemma_concat_injective(
        x4,
        channel_config_wire(x.channels@[3]),
        y4,
        channel_config_wire(y.channels@[3]),
    );
    lemma_concat_injective(
        x3,
        channel_config_wire(x.channels@[2]),
        y3,
        channel_config_wire(y.channels@[2]),
    );
    lemma_concat_injective(
        x2,
        channel_config_wire(x.channels@[1]),
        y2,
        channel_config_wire(y.channels@[1]),
    );
    lemma_concat_injective(
        x1,
        channel_config_wire(x.channels@[0]),
        y1,
        channel_config_wire(y.channels@[0]),
    );
    lemma_concat_injective(x0, le16(x.max_duty_cycle), y0, le16(y.max_duty_cycle));
    lemma_le32_injective(x.servo_frequency, y.servo_frequency);
    lemma_le16_injective(x.max_duty_cycle, y.max_duty_cycle);
    lemma_channel_config_injective(x.channels@[0], y.channels@[0]);
    lemma_channel_config_injective(x.channels@[1], y.channels@[1]);
    lemma_channel_config_injective(x.channels@[2], y.channels@[2]);
    lemma_channel_config_injective(x.channels@[3], y.channels@[3]);
    assert(x.channels =~= y.channels);
}

/// Different states of the controller have different bytes.
pub proof fn lemma_pidvals_injective(x: Pidvals, y: Pidvals)
    requires
        pidvals_wire(x) == pidvals_wire(y),
    ensures
        x == y,
{
    let x0 = le16(x.setpoint);
    let y0 = le16(y.setpoint);
    let x1 = x0 + le16(x.adc_val);
    let y1 = y0 + le16(y.adc_val);
    let x2 = x1 + le32(bits32(x.error_val));
    let y2 = y1 + le32(bits32(y.error_val));
    let x3 = x2 + le64(bits64(x.err_corr));
    let y3 = y2 + le64(bits64(y.err_corr));
    let x4 = x3 + le32(bits32(x.kp));
    let y4 = y3 + le32(bits32(y.kp));
    let x5 = x4 + le32(bits32(x.ki));
    let y5 = y4 + le32(bits32(y.ki));
    let x6 = x5 + le64(x.dt);
    let y6 = y5 + le64(y.dt);
    let x7 = x6 + le64(x.prev_clk);
    let y7 = y6 + le64(y.prev_clk);
    let x8 = x7 + flag_wire(x.is_on);
    let y8 = y7 + flag_wire(y.is_on);
    let x9 = x8 + le32(x.max_int_val);
    let y9 = y8 + le32(y.max_int_val);
    assert(x9 == y9 && x.int_sum == y.int_sum) by {
        lemma_concat_injective(x9, le64(bits64(x.int_sum)), y9, le64(bits64(y.int_sum)));
        lemma_le64_injective(bits64(x.int_sum), bits64(y.int_sum));
        lemma_bits64_injective(x.int_sum, y.int_sum);
    }
    assert(x8 == y8 && x.max_int_val == y.max_int_val) by {
        lemma_concat_injective(x8, le32(x.max_int_val), y8, le32(y.max_int_val));
        lemma_le32_injective(x.max_int_val, y.max_int_val);
    }
    assert(x7 == y7 && x.is_on == y.is_on) by {
        lemma_concat_injective(x7, flag_wire(x.is_on), y7, flag_wire(y.is_on));
        assert(flag_wire(x.is_on)[0] == flag_wire(y.is_on)[0]);
    }
    assert(x6 == y6 && x.prev_clk == y.prev_clk) by {
        lemma_concat_injective(x6, le64(x.prev_clk), y6, le64(y.prev_clk));
        lemma_le64_injective(x.prev_clk, y.prev_clk);
    }
    assert(x5 == y5 && x.dt == y.dt) by {
        lemma_concat_injective(x5, le64(x.dt), y5, le64(y.dt));
        lemma_le64_injective(x.dt, y.dt);
    }
    assert(x4 == y4 && x.ki == y.ki) by {
        lemma_concat_injective(x4, le32(bits32(x.ki)), y4, le32(bits32(y.ki)));
        lemma_le32_injective(bits32(x.ki), bits32(y.ki));
        lemma_bits32_injective(x.ki, y.ki);
    }
    assert(x3 == y3 && x.kp == y.kp) by {
        lemma_concat_injective(x3, le32(bits32(x.kp)), y3, le32(bits32(y.kp)));
        lemma_le32_injective(bits32(x.kp), bits32(y.kp));
        lemma_bits32_injective(x.kp, y.kp);
    }
    assert(x2 == y2 && x.err_corr == y.err_corr) by {
        lemma_concat_injective(x2, le64(bits64(x.err_corr)), y2, le64(bits64(y.err_corr)));
        lemma_le64_injective(bits64(x.err_corr), bits64(y.err_corr));
        lemma_bits64_injective(x.err_corr, y.err_corr);
    }
    assert(x1 == y1 && x.error_val == y.error_val) by {
        lemma_concat_injective(x1, le32(bits32(x.error_val)), y1, le32(bits32(y.error_val)));
        lemma_le32_injective(bits32(x.error_val), bits32(y.error_val));
        lemma_bits32_injective(x.error_val, y.error_val);
    }
    assert(x.setpoint == y.setpoint && x.adc_val == y.adc_val) by {
        lemma_concat_injective(x0, le16(x.adc_val), y0, le16(y.adc_val));
        lemma_le16_injective(x.setpoint, y.setpoint);
        lemma_le16_injective(x.adc_val, y.adc_val);
    }
}

/// The bytes of the controller's state are fifty-three, with a 0 or 1
/// where the flag stands.
pub proof fn lemma_pidvals_wire(p: Pidvals)
    ensures
        pidvals_wire(p).len() == PIDVALS_LEN,
        pidvals_wire(p)[40] <= 1,
{
    let s = pidvals_wire(p);
    assert(s[40] == flag_wire(p.is_on)[0]);
}

} // verus!
