//! Conversions between servo angles, pulse widths and duty cycles.

use vstd::prelude::*;

verus! {

/// The integer nearest to `num / den`, halves rounded up, for `num >= 0` and `den > 0`.
pub open spec fn round_div(num: int, den: int) -> int {
    (2 * num + den) / (2 * den)
}

/// Duty cycle for `angle` degrees, on the line from `min_duty_cycle` at 0
/// degrees to `max_duty_cycle` at 180 degrees, rounded to the nearest duty
/// cycle. Angles above 180 map to `max_duty_cycle`.
pub open spec fn angle_duty(angle: int, min_duty_cycle: int, max_duty_cycle: int) -> int {
    if angle > 180 {
        max_duty_cycle
    } else {
        round_div(180 * min_duty_cycle + angle * (max_duty_cycle - min_duty_cycle), 180)
    }
}

/// Angle, in degrees, for `duty_cycle`: 0 below the range, 180 above it, and
/// in between the position within the range scaled to 180 and rounded. A
/// range of one point maps to 0.
pub open spec fn duty_angle(duty_cycle: int, min_duty_cycle: int, max_duty_cycle: int) -> int {
    if duty_cycle < min_duty_cycle {
        0
    } else if duty_cycle > max_duty_cycle {
        180
    } else if max_duty_cycle == min_duty_cycle {
        0
    } else {
        round_div(180 * (duty_cycle - min_duty_cycle), max_duty_cycle - min_duty_cycle)
    }
}

/// Duty cycle, on a 16-bit scale, of a pulse of `us` microseconds at
/// `frequency` hertz, rounded and limited to the scale.
pub open spec fn pulse_width_duty(us: int, frequency: int) -> int {
    let exact = round_div(us * frequency * 65536, 1_000_000);
    if exact > 65535 {
        65535
    } else {
        exact
    }
}

/// `round_div` is the nearest integer: twice its distance to the quotient is
/// at most one, and a half is rounded up.
pub proof fn lemma_round_div_nearest(num: int, den: int)
    requires
        num >= 0,
        den > 0,
    ensures
        2 * num - den < 2 * den * round_div(num, den) <= 2 * num + den,
        round_div(num, den) >= 0,
{
    let q = round_div(num, den);
    assert(2 * den * q <= 2 * num + den < 2 * den * q + 2 * den && q >= 0) by (nonlinear_arith)
        requires
            q == (2 * num + den) / (2 * den),
            num >= 0,
            den > 0,
    ;
}

/// `round_div` never leaves the range that the quotient lies in.
pub proof fn lemma_round_div_bounds(num: int, den: int, lo: int, hi: int)
    requires
        den > 0,
        0 <= lo * den <= num <= hi * den,
    ensures
        lo <= round_div(num, den) <= hi,
{
    lemma_round_div_nearest(num, den);
    let q = round_div(num, den);
    assert(lo <= q <= hi) by (nonlinear_arith)
        requires
            2 * num - den < 2 * den * q <= 2 * num + den,
            den > 0,
            lo * den <= num <= hi * den,
    ;
}

/// The duty cycle for an angle lies between the two ends of the range.
pub proof fn lemma_angle_duty_in_range(angle: int, min_duty_cycle: int, max_duty_cycle: int)
    requires
        0 <= angle,
        0 <= min_duty_cycle,
        0 <= max_duty_cycle,
    ensures
        min_duty_cycle <= max_duty_cycle ==> min_duty_cycle <= angle_duty(
            angle,
            min_duty_cycle,
            max_duty_cycle,
        ) <= max_duty_cycle,
        max_duty_cycle <= min_duty_cycle ==> max_duty_cycle <= angle_duty(
            angle,
            min_duty_cycle,
            max_duty_cycle,
        ) <= min_duty_cycle,
        angle_duty(0, min_duty_cycle, max_duty_cycle) == min_duty_cycle,
        angle_duty(180, min_duty_cycle, max_duty_cycle) == max_duty_cycle,
{
    assert(angle_duty(0, min_duty_cycle, max_duty_cycle) == min_duty_cycle) by {
        lemma_round_div_bounds(180 * min_duty_cycle, 180, min_duty_cycle, min_duty_cycle);
    }
    assert(angle_duty(180, min_duty_cycle, max_duty_cycle) == max_duty_cycle) by {
        lemma_round_div_bounds(180 * max_duty_cycle, 180, max_duty_cycle, max_duty_cycle);
    }
    if angle <= 180 {
        let num = 180 * min_duty_cycle + angle * (max_duty_cycle - min_duty_cycle);
        if min_duty_cycle <= max_duty_cycle {
            assert(min_duty_cycle * 180 <= num <= max_duty_cycle * 180) by (nonlinear_arith)
                requires
                    num == 180 * min_duty_cycle + angle * (max_duty_cycle - min_duty_cycle),
                    0 <= angle <= 180,
                    min_duty_cycle <= max_duty_cycle,
            ;
            lemma_round_div_bounds(num, 180, min_duty_cycle, max_duty_cycle);
        }
        if max_duty_cycle <= min_duty_cycle {
            assert(max_duty_cycle * 180 <= num <= min_duty_cycle * 180) by (nonlinear_arith)
                requires
                    num == 180 * min_duty_cycle + angle * (max_duty_cycle - min_duty_cycle),
                    0 <= angle <= 180,
                    max_duty_cycle <= min_duty_cycle,
            ;
            lemma_round_div_bounds(num, 180, max_duty_cycle, min_duty_cycle);
        }
    }
}

/// The angle for a duty cycle is at most 180 degrees.
pub proof fn lemma_duty_angle_in_range(duty_cycle: int, min_duty_cycle: int, max_duty_cycle: int)
    ensures
        0 <= duty_angle(duty_cycle, min_duty_cycle, max_duty_cycle) <= 180,
{
    if min_duty_cycle <= duty_cycle <= max_duty_cycle && min_duty_cycle < max_duty_cycle {
        let span = max_duty_cycle - min_duty_cycle;
        let num = 180 * (duty_cycle - min_duty_cycle);
        assert(0 * span <= num <= 180 * span) by (nonlinear_arith)
            requires
                num == 180 * (duty_cycle - min_duty_cycle),
                span == max_duty_cycle - min_duty_cycle,
                min_duty_cycle <= duty_cycle <= max_duty_cycle,
        ;
        lemma_round_div_bounds(num, span, 0, 180);
    }
}

/// Duty cycle for `angle` degrees in a channel's angle range.
pub fn angle_to_duty_cycle(angle: u8, min_duty_cycle: u16, max_duty_cycle: u16) -> (duty_cycle: u16)
    ensures
        duty_cycle == angle_duty(angle as int, min_duty_cycle as int, max_duty_cycle as int),
{
    if angle > 180 {
        return max_duty_cycle;
    }
    assert((180 - angle) * min_duty_cycle <= 180 * 0xffff && angle * max_duty_cycle <= 180 * 0xffff)
        by (nonlinear_arith)
        requires
            0 <= angle <= 180,
            0 <= min_duty_cycle <= 0xffff,
            0 <= max_duty_cycle <= 0xffff,
    ;
    let from_min: u64 = (180 - angle as u64) * (min_duty_cycle as u64);
    let from_max: u64 = (angle as u64) * (max_duty_cycle as u64);
    let num: u64 = from_min + from_max;
    proof {
        assert(num == 180 * min_duty_cycle + angle * (max_duty_cycle - min_duty_cycle))
            by (nonlinear_arith)
            requires
                num == (180 - angle) * min_duty_cycle + angle * max_duty_cycle,
        ;
        lemma_angle_duty_in_range(angle as int, min_duty_cycle as int, max_duty_cycle as int);
    }
    let rounded: u64 = (2 * num + 180) / 360;
    rounded as u16
}

/// Angle, in degrees, that `duty_cycle` stands for in a channel's angle range.
pub fn duty_cycle_to_angle(duty_cycle: u16, min_duty_cycle: u16, max_duty_cycle: u16) -> (angle: u8)
    ensures
        angle == duty_angle(duty_cycle as int, min_duty_cycle as int, max_duty_cycle as int),
        angle <= 180,
{
    proof {
        lemma_duty_angle_in_range(duty_cycle as int, min_duty_cycle as int, max_duty_cycle as int);
    }
    if duty_cycle < min_duty_cycle {
        return 0;
    }
    if duty_cycle > max_duty_cycle {
        return 180;
    }
    if max_duty_cycle == min_duty_cycle {
        return 0;
    }
    let span: u32 = (max_duty_cycle - min_duty_cycle) as u32;
    let num: u32 = 180 * ((duty_cycle - min_duty_cycle) as u32);
    let rounded: u32 = (2 * num + span) / (2 * span);
    rounded as u8
}

/// Duty cycle, on a 16-bit scale, of a pulse of `us` microseconds at `frequency` hertz.
pub fn pulse_to_duty_cycle(us: u32, frequency: u32) -> (duty_cycle: u16)
    ensures
        duty_cycle == pulse_width_duty(us as int, frequency as int),
{
    assert(us * frequency <= 0xffff_ffff * 0xffff_ffff) by (nonlinear_arith)
        requires
            0 <= us <= 0xffff_ffff,
            0 <= frequency <= 0xffff_ffff,
    ;
    let product: u128 = (us as u128) * (frequency as u128);
    let num: u128 = product * 65536;
    let rounded: u128 = (2 * num + 1_000_000) / 2_000_000;
    if rounded > 65535 {
        65535
    } else {
        rounded as u16
    }
}

} // verus!
