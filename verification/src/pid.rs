//! Proportional-integral control state and its recompute step.
//!
//! Gains, the integral accumulator and the correction are fixed-point
//! numbers counted in thousandths, so that every step is exact integer
//! arithmetic. A correction of `FULL_SCALE * GAIN_SCALE` thousandths asks
//! for the actuator to be fully on.

use vstd::prelude::*;

verus! {

/// Number of fixed-point units that make up one whole.
pub const GAIN_SCALE: i64 = 1000;

/// Correction, in whole units, at which the actuator is fully on.
pub const FULL_SCALE: i64 = 1000;

/// Integral clamp, in thousandths, that a controller starts out with.
pub const DEFAULT_MAX_INT: u32 = 1_000_000;

/// What the actuator's duty cycle is to be set to.
#[derive(Clone, Copy, Debug, PartialEq, Eq, Structural)]
pub enum DutyCommand {
    /// Output held low all the time.
    Zero,
    /// Output held high all the time.
    FullyOn,
    /// Output high for `num` parts out of `denom`.
    Fraction { num: u16, denom: u16 },
}

/// The controller's state, as it is also reported to the host.
#[derive(Clone, Copy, Debug, PartialEq, Eq, Structural)]
pub struct Pidvals {
    /// Reading the controller steers towards.
    pub setpoint: u16,
    /// Reading taken at the last recompute.
    pub adc_val: u16,
    /// `adc_val - setpoint` at the last recompute.
    pub error_val: i32,
    /// Correction computed at the last recompute, in thousandths.
    pub err_corr: i64,
    /// Proportional gain, in thousandths.
    pub kp: i32,
    /// Integral gain, in thousandths.
    pub ki: i32,
    /// Clock ticks between the last two references of the clock.
    pub dt: u64,
    /// Clock reference: ticks at the last recompute or reset.
    pub prev_clk: u64,
    /// Whether closed-loop control is switched on.
    pub is_on: bool,
    /// Bound on the magnitude of `int_sum`, in thousandths.
    pub max_int_val: u32,
    /// Integral accumulator, in thousandths.
    pub int_sum: i64,
}

/// `v` limited to the symmetric range `[-bound, bound]`.
pub open spec fn clamp_symmetric(v: int, bound: int) -> int {
    if v > bound {
        bound
    } else if v < -bound {
        -bound
    } else {
        v
    }
}

/// Ticks from `earlier` to `later` on a clock that wraps at 2^64.
pub open spec fn elapsed_ticks(later: u64, earlier: u64) -> int {
    if later >= earlier {
        later - earlier
    } else {
        later - earlier + 0x1_0000_0000_0000_0000
    }
}

/// The duty cycle that a correction (in thousandths) maps to: nothing below
/// zero, everything above full scale, the truncated per-mille fraction in between.
pub open spec fn duty_for(correction: int) -> DutyCommand {
    if correction < 0 {
        DutyCommand::Zero
    } else if correction > FULL_SCALE * GAIN_SCALE {
        DutyCommand::FullyOn
    } else {
        DutyCommand::Fraction { num: (correction / GAIN_SCALE as int) as u16, denom: FULL_SCALE as u16 }
    }
}

impl Pidvals {
    /// The state right after `reset` at clock `now`.
    pub open spec fn spec_reset(self, now: u64) -> Pidvals {
        Pidvals { prev_clk: now, int_sum: 0, ..self }
    }

    /// The state after one recompute with ADC reading `reading` at clock `now`.
    pub open spec fn spec_recompute(self, reading: u16, now: u64) -> Pidvals {
        let error: int = reading - self.setpoint;
        let int_sum: int = clamp_symmetric(self.int_sum + self.ki * error, self.max_int_val as int);
        Pidvals {
            adc_val: reading,
            dt: elapsed_ticks(now, self.prev_clk) as u64,
            prev_clk: now,
            error_val: error as i32,
            int_sum: int_sum as i64,
            err_corr: (self.kp * error + int_sum) as i64,
            ..self
        }
    }

    /// The state after recomputing once for each `(reading, now)` sample in turn.
    pub open spec fn spec_run(self, samples: Seq<(u16, u64)>) -> Pidvals
        decreases samples.len(),
    {
        if samples.len() == 0 {
            self
        } else {
            self.spec_run(samples.drop_last()).spec_recompute(samples.last().0, samples.last().1)
        }
    }

    /// A controller at rest: no gains, empty accumulator, the default clamp,
    /// clock reference `now`.
    pub open spec fn at_rest(now: u64) -> Pidvals {
        Pidvals {
            setpoint: 0,
            adc_val: 0,
            error_val: 0,
            err_corr: 0,
            kp: 0,
            ki: 0,
            dt: 1,
            prev_clk: now,
            is_on: false,
            max_int_val: DEFAULT_MAX_INT,
            int_sum: 0,
        }
    }

    /// A controller at rest, with clock reference `now`.
    pub fn new(now: u64) -> (p: Pidvals)
        ensures
            p == Self::at_rest(now),
    {
        Pidvals {
            setpoint: 0,
            adc_val: 0,
            error_val: 0,
            err_corr: 0,
            kp: 0,
            ki: 0,
            dt: 1,
            prev_clk: now,
            is_on: false,
            max_int_val: DEFAULT_MAX_INT,
            int_sum: 0,
        }
    }

    /// Empties the integral accumulator and takes `now` as the new clock
    /// reference, so that the next recompute measures time from here.
    pub fn reset(&mut self, now: u64)
        ensures
            *final(self) == old(self).spec_reset(now),
    {
        self.prev_clk = now;
        self.int_sum = 0;
    }

    /// Sets the proportional and the integral gain, both in thousandths.
    pub fn set_consts(&mut self, kp: i32, ki: i32)
        ensures
            *final(self) == (Pidvals { kp, ki, ..*old(self) }),
    {
        self.kp = kp;
        self.ki = ki;
    }

    /// Sets the reading to steer towards.
    pub fn set_setpoint(&mut self, setpoint: u16)
        ensures
            *final(self) == (Pidvals { setpoint, ..*old(self) }),
    {
        self.setpoint = setpoint;
    }

    /// One control step: records the reading and the ticks since the clock
    /// reference, moves the reference to `now`, accumulates `ki * error`
    /// into the clamped integral, and returns the duty cycle for the new
    /// correction `kp * error + integral`.
    pub fn recompute(&mut self, reading: u16, now: u64) -> (duty: DutyCommand)
        ensures
            *final(self) == old(self).spec_recompute(reading, now),
            duty == duty_for(final(self).err_corr as int),
    {
        let error: i32 = reading as i32 - self.setpoint as i32;
        let bound: i128 = self.max_int_val as i128;
        assert(-0x8000_0000_0000 <= self.ki * error <= 0x8000_0000_0000) by (nonlinear_arith)
            requires
                -0x8000_0000 <= self.ki <= 0x8000_0000,
                -0x1_0000 <= error <= 0x1_0000,
        ;
        assert(-0x8000_0000_0000 <= self.kp * error <= 0x8000_0000_0000) by (nonlinear_arith)
            requires
                -0x8000_0000 <= self.kp <= 0x8000_0000,
                -0x1_0000 <= error <= 0x1_0000,
        ;
        let raised: i128 = self.int_sum as i128 + (self.ki as i128) * (error as i128);
        let int_sum: i64 = if raised > bound {
            bound as i64
        } else if raised < -bound {
            (-bound) as i64
        } else {
            raised as i64
        };
        let correction: i64 = (self.kp as i64) * (error as i64) + int_sum;

        self.adc_val = reading;
        self.dt = now.wrapping_sub(self.prev_clk);
        self.prev_clk = now;
        self.error_val = error;
        self.int_sum = int_sum;
        self.err_corr = correction;

        if correction < 0 {
            DutyCommand::Zero
        } else if correction > FULL_SCALE * GAIN_SCALE {
            DutyCommand::FullyOn
        } else {
            DutyCommand::Fraction { num: (correction / GAIN_SCALE) as u16, denom: FULL_SCALE as u16 }
        }
    }
}

/// The integral accumulator lies within the clamp after every recompute,
/// whatever the state before and whatever the reading.
pub proof fn lemma_integral_within_clamp(s: Pidvals, reading: u16, now: u64)
    ensures
        -(s.max_int_val as int) <= s.spec_recompute(reading, now).int_sum <= s.max_int_val,
        s.spec_recompute(reading, now).max_int_val == s.max_int_val,
{
}

/// The integral accumulator lies within the clamp after any run of one or
/// more recomputes, however extreme and however often repeated the errors.
pub proof fn lemma_integral_bounded_over_run(s: Pidvals, samples: Seq<(u16, u64)>)
    ensures
        s.spec_run(samples).max_int_val == s.max_int_val,
        samples.len() > 0 ==> -(s.max_int_val as int) <= s.spec_run(samples).int_sum
            <= s.max_int_val,
    decreases samples.len(),
{
    if samples.len() > 0 {
        lemma_integral_bounded_over_run(s, samples.drop_last());
        lemma_integral_within_clamp(
            s.spec_run(samples.drop_last()),
            samples.last().0,
            samples.last().1,
        );
    }
}

/// With both gains at zero and an empty accumulator, every recompute of a
/// run leaves the correction at zero and the accumulator empty.
pub proof fn lemma_no_gain_no_correction(s: Pidvals, samples: Seq<(u16, u64)>)
    requires
        s.kp == 0,
        s.ki == 0,
        s.int_sum == 0,
    ensures
        s.spec_run(samples).kp == 0,
        s.spec_run(samples).ki == 0,
        s.spec_run(samples).int_sum == 0,
        samples.len() > 0 ==> s.spec_run(samples).err_corr == 0,
        samples.len() > 0 ==> duty_for(s.spec_run(samples).err_corr as int) == (DutyCommand::Fraction {
            num: 0,
            denom: FULL_SCALE as u16,
        }),
    decreases samples.len(),
{
    if samples.len() > 0 {
        lemma_no_gain_no_correction(s, samples.drop_last());
    }
}

/// After a reset at `reset_at`, the next recompute measures exactly the
/// ticks since that reset, whatever the clock reference was before it.
pub proof fn lemma_dt_counts_from_reset(s: Pidvals, reset_at: u64, reading: u16, now: u64)
    ensures
        s.spec_reset(reset_at).spec_recompute(reading, now).dt == elapsed_ticks(now, reset_at),
        now >= reset_at ==> s.spec_reset(reset_at).spec_recompute(reading, now).dt == now
            - reset_at,
        s.spec_reset(reset_at).int_sum == 0,
{
}

} // verus!
