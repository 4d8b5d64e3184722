//! One discrete PID stage.
//!
//! Each instance keeps an integral accumulator and the previous error.
//! The output is `(kp * e + ki * integral + kd * (e - prev_error)) / SCALE`,
//! computed exactly in 64-bit integers; the integral accumulator is clamped
//! to [`INTEGRAL_LIMIT`] so that state stays bounded, but the output itself
//! is not clamped here — saturation happens once, at the motor mixer.

use vstd::prelude::*;
use crate::config::{AxisGains, GAIN_MAX};
use crate::fixed::{SCALE, clamp, clamp_i64, div_trunc, tdiv, lemma_mul_bound, lemma_tdiv_bound};

verus! {

/// Magnitude bound kept on the integral accumulator (anti-windup).
pub const INTEGRAL_LIMIT: i64 = 1_000_000_000;

/// Largest error magnitude a PID stage accepts; the cascade stays well
/// inside this for both loops.
pub const ERROR_LIMIT: i64 = 200_000_000_000;

/// Mutable state of one PID stage.
#[derive(Clone, Copy, Debug, PartialEq, Eq, Structural)]
pub struct PidState {
    pub integral: i64,
    pub prev_error: i64,
}

impl PidState {
    /// State within bounds, with the previous error no larger than
    /// `err_bound` in magnitude.
    pub open spec fn wf_within(self, err_bound: int) -> bool {
        &&& -INTEGRAL_LIMIT <= self.integral <= INTEGRAL_LIMIT
        &&& -err_bound <= self.prev_error <= err_bound
    }

    /// The state a freshly constructed stage starts from.
    pub open spec fn reset_spec() -> PidState {
        PidState { integral: 0, prev_error: 0 }
    }

    /// A freshly reset stage: zero integral, zero previous error.
    pub fn reset() -> (s: PidState)
        ensures
            s == PidState::reset_spec(),
    {
        PidState { integral: 0, prev_error: 0 }
    }
}

/// The integral accumulator after absorbing one error sample.
pub open spec fn pid_integral_next(s: PidState, error: int) -> int {
    clamp(s.integral + error, -INTEGRAL_LIMIT as int, INTEGRAL_LIMIT as int)
}

/// The state after one cycle: clamped integral, error remembered.
pub open spec fn pid_next_state(s: PidState, error: int) -> PidState
    recommends
        -ERROR_LIMIT <= error <= ERROR_LIMIT,
{
    PidState { integral: pid_integral_next(s, error) as i64, prev_error: error as i64 }
}

/// The output of one cycle: proportional, integral and derivative terms,
/// scaled back down by `SCALE` with truncation.
pub open spec fn pid_output(g: AxisGains, s: PidState, error: int) -> int {
    tdiv(
        g.kp * error + g.ki * pid_integral_next(s, error) + g.kd * (error - s.prev_error),
        SCALE as int,
    )
}

/// Worst-case output magnitude when the error and the previous error are
/// bounded by `err_bound`. `GAIN_MAX` is exactly `100 * SCALE`, so the
/// division by `SCALE` cancels.
pub open spec fn pid_output_bound(err_bound: int) -> int {
    100 * (3 * err_bound + INTEGRAL_LIMIT as int)
}

/// The PID output is bounded whenever gains, state and error are.
pub proof fn lemma_pid_output_bound(g: AxisGains, s: PidState, error: int, err_bound: int)
    requires
        g.wf(),
        err_bound >= 0,
        -INTEGRAL_LIMIT <= s.integral <= INTEGRAL_LIMIT,
        -err_bound <= s.prev_error <= err_bound,
        -err_bound <= error <= err_bound,
    ensures
        -pid_output_bound(err_bound) <= pid_output(g, s, error) <= pid_output_bound(err_bound),
{
    let i_next = pid_integral_next(s, error);
    lemma_mul_bound(error, g.kp as int, err_bound, GAIN_MAX as int);
    lemma_mul_bound(i_next, g.ki as int, INTEGRAL_LIMIT as int, GAIN_MAX as int);
    lemma_mul_bound(error - s.prev_error, g.kd as int, 2 * err_bound, GAIN_MAX as int);
    let sum = g.kp * error + g.ki * i_next + g.kd * (error - s.prev_error);
    assert(-(GAIN_MAX as int * (3 * err_bound + INTEGRAL_LIMIT as int)) <= sum <= GAIN_MAX as int
        * (3 * err_bound + INTEGRAL_LIMIT as int)) by (nonlinear_arith)
        requires
            -(err_bound * GAIN_MAX as int) <= g.kp * error <= err_bound * GAIN_MAX as int,
            -(INTEGRAL_LIMIT as int * GAIN_MAX as int) <= g.ki * i_next <= INTEGRAL_LIMIT as int
                * GAIN_MAX as int,
            -(2 * err_bound * GAIN_MAX as int) <= g.kd * (error - s.prev_error) <= 2 * err_bound
                * GAIN_MAX as int,
            sum == g.kp * error + g.ki * i_next + g.kd * (error - s.prev_error),
    ;
    assert(GAIN_MAX as int * (3 * err_bound + INTEGRAL_LIMIT as int) == pid_output_bound(
        err_bound,
    ) * SCALE as int) by (nonlinear_arith);
    lemma_tdiv_bound(sum, SCALE as int, pid_output_bound(err_bound));
}

/// A stage with no integral history fed a zero error emits zero and keeps
/// no history: each term of the output vanishes.
pub proof fn lemma_pid_quiescent(g: AxisGains)
    ensures
        pid_next_state(PidState::reset_spec(), 0) == PidState::reset_spec(),
        pid_output(g, PidState::reset_spec(), 0) == 0,
{
    assert(g.kp * 0 == 0) by (nonlinear_arith);
    assert(g.ki * 0 == 0) by (nonlinear_arith);
    assert(g.kd * 0 == 0) by (nonlinear_arith);
    assert(tdiv(0, SCALE as int) == 0);
}

impl PidState {
    /// Runs one PID cycle: absorbs `error`, returns the (unclamped) control
    /// output, and remembers the error for the next derivative term.
    pub fn next(&mut self, gains: &AxisGains, error: i64) -> (out: i64)
        requires
            gains.wf(),
            old(self).wf_within(ERROR_LIMIT as int),
            -ERROR_LIMIT <= error <= ERROR_LIMIT,
        ensures
            *final(self) == pid_next_state(*old(self), error as int),
            final(self).wf_within(ERROR_LIMIT as int),
            out == pid_output(*gains, *old(self), error as int),
    {
        let kp = gains.kp as i64;
        let ki = gains.ki as i64;
        let kd = gains.kd as i64;
        let integral = clamp_i64(self.integral + error, -INTEGRAL_LIMIT, INTEGRAL_LIMIT);
        let diff = error - self.prev_error;
        proof {
            lemma_mul_bound(error as int, kp as int, ERROR_LIMIT as int, GAIN_MAX as int);
            assert(ERROR_LIMIT as int * GAIN_MAX as int == 20_000_000_000_000_000)
                by (nonlinear_arith);
            lemma_mul_bound(integral as int, ki as int, INTEGRAL_LIMIT as int, GAIN_MAX as int);
            assert(INTEGRAL_LIMIT as int * GAIN_MAX as int == 100_000_000_000_000)
                by (nonlinear_arith);
            lemma_mul_bound(diff as int, kd as int, 2 * ERROR_LIMIT as int, GAIN_MAX as int);
            assert(2 * ERROR_LIMIT as int * GAIN_MAX as int == 40_000_000_000_000_000)
                by (nonlinear_arith);
        }
        let p = kp * error;
        let i = ki * integral;
        let d = kd * diff;
        let sum = p + i + d;
        self.integral = integral;
        self.prev_error = error;
        div_trunc(sum, SCALE)
    }
}

} // verus!
