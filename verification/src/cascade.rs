//! Two-stage PID cascade, one per axis.
//!
//! The outer (orientation) loop turns an attitude error into a desired
//! angular rate; the inner (rate) loop turns the rate error into a torque
//! demand. Neither stage clamps its output — saturation happens once, at
//! the motor mixer — but both stages keep their integral state bounded.

use vstd::prelude::*;
use crate::config::{AxisConfig, Configuration};
use crate::pid::{
    ERROR_LIMIT, PidState, lemma_pid_output_bound, lemma_pid_quiescent, pid_next_state, pid_output,
};

verus! {

/// Largest attitude magnitude (fixed-point angle units) the cascade accepts,
/// for both measured and desired angles.
pub const ATTITUDE_LIMIT: i32 = 100_000;

/// Largest measured angular-rate magnitude the cascade accepts.
pub const RATE_LIMIT: i32 = 10_000_000;

/// Largest magnitude an outer-loop error can reach: desired angle plus trim
/// minus measured angle, with room to spare.
pub const OUTER_ERROR_LIMIT: i64 = 300_000;

/// Largest torque-demand magnitude the cascade can emit; the mixer relies
/// on this bound.
pub const TORQUE_LIMIT: i64 = 100_000_000_000_000;

/// Controller state for one axis: the two PID stages.
#[derive(Clone, Copy, Debug, PartialEq, Eq, Structural)]
pub struct AxisState {
    pub orientation: PidState,
    pub rate: PidState,
}

impl AxisState {
    /// Both stages within bounds; the outer stage has only ever seen
    /// attitude-scale errors.
    pub open spec fn wf(self) -> bool {
        &&& self.orientation.wf_within(OUTER_ERROR_LIMIT as int)
        &&& self.rate.wf_within(ERROR_LIMIT as int)
    }

    /// The state of a freshly constructed axis controller.
    pub open spec fn reset_spec() -> AxisState {
        AxisState { orientation: PidState::reset_spec(), rate: PidState::reset_spec() }
    }

    /// A freshly reset axis controller: no integral history on either loop.
    pub fn reset() -> (s: AxisState)
        ensures
            s == AxisState::reset_spec(),
    {
        AxisState { orientation: PidState::reset(), rate: PidState::reset() }
    }
}

/// The outer-loop error: desired angle plus trim, minus measured angle.
pub open spec fn outer_error(cfg: AxisConfig, desired: int, measured: int) -> int {
    desired + cfg.trim - measured
}

/// The desired angular rate the outer loop commands.
pub open spec fn desired_rate_spec(cfg: AxisConfig, s: AxisState, desired: int, measured: int) -> int {
    pid_output(cfg.orientation, s.orientation, outer_error(cfg, desired, measured))
}

/// The torque demand one full cascade cycle emits.
pub open spec fn torque_spec(
    cfg: AxisConfig,
    s: AxisState,
    desired: int,
    measured: int,
    rate: int,
) -> int {
    pid_output(cfg.rate, s.rate, desired_rate_spec(cfg, s, desired, measured) - rate)
}

/// The axis state after one full cascade cycle.
pub open spec fn axis_next_spec(
    cfg: AxisConfig,
    s: AxisState,
    desired: int,
    measured: int,
    rate: int,
) -> AxisState {
    AxisState {
        orientation: pid_next_state(s.orientation, outer_error(cfg, desired, measured)),
        rate: pid_next_state(s.rate, desired_rate_spec(cfg, s, desired, measured) - rate),
    }
}

impl AxisState {
    /// Runs one cascade cycle for this axis: outer loop from attitude error
    /// to desired rate, inner loop from rate error to torque demand.
    pub fn step(&mut self, cfg: &AxisConfig, desired: i32, measured: i32, rate: i32) -> (torque:
        i64)
        requires
            cfg.wf(),
            old(self).wf(),
            -ATTITUDE_LIMIT <= desired <= ATTITUDE_LIMIT,
            -ATTITUDE_LIMIT <= measured <= ATTITUDE_LIMIT,
            -RATE_LIMIT <= rate <= RATE_LIMIT,
        ensures
            final(self).wf(),
            *final(self) == axis_next_spec(*cfg, *old(self), desired as int, measured as int, rate as int),
            torque == torque_spec(*cfg, *old(self), desired as int, measured as int, rate as int),
            -TORQUE_LIMIT <= torque <= TORQUE_LIMIT,
    {
        let outer_e: i64 = desired as i64 + cfg.trim as i64 - measured as i64;
        let desired_rate = self.orientation.next(&cfg.orientation, outer_e);
        proof {
            lemma_pid_output_bound(
                cfg.orientation,
                old(self).orientation,
                outer_e as int,
                OUTER_ERROR_LIMIT as int,
            );
        }
        let inner_e: i64 = desired_rate - rate as i64;
        let torque = self.rate.next(&cfg.rate, inner_e);
        proof {
            lemma_pid_output_bound(cfg.rate, old(self).rate, inner_e as int, ERROR_LIMIT as int);
        }
        torque
    }
}

/// Controller state for all three axes.
#[derive(Clone, Copy, Debug, PartialEq, Eq, Structural)]
pub struct CascadeController {
    pub roll: AxisState,
    pub pitch: AxisState,
    pub yaw: AxisState,
}

impl CascadeController {
    /// All three axis controllers within bounds.
    pub open spec fn wf(self) -> bool {
        self.roll.wf() && self.pitch.wf() && self.yaw.wf()
    }

    /// The state of a freshly constructed controller.
    pub open spec fn reset_spec() -> CascadeController {
        CascadeController {
            roll: AxisState::reset_spec(),
            pitch: AxisState::reset_spec(),
            yaw: AxisState::reset_spec(),
        }
    }

    /// A freshly reset controller: no integral history on any axis.
    pub fn reset() -> (c: CascadeController)
        ensures
            c == CascadeController::reset_spec(),
    {
        CascadeController {
            roll: AxisState::reset(),
            pitch: AxisState::reset(),
            yaw: AxisState::reset(),
        }
    }
}

/// The axis state after `n` cascade cycles with constant inputs, starting
/// from the reset state.
pub open spec fn axis_run(cfg: AxisConfig, desired: int, measured: int, rate: int, n: nat) -> AxisState
    decreases n,
{
    if n == 0 {
        AxisState::reset_spec()
    } else {
        axis_next_spec(cfg, axis_run(cfg, desired, measured, rate, (n - 1) as nat), desired, measured, rate)
    }
}

/// With zero error on both loops — the measured angle equals the desired
/// angle plus trim, and the measured rate is zero — a properly reset axis
/// controller emits zero torque on every cycle and accumulates no state:
/// nothing residual survives a re-arm.
pub proof fn lemma_zero_error_emits_zero(cfg: AxisConfig, desired: int, measured: int, n: nat)
    requires
        cfg.wf(),
        outer_error(cfg, desired, measured) == 0,
    ensures
        axis_run(cfg, desired, measured, 0, n) == AxisState::reset_spec(),
        torque_spec(cfg, axis_run(cfg, desired, measured, 0, n), desired, measured, 0) == 0,
    decreases n,
{
    if n > 0 {
        lemma_zero_error_emits_zero(cfg, desired, measured, (n - 1) as nat);
    }
    let s = AxisState::reset_spec();
    lemma_pid_quiescent(cfg.orientation);
    lemma_pid_quiescent(cfg.rate);
    assert(desired_rate_spec(cfg, s, desired, measured) == 0);
    assert(axis_next_spec(cfg, s, desired, measured, 0) == s);
}

} // verus!
