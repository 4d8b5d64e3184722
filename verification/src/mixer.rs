//! Motor mixer for a quad-rotor "X" frame.
//!
//! Each motor receives the throttle plus a quarter of each torque demand,
//! signed by the motor's position: front-right is `+roll +pitch +yaw`,
//! front-left `-roll +pitch -yaw`, back-right `+roll -pitch -yaw` and
//! back-left `-roll -pitch +yaw`. The sum is then clamped to the PWM
//! peripheral's valid duty range — the single saturation point of the
//! whole pipeline.

use vstd::prelude::*;
use crate::cascade::TORQUE_LIMIT;
use crate::fixed::{clamp, clamp_i64, div_trunc, tdiv};

verus! {

/// Duty-cycle commands for the four motors.
#[derive(Clone, Copy, Debug, PartialEq, Eq, Structural)]
pub struct MotorCommand {
    pub front_right: u16,
    pub front_left: u16,
    pub back_right: u16,
    pub back_left: u16,
}

impl MotorCommand {
    /// All four duty cycles within the peripheral's range.
    pub open spec fn wf(self, max_duty: u16) -> bool {
        &&& self.front_right <= max_duty
        &&& self.front_left <= max_duty
        &&& self.back_right <= max_duty
        &&& self.back_left <= max_duty
    }

    /// The same duty on all four motors.
    pub open spec fn all_at(duty: u16) -> MotorCommand {
        MotorCommand { front_right: duty, front_left: duty, back_right: duty, back_left: duty }
    }

    /// A command holding every motor at the same duty, used for the safe
    /// idle output while disarmed.
    pub fn uniform(duty: u16) -> (cmd: MotorCommand)
        ensures
            cmd == MotorCommand::all_at(duty),
    {
        MotorCommand { front_right: duty, front_left: duty, back_right: duty, back_left: duty }
    }
}

/// One motor's duty: throttle plus a quarter of the signed torque sum,
/// clamped into `[0, max_duty]`.
pub open spec fn mixed(throttle: u16, max_duty: u16, torque_sum: int) -> int {
    clamp(throttle + tdiv(torque_sum, 4), 0, max_duty as int)
}

/// The full mixer output for the three torque demands.
pub open spec fn mix_spec(throttle: u16, max_duty: u16, roll: int, pitch: int, yaw: int) -> MotorCommand {
    MotorCommand {
        front_right: mixed(throttle, max_duty, roll + pitch + yaw) as u16,
        front_left: mixed(throttle, max_duty, -roll + pitch - yaw) as u16,
        back_right: mixed(throttle, max_duty, roll - pitch - yaw) as u16,
        back_left: mixed(throttle, max_duty, -roll - pitch + yaw) as u16,
    }
}

/// Computes one motor's duty from the signed torque sum.
fn mix_one(throttle: u16, max_duty: u16, torque_sum: i64) -> (duty: u16)
    requires
        -(3 * TORQUE_LIMIT) <= torque_sum <= 3 * TORQUE_LIMIT,
    ensures
        duty == mixed(throttle, max_duty, torque_sum as int),
{
    let quarter = div_trunc(torque_sum, 4);
    proof {
        crate::fixed::lemma_tdiv_bound(torque_sum as int, 4, 3 * TORQUE_LIMIT as int);
    }
    clamp_i64(throttle as i64 + quarter, 0, max_duty as i64) as u16
}

/// Mixes throttle and the three torque demands into four motor commands,
/// each clamped into `[0, max_duty]`.
pub fn mix(throttle: u16, max_duty: u16, roll: i64, pitch: i64, yaw: i64) -> (cmd: MotorCommand)
    requires
        -TORQUE_LIMIT <= roll <= TORQUE_LIMIT,
        -TORQUE_LIMIT <= pitch <= TORQUE_LIMIT,
        -TORQUE_LIMIT <= yaw <= TORQUE_LIMIT,
    ensures
        cmd == mix_spec(throttle, max_duty, roll as int, pitch as int, yaw as int),
        cmd.wf(max_duty),
{
    MotorCommand {
        front_right: mix_one(throttle, max_duty, roll + pitch + yaw),
        front_left: mix_one(throttle, max_duty, -roll + pitch - yaw),
        back_right: mix_one(throttle, max_duty, roll - pitch - yaw),
        back_left: mix_one(throttle, max_duty, -roll - pitch + yaw),
    }
}

/// With zero torque demands every motor receives exactly the throttle,
/// clamped into the valid duty range.
pub proof fn lemma_mix_zero_corrections(throttle: u16, max_duty: u16)
    ensures
        mix_spec(throttle, max_duty, 0, 0, 0) == MotorCommand::all_at(
            clamp(throttle as int, 0, max_duty as int) as u16,
        ),
{
    assert(tdiv(0, 4) == 0);
}

/// With a positive roll demand alone, the right-hand motors rise by a
/// quarter of it and the left-hand motors fall by a quarter of it, each
/// clamped into the valid duty range.
pub proof fn lemma_mix_roll_response(throttle: u16, max_duty: u16, roll: int)
    requires
        roll > 0,
    ensures
        mix_spec(throttle, max_duty, roll, 0, 0).front_right == clamp(
            throttle + roll / 4,
            0,
            max_duty as int,
        ),
        mix_spec(throttle, max_duty, roll, 0, 0).back_right == clamp(
            throttle + roll / 4,
            0,
            max_duty as int,
        ),
        mix_spec(throttle, max_duty, roll, 0, 0).front_left == clamp(
            throttle - roll / 4,
            0,
            max_duty as int,
        ),
        mix_spec(throttle, max_duty, roll, 0, 0).back_left == clamp(
            throttle - roll / 4,
            0,
            max_duty as int,
        ),
{
}

} // verus!
