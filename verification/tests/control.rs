use cute_copter::config::Configuration;
use cute_copter::mixer::{mix, MotorCommand};
use cute_copter::orchestrator::Orchestrator;
use cute_copter::pid::PidState;
use cute_copter::sensor::{quaternion_words, AttitudeSample, DesiredAttitude, FRAME_BYTES};
use cute_copter::state_machine::Copter;
use cute_copter::storage::{RamStorage, CONFIG_OFFSET, ERASE_BLOCK_BYTES};

const MEDIA_BYTES: usize = CONFIG_OFFSET + ERASE_BLOCK_BYTES;

fn level_sample() -> AttitudeSample {
    AttitudeSample { roll: 0, pitch: 0, yaw: 0, roll_rate: 0, pitch_rate: 0, yaw_rate: 0 }
}

#[test]
fn mixer_zero_corrections_is_throttle_only() {
    let cmd = mix(1200, 2000, 0, 0, 0);
    assert_eq!(cmd, MotorCommand { front_right: 1200, front_left: 1200, back_right: 1200, back_left: 1200 });
    // Throttle over the duty ceiling is clamped, still uniformly.
    let cmd = mix(2500, 2000, 0, 0, 0);
    assert_eq!(cmd, MotorCommand { front_right: 2000, front_left: 2000, back_right: 2000, back_left: 2000 });
}

#[test]
fn mixer_roll_response() {
    // Roll demand 400: right side rises by 100, left side falls by 100.
    let cmd = mix(1000, 2000, 400, 0, 0);
    assert_eq!(cmd.front_right, 1100);
    assert_eq!(cmd.back_right, 1100);
    assert_eq!(cmd.front_left, 900);
    assert_eq!(cmd.back_left, 900);
    // Near the bounds the response is clamped.
    let cmd = mix(50, 2000, 400, 0, 0);
    assert_eq!(cmd.front_right, 150);
    assert_eq!(cmd.front_left, 0);
    let cmd = mix(1990, 2000, 400, 0, 0);
    assert_eq!(cmd.front_right, 2000);
    assert_eq!(cmd.front_left, 1890);
}

#[test]
fn mixer_sign_pattern() {
    // Pitch demand raises the front pair, yaw demand the front-right and
    // back-left pair.
    let cmd = mix(1000, 2000, 0, 400, 0);
    assert_eq!(cmd.front_right, 1100);
    assert_eq!(cmd.front_left, 1100);
    assert_eq!(cmd.back_right, 900);
    assert_eq!(cmd.back_left, 900);
    let cmd = mix(1000, 2000, 0, 0, 400);
    assert_eq!(cmd.front_right, 1100);
    assert_eq!(cmd.front_left, 900);
    assert_eq!(cmd.back_right, 900);
    assert_eq!(cmd.back_left, 1100);
}

#[test]
fn pid_exact_output() {
    // Gains 0.5/0.5/0.5 at scale 1000; error -1000 from reset state:
    // p = 500 * -1000, i = 500 * -1000, d = 500 * -1000; sum / 1000 = -1500.
    let mut pid = PidState { integral: 0, prev_error: 0 };
    let gains = Configuration::default().roll.orientation;
    assert_eq!(pid.next(&gains, -1000), -1500);
    assert_eq!(pid.integral, -1000);
    assert_eq!(pid.prev_error, -1000);
    // Second identical error: integral deepens, derivative term vanishes.
    // p = -500000, i = 500 * -2000 = -1000000, d = 0; sum / 1000 = -1500.
    assert_eq!(pid.next(&gains, -1000), -1500);
    assert_eq!(pid.integral, -2000);
}

#[test]
fn control_cycle_exact_values() {
    // Default gains, roll measured at 1000, everything else level:
    // outer loop emits -1500, inner loop emits -2250, and the mixer moves
    // each motor by 2250 / 4 = 562 from the throttle.
    let mut copter = Copter::from_config(Configuration::default());
    let sample = AttitudeSample { roll: 1000, ..level_sample() };
    let cmd = copter.run_cycle(&sample, &DesiredAttitude::default(), 1000, 2000);
    assert_eq!(cmd.front_right, 438);
    assert_eq!(cmd.back_right, 438);
    assert_eq!(cmd.front_left, 1562);
    assert_eq!(cmd.back_left, 1562);
}

#[test]
fn trim_shifts_the_attitude_target() {
    // A roll trim equal to the measured roll angle cancels the error, so
    // the cycle is torque-free.
    let mut copter = Copter::from_config(Configuration::default());
    copter.set_parameter(6, 1000).unwrap();
    let sample = AttitudeSample { roll: 1000, ..level_sample() };
    let cmd = copter.run_cycle(&sample, &DesiredAttitude::default(), 1000, 2000);
    assert_eq!(cmd, MotorCommand { front_right: 1000, front_left: 1000, back_right: 1000, back_left: 1000 });
}

#[test]
fn zero_error_cycles_stay_quiescent() {
    // With zero error on both loops, a freshly armed controller emits
    // throttle-only commands cycle after cycle: no residual creeps in.
    let mut copter = Copter::from_config(Configuration::default());
    for _ in 0..10 {
        let cmd = copter.run_cycle(&level_sample(), &DesiredAttitude::default(), 1200, 2000);
        assert_eq!(
            cmd,
            MotorCommand { front_right: 1200, front_left: 1200, back_right: 1200, back_left: 1200 }
        );
    }
}

#[test]
fn rearm_resets_integral_state() {
    let mut store = RamStorage::new(MEDIA_BYTES);
    let mut copter = Copter::from_config(Configuration::default());
    // Accumulate controller state with a large attitude error.
    let tilted = AttitudeSample { roll: 50_000, pitch: -30_000, ..level_sample() };
    for _ in 0..5 {
        copter.run_cycle(&tilted, &DesiredAttitude::default(), 1000, 2000);
    }
    // Arming constructs fresh controllers: the first armed cycle behaves
    // exactly like a first cycle ever.
    let mut armed = copter.arm(&mut store).map_err(|(_, e)| e).unwrap();
    let sample = AttitudeSample { roll: 1000, ..level_sample() };
    let cmd = armed.run_cycle(&sample, &DesiredAttitude::default(), 1000, 2000);
    assert_eq!(cmd.front_right, 438);
    assert_eq!(cmd.front_left, 1562);
}

#[test]
fn orchestrator_short_fifo_keeps_awaiting() {
    let mut orch = Orchestrator::new();
    // Ten buffered bytes are less than one 28-byte frame: not ready, and
    // the orchestrator keeps polling rather than computing or emitting.
    assert!(!orch.poll_sensor(10));
    assert!(!orch.poll_sensor(0));
    assert!(!orch.poll_sensor(FRAME_BYTES - 1));
    assert!(orch.poll_sensor(FRAME_BYTES));
}

#[test]
fn orchestrator_failed_decode_restarts_cycle() {
    let mut orch = Orchestrator::new();
    let mut copter = Copter::from_config(Configuration::default());
    assert!(orch.poll_sensor(28));
    let cmd = orch.compute(&mut copter, None, &DesiredAttitude::default(), 1000, 2000);
    assert_eq!(cmd, None);
    // The cycle is back at the polling phase.
    assert!(orch.poll_sensor(28));
}

#[test]
fn orchestrator_disarmed_emits_safe_idle() {
    let mut orch = Orchestrator::new();
    let mut copter = Copter::from_config(Configuration::default());
    assert!(orch.poll_sensor(28));
    let tilted = AttitudeSample { roll: 20_000, ..level_sample() };
    let cmd = orch
        .compute(&mut copter, Some(tilted), &DesiredAttitude::default(), 1000, 2000)
        .unwrap();
    // The mix result exists (telemetry may use it), but the hardware gets
    // the idle duty on every channel while disarmed.
    assert_ne!(cmd, MotorCommand { front_right: 400, front_left: 400, back_right: 400, back_left: 400 });
    let out = orch.emit_disarmed(400);
    assert_eq!(out, MotorCommand { front_right: 400, front_left: 400, back_right: 400, back_left: 400 });
}

#[test]
fn armed_first_cycle_is_throttle_only() {
    // Freshly armed with the default configuration against a healthy
    // store, a zero desired attitude and a zero measured attitude yield a
    // throttle-only command on all four motors.
    let mut store = RamStorage::new(MEDIA_BYTES);
    let copter = Copter::from_config(Configuration::default());
    let mut armed = copter.arm(&mut store).map_err(|(_, e)| e).unwrap();

    let mut orch = Orchestrator::new();
    assert!(orch.poll_sensor(28));
    let cmd = orch
        .compute(&mut armed, Some(level_sample()), &DesiredAttitude::default(), 900, 2000)
        .unwrap();
    let out = orch.emit_armed(&cmd);
    assert_eq!(out, MotorCommand { front_right: 900, front_left: 900, back_right: 900, back_left: 900 });
}

#[test]
fn quaternion_words_exact() {
    let mut frame = [0u8; FRAME_BYTES];
    frame[0] = 0x01;
    frame[1] = 0x02;
    frame[2] = 0x03;
    frame[3] = 0x04;
    frame[4] = 0x80; // second word: sign bit set
    frame[12] = 0xFF;
    frame[13] = 0xFF;
    frame[14] = 0xFF;
    frame[15] = 0xFF;
    let words = quaternion_words(&frame);
    assert_eq!(words.len(), 4);
    assert_eq!(words[0], 0x01020304);
    assert_eq!(words[1], i32::MIN);
    assert_eq!(words[2], 0);
    assert_eq!(words[3], -1);
}

#[test]
fn pid_integral_clamps_at_limit() {
    // Anti-windup: the accumulator never leaves [-10^9, 10^9].
    let mut pid = PidState { integral: 999_999_500, prev_error: 0 };
    let gains = Configuration::default().roll.rate;
    let out = pid.next(&gains, 1_000_000);
    assert_eq!(pid.integral, 1_000_000_000);
    // p = 500e6, i = 500e9, d = 500e6, all scaled down by 1000.
    assert_eq!(out, 501_000_000);
}

#[test]
fn desired_attitude_defaults_to_level() {
    let d = DesiredAttitude::default();
    assert_eq!((d.roll, d.pitch, d.yaw), (0, 0, 0));
}

#[test]
fn mixer_combined_demands() {
    // roll 400, pitch 800, yaw 1200: fr gets (400+800+1200)/4 = +600,
    // fl gets (-400+800-1200)/4 = -200, br (400-800-1200)/4 = -400,
    // bl (-400-800+1200)/4 = 0.
    let cmd = mix(1000, 2000, 400, 800, 1200);
    assert_eq!(cmd.front_right, 1600);
    assert_eq!(cmd.front_left, 800);
    assert_eq!(cmd.back_right, 600);
    assert_eq!(cmd.back_left, 1000);
}
