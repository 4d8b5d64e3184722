//! Arming state machine.
//!
//! `Copter<State>` is the vehicle's authoritative control context,
//! parameterized by a phantom state tag. It owns the active configuration
//! by move; a state transition consumes the old instance and produces the
//! successor, so a stale handle cannot issue stale-state operations.
//!
//! Parameter access exists only on `Copter<Disarmed>` — the capability is
//! removed by the type itself, not guarded by a runtime flag, so writing a
//! parameter while armed is not a reachable program state. Arming persists
//! the configuration first and only transitions when the medium accepted
//! it; on failure the unchanged disarmed copter is handed back with the
//! error.

use vstd::prelude::*;
use core::marker::PhantomData;
use crate::cascade::{CascadeController, axis_next_spec, torque_spec};
use crate::config::{
    Configuration, ParamError, param_in_range, spec_param, spec_with_param, tag_supported,
};
use crate::mixer::{MotorCommand, mix, mix_spec};
use crate::sensor::{AttitudeSample, DesiredAttitude};
use crate::storage::{
    CONFIG_OFFSET, ERASE_BLOCK_BYTES, Storage, StoreError, load_spec, save_to_flash,
};

verus! {

/// State tag: motors disabled, parameters writable.
#[derive(Clone, Copy, Debug, Default, PartialEq, Eq)]
pub struct Disarmed;

/// State tag: motors live, configuration immutable.
#[derive(Clone, Copy, Debug, Default, PartialEq, Eq)]
pub struct Armed;

/// The vehicle's control context: the active configuration and the cascade
/// controller state, tagged by the arming state.
pub struct Copter<State> {
    config: Configuration,
    cascade: CascadeController,
    marker: PhantomData<State>,
}

/// The torque demands one control cycle computes, one per axis.
pub open spec fn cycle_torques(
    cfg: Configuration,
    cas: CascadeController,
    sample: AttitudeSample,
    desired: DesiredAttitude,
) -> (int, int, int) {
    (
        torque_spec(cfg.roll, cas.roll, desired.roll as int, sample.roll as int, sample.roll_rate as int),
        torque_spec(
            cfg.pitch,
            cas.pitch,
            desired.pitch as int,
            sample.pitch as int,
            sample.pitch_rate as int,
        ),
        torque_spec(cfg.yaw, cas.yaw, desired.yaw as int, sample.yaw as int, sample.yaw_rate as int),
    )
}

/// The cascade state after one control cycle.
pub open spec fn cycle_next(
    cfg: Configuration,
    cas: CascadeController,
    sample: AttitudeSample,
    desired: DesiredAttitude,
) -> CascadeController {
    CascadeController {
        roll: axis_next_spec(
            cfg.roll,
            cas.roll,
            desired.roll as int,
            sample.roll as int,
            sample.roll_rate as int,
        ),
        pitch: axis_next_spec(
            cfg.pitch,
            cas.pitch,
            desired.pitch as int,
            sample.pitch as int,
            sample.pitch_rate as int,
        ),
        yaw: axis_next_spec(
            cfg.yaw,
            cas.yaw,
            desired.yaw as int,
            sample.yaw as int,
            sample.yaw_rate as int,
        ),
    }
}

/// The motor command one control cycle emits.
pub open spec fn cycle_output(
    cfg: Configuration,
    cas: CascadeController,
    sample: AttitudeSample,
    desired: DesiredAttitude,
    throttle: u16,
    max_duty: u16,
) -> MotorCommand {
    let (roll, pitch, yaw) = cycle_torques(cfg, cas, sample, desired);
    mix_spec(throttle, max_duty, roll, pitch, yaw)
}

impl<State> Copter<State> {
    /// The configuration this context holds.
    pub closed spec fn spec_config(&self) -> Configuration {
        self.config
    }

    /// The cascade controller state this context holds.
    pub closed spec fn spec_cascade(&self) -> CascadeController {
        self.cascade
    }

    /// Configuration and controller state within bounds.
    pub open spec fn wf(&self) -> bool {
        self.spec_config().wf() && self.spec_cascade().wf()
    }

    /// Reads the active configuration.
    pub fn config(&self) -> (c: &Configuration)
        ensures
            *c == self.spec_config(),
    {
        &self.config
    }

    /// Runs one control cycle: the cascade per axis, then the mixer. The
    /// configuration is untouched; only the controller state advances.
    /// Available in either arming state — a disarmed vehicle may compute
    /// for telemetry and tuning — but the emitted command reaches hardware
    /// only through the orchestrator's armed path.
    pub fn run_cycle(
        &mut self,
        sample: &AttitudeSample,
        desired: &DesiredAttitude,
        throttle: u16,
        max_duty: u16,
    ) -> (cmd: MotorCommand)
        requires
            old(self).wf(),
            sample.wf(),
            desired.wf(),
        ensures
            final(self).wf(),
            final(self).spec_config() == old(self).spec_config(),
            final(self).spec_cascade() == cycle_next(
                old(self).spec_config(),
                old(self).spec_cascade(),
                *sample,
                *desired,
            ),
            cmd == cycle_output(
                old(self).spec_config(),
                old(self).spec_cascade(),
                *sample,
                *desired,
                throttle,
                max_duty,
            ),
            cmd.wf(max_duty),
    {
        let roll = self.cascade.roll.step(
            &self.config.roll,
            desired.roll,
            sample.roll,
            sample.roll_rate,
        );
        let pitch = self.cascade.pitch.step(
            &self.config.pitch,
            desired.pitch,
            sample.pitch,
            sample.pitch_rate,
        );
        let yaw = self.cascade.yaw.step(
            &self.config.yaw,
            desired.yaw,
            sample.yaw,
            sample.yaw_rate,
        );
        mix(throttle, max_duty, roll, pitch, yaw)
    }
}

impl Copter<Disarmed> {
    /// Enters the initial, disarmed state from a loaded or default
    /// configuration, with fresh controller state.
    pub fn from_config(config: Configuration) -> (c: Self)
        requires
            config.wf(),
        ensures
            c.spec_config() == config,
            c.spec_cascade() == CascadeController::reset_spec(),
            c.wf(),
    {
        Self { config, cascade: CascadeController::reset(), marker: PhantomData }
    }

    /// Writes one named parameter of the held configuration. Fails with
    /// `Unsupported` for a tag this schema does not define and with
    /// `OutOfRange` for a value outside the parameter's declared bounds;
    /// on either error nothing changes.
    pub fn set_parameter(&mut self, tag: u8, value: i64) -> (r: Result<(), ParamError>)
        requires
            old(self).wf(),
        ensures
            final(self).wf(),
            final(self).spec_cascade() == old(self).spec_cascade(),
            !tag_supported(tag) ==> r == Err::<(), ParamError>(ParamError::Unsupported)
                && final(self).spec_config() == old(self).spec_config(),
            tag_supported(tag) && !param_in_range(tag, value as int) ==> r == Err::<(),
                ParamError,
            >(ParamError::OutOfRange) && final(self).spec_config() == old(self).spec_config(),
            tag_supported(tag) && param_in_range(tag, value as int) ==> r == Ok::<(),
                ParamError,
            >(()) && final(self).spec_config() == spec_with_param(
                old(self).spec_config(),
                tag,
                value as int,
            ),
    {
        self.config.write_parameter(tag, value)
    }

    /// Reads one named parameter of the held configuration; `Unsupported`
    /// for a tag this schema does not define.
    pub fn read(&self, tag: u8) -> (r: Result<i64, ParamError>)
        ensures
            tag_supported(tag) ==> r == Ok::<i64, ParamError>(
                spec_param(self.spec_config(), tag) as i64,
            ),
            !tag_supported(tag) ==> r == Err::<i64, ParamError>(ParamError::Unsupported),
    {
        self.config.read_parameter(tag)
    }

    /// Persists the configuration, then transitions to `Armed` with freshly
    /// reset controllers, so no integral history is carried across flights.
    ///
    /// Arming never proceeds on a persistence failure: when the medium
    /// rejects the erase or the write, the unchanged disarmed copter comes
    /// back alongside the error and the caller decides whether to retry.
    pub fn arm<S: Storage>(self, store: &mut S) -> (r: Result<
        Copter<Armed>,
        (Copter<Disarmed>, StoreError),
    >)
        requires
            self.wf(),
            old(store).contents().len() >= CONFIG_OFFSET + ERASE_BLOCK_BYTES,
        ensures
            final(store).contents().len() == old(store).contents().len(),
            r matches Ok(armed) ==> armed.spec_config() == self.spec_config()
                && armed.spec_cascade() == CascadeController::reset_spec() && armed.wf()
                && load_spec(final(store).contents()) == self.spec_config(),
            r matches Err((disarmed, err)) ==> disarmed.spec_config() == self.spec_config()
                && disarmed.spec_cascade() == self.spec_cascade() && disarmed.wf() && (err
                == StoreError::EraseFailed || err == StoreError::WriteFailed),
    {
        match save_to_flash(store, &self.config) {
            Ok(()) => Ok(
                Copter { config: self.config, cascade: CascadeController::reset(), marker: PhantomData },
            ),
            Err(e) => Err((self, e)),
        }
    }
}

impl Copter<Armed> {
    /// Transitions back to `Disarmed`, which re-exposes parameter write
    /// access. Always succeeds; nothing is persisted — the configuration is
    /// still the one the vehicle armed with — and the controller state is
    /// kept, to be reset on the next arm.
    pub fn disarm(self) -> (c: Copter<Disarmed>)
        ensures
            c.spec_config() == self.spec_config(),
            c.spec_cascade() == self.spec_cascade(),
            self.wf() ==> c.wf(),
    {
        Copter { config: self.config, cascade: self.cascade, marker: PhantomData }
    }
}

} // verus!
