//! Control cycle orchestrator.
//!
//! One control cycle walks three phases, repeating indefinitely: await a
//! full sensor frame, compute torques and motor commands, emit. The
//! surrounding task performs the actual sensor and PWM I/O and hands the
//! results in; the orchestrator decides, and its phase machine makes the
//! order binding — each step demands the phase the previous one
//! established, so no motor command can be emitted before a full frame
//! arrived and was computed on.
//!
//! A short or malformed frame is not an error: the cycle simply re-enters
//! the awaiting phase rather than fabricating a sample, since a stale zero
//! attitude fed into the cascade would command incorrect torque.

use vstd::prelude::*;
use crate::mixer::MotorCommand;
use crate::sensor::{AttitudeSample, DesiredAttitude, FRAME_BYTES};
use crate::state_machine::{Copter, cycle_next, cycle_output};

verus! {

/// Where in the cycle the orchestrator stands.
#[derive(Clone, Copy, Debug, PartialEq, Eq, Structural)]
pub enum Phase {
    /// Waiting for the sensor to buffer one full frame.
    AwaitingSample,
    /// A frame is available; the cascade and mixer run next.
    Computing,
    /// A motor command is ready to be handed to the PWM peripheral.
    Emitting,
}

/// The cycle state machine.
pub struct Orchestrator {
    phase: Phase,
}

impl Orchestrator {
    /// The current phase.
    pub closed spec fn spec_phase(&self) -> Phase {
        self.phase
    }

    /// A fresh orchestrator, awaiting its first frame.
    pub fn new() -> (o: Orchestrator)
        ensures
            o.spec_phase() == Phase::AwaitingSample,
    {
        Orchestrator { phase: Phase::AwaitingSample }
    }

    /// Considers the sensor's buffered byte count. Only a full frame moves
    /// the cycle forward: on a short count the orchestrator stays awaiting
    /// and nothing downstream — no computation, no motor command — can run.
    pub fn poll_sensor(&mut self, available: usize) -> (ready: bool)
        requires
            old(self).spec_phase() == Phase::AwaitingSample,
        ensures
            ready <==> available >= FRAME_BYTES,
            ready ==> final(self).spec_phase() == Phase::Computing,
            !ready ==> final(self).spec_phase() == Phase::AwaitingSample,
    {
        if available >= FRAME_BYTES {
            self.phase = Phase::Computing;
            true
        } else {
            false
        }
    }

    /// Runs the computing phase on the decoded frame. A failed decode
    /// (`None`) returns the cycle to awaiting with the controller state
    /// untouched; a sample advances the copter one control cycle and
    /// readies its command for emission.
    pub fn compute<State>(
        &mut self,
        copter: &mut Copter<State>,
        decoded: Option<AttitudeSample>,
        desired: &DesiredAttitude,
        throttle: u16,
        max_duty: u16,
    ) -> (cmd: Option<MotorCommand>)
        requires
            old(self).spec_phase() == Phase::Computing,
            old(copter).wf(),
            desired.wf(),
            decoded matches Some(sample) ==> sample.wf(),
        ensures
            final(copter).wf(),
            final(copter).spec_config() == old(copter).spec_config(),
            decoded is None ==> cmd is None && final(self).spec_phase() == Phase::AwaitingSample
                && final(copter).spec_cascade() == old(copter).spec_cascade(),
            decoded matches Some(sample) ==> final(self).spec_phase() == Phase::Emitting && cmd
                == Some(
                cycle_output(
                    old(copter).spec_config(),
                    old(copter).spec_cascade(),
                    sample,
                    *desired,
                    throttle,
                    max_duty,
                ),
            ) && final(copter).spec_cascade() == cycle_next(
                old(copter).spec_config(),
                old(copter).spec_cascade(),
                sample,
                *desired,
            ),
    {
        match decoded {
            None => {
                self.phase = Phase::AwaitingSample;
                None
            },
            Some(sample) => {
                let cmd = copter.run_cycle(&sample, desired, throttle, max_duty);
                self.phase = Phase::Emitting;
                Some(cmd)
            },
        }
    }

    /// Emits while armed: the computed command goes to hardware unchanged,
    /// and the cycle returns to awaiting the next frame.
    pub fn emit_armed(&mut self, cmd: &MotorCommand) -> (out: MotorCommand)
        requires
            old(self).spec_phase() == Phase::Emitting,
        ensures
            out == *cmd,
            final(self).spec_phase() == Phase::AwaitingSample,
    {
        self.phase = Phase::AwaitingSample;
        *cmd
    }

    /// Emits while disarmed: every motor is held at the safe idle duty and
    /// the computed mix never reaches hardware.
    pub fn emit_disarmed(&mut self, idle_duty: u16) -> (out: MotorCommand)
        requires
            old(self).spec_phase() == Phase::Emitting,
        ensures
            out == MotorCommand::all_at(idle_duty),
            final(self).spec_phase() == Phase::AwaitingSample,
    {
        self.phase = Phase::AwaitingSample;
        MotorCommand::uniform(idle_duty)
    }
}

} // verus!
