//! Flight-stabilization core for a small quad-rotor aircraft.
//!
//! The crate turns attitude and angular-rate estimates into per-motor duty
//! cycles while enforcing that the tunable configuration cannot change while
//! the vehicle is armed, and that the configuration survives power loss.
//! All control arithmetic is fixed-point: a value `v` stands for `v / 1000`
//! of the underlying physical unit.

pub mod cascade;
pub mod codec;
pub mod config;
pub mod fixed;
pub mod mixer;
pub mod orchestrator;
pub mod pid;
pub mod sensor;
pub mod state_machine;
pub mod storage;
