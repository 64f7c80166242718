//! Decision logic of a quadcopter flight stack: sensor selection and
//! configuration, raw sensor decoding, motor pulse limits, navigation state
//! and the schedules of the hardware and control loops.

pub mod config;
pub mod devices;
pub mod flight;
pub mod gps;
pub mod hardware;
pub mod motor;
pub mod sensor_manager;
pub mod sensors;
pub mod tasker;
pub mod updater;

use vstd::prelude::*;

verus! {

/// A request from the operator console to the flight program.
#[derive(Clone, Copy, Debug, PartialEq, Eq, Structural)]
pub enum Control {
    Terminate,
}

} // verus!
