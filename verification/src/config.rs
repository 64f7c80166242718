//! The parts of the flight configuration file that the decision logic reads.

use vstd::prelude::*;

verus! {

/// Bus a peripheral is attached to.
#[derive(Clone, Copy, Debug, PartialEq, Eq, Structural)]
pub enum SerialCommunication {
    UART,
    I2C,
    SPI,
}

/// A configured peripheral: its model name and how it is attached.
#[derive(Clone, Debug)]
pub struct Sensor {
    pub name: String,
    pub update_rate: Option<i32>,
    pub serial: SerialCommunication,
    pub slave_address: u16,
}

/// The motor outputs.
#[derive(Clone, Debug)]
pub struct Motors {
    pub pins: Vec<u8>,
    pub serial_pwm: bool,
    pub serial_controller: Option<Sensor>,
}

/// Where the ground station listens.
#[derive(Clone, Debug)]
pub struct Networking {
    pub server_ip: String,
    pub server_port: i32,
}

/// Debugging switches.
#[derive(Clone, Copy, Debug, PartialEq, Eq, Structural)]
pub struct Debug {
    pub live_debugging: bool,
    pub debug_websocket_port: i32,
    pub logging: bool,
    pub motors_off: bool,
}

} // verus!
