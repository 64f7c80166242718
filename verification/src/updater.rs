//! Hooks of the updater daemon.

use vstd::prelude::*;

verus! {

/// Fetches a new flight controller build; the daemon has nothing to fetch
/// from yet.
pub fn update() {
}

/// Starts the flight controller under the daemon; not wired up yet.
pub fn start_flight_controller() {
}

/// Stops the flight controller under the daemon; not wired up yet.
pub fn stop_flight_controller() {
}

} // verus!
