//! Flight modes, the navigation state machine and the schedule of the
//! control loop.

use vstd::prelude::*;

use crate::hardware::MotorCommand;

verus! {

/// The mode the flight controller is asked to fly in.
#[derive(Clone, Copy, Debug, PartialEq, Eq, Structural)]
pub enum FlightMode {
    Shutdown,
    Off,
    TakeOff,
    Landing,
    Hold,
}

/// The state of the navigator.
#[derive(Clone, Copy, Debug, PartialEq, Eq, Structural)]
pub enum FlightState {
    Off,
    Powered,
    Takeoff,
    Landing,
    Navigating,
}

/// The attitude the navigator asks for.
#[derive(Clone, Copy, Debug, PartialEq, Eq, Structural)]
pub enum AttitudeSetpoint {
    /// The identity rotation: level, facing the start heading.
    Level,
    /// The attitude the state estimate currently has.
    Current,
}

/// What the navigator asks the attitude controller for.
#[derive(Clone, Copy, Debug, PartialEq, Eq, Structural)]
pub struct NavigationInstructions {
    pub desired_attitude: AttitudeSetpoint,
    pub desired_thrust: u32,
}

/// Thrust asked for while the motors are powered but the craft is grounded.
pub const POWERED_THRUST: u32 = 1000;

/// The state after a step in which a new path did or did not arrive.
pub open spec fn state_after_path(state: FlightState, new_path: bool) -> FlightState {
    if !new_path {
        state
    } else {
        match state {
            FlightState::Off => FlightState::Powered,
            FlightState::Powered => FlightState::Takeoff,
            FlightState::Landing => FlightState::Takeoff,
            _ => state,
        }
    }
}

/// The instructions handed out in a state.
pub open spec fn instructions_for(state: FlightState) -> NavigationInstructions {
    match state {
        FlightState::Powered => NavigationInstructions {
            desired_attitude: AttitudeSetpoint::Current,
            desired_thrust: POWERED_THRUST,
        },
        _ => NavigationInstructions { desired_attitude: AttitudeSetpoint::Level, desired_thrust: 0 },
    }
}

/// Follows a path of waypoints of type `P`.
pub struct Navigator<P> {
    state: FlightState,
    path: Vec<P>,
}

impl<P> Navigator<P> {
    pub closed spec fn flight_state(&self) -> FlightState {
        self.state
    }

    pub closed spec fn path(&self) -> Seq<P> {
        self.path@
    }

    /// A navigator with its motors off and no path.
    pub fn new() -> (navigator: Navigator<P>)
        ensures
            navigator.flight_state() == FlightState::Off,
            navigator.path() == Seq::<P>::empty(),
    {
        Navigator { state: FlightState::Off, path: Vec::new() }
    }

    /// One navigation step. A newly received path replaces the current one
    /// and advances the state: off becomes powered (arming the motors),
    /// powered and landing become take off. The instructions then follow the
    /// state; the motor command, if any, is for the motor controller.
    pub fn update<Q>(&mut self, new_path: Option<Vec<P>>) -> (r: (
        NavigationInstructions,
        Option<MotorCommand<Q>>,
    ))
        ensures
            final(self).flight_state() == state_after_path(
                old(self).flight_state(),
                new_path is Some,
            ),
            final(self).path() == (match new_path {
                Some(path) => path@,
                None => old(self).path(),
            }),
            r.1 == (if new_path is Some && old(self).flight_state() == FlightState::Off {
                Some(MotorCommand::<Q>::Arm)
            } else {
                None::<MotorCommand<Q>>
            }),
            r.0 == instructions_for(final(self).flight_state()),
    {
        let mut command: Option<MotorCommand<Q>> = None;
        match new_path {
            Some(path) => {
                self.path = path;
                match self.state {
                    FlightState::Off => {
                        command = Some(self.set_power());
                    },
                    FlightState::Powered => {
                        self.state = FlightState::Takeoff;
                    },
                    FlightState::Landing => {
                        self.state = FlightState::Takeoff;
                    },
                    _ => {},
                }
            },
            None => {},
        }
        let instructions = match self.state {
            FlightState::Off => self.handle_off(),
            FlightState::Powered => self.handle_powered(),
            FlightState::Takeoff => self.handle_takeoff(),
            FlightState::Landing => self.handle_landing(),
            FlightState::Navigating => self.handle_navigation(),
        };
        (instructions, command)
    }

    fn handle_off(&self) -> (r: NavigationInstructions)
        ensures
            r == instructions_for(FlightState::Off),
    {
        NavigationInstructions { desired_attitude: AttitudeSetpoint::Level, desired_thrust: 0 }
    }

    fn handle_powered(&self) -> (r: NavigationInstructions)
        ensures
            r == instructions_for(FlightState::Powered),
    {
        NavigationInstructions {
            desired_attitude: AttitudeSetpoint::Current,
            desired_thrust: POWERED_THRUST,
        }
    }

    fn handle_takeoff(&self) -> (r: NavigationInstructions)
        ensures
            r == instructions_for(FlightState::Takeoff),
    {
        NavigationInstructions { desired_attitude: AttitudeSetpoint::Level, desired_thrust: 0 }
    }

    fn handle_landing(&self) -> (r: NavigationInstructions)
        ensures
            r == instructions_for(FlightState::Landing),
    {
        NavigationInstructions { desired_attitude: AttitudeSetpoint::Level, desired_thrust: 0 }
    }

    fn handle_navigation(&self) -> (r: NavigationInstructions)
        ensures
            r == instructions_for(FlightState::Navigating),
    {
        NavigationInstructions { desired_attitude: AttitudeSetpoint::Level, desired_thrust: 0 }
    }

    /// Switches the motors off.
    pub fn set_off<Q>(&mut self) -> (command: MotorCommand<Q>)
        ensures
            command == MotorCommand::<Q>::PowerDown,
            final(self).flight_state() == FlightState::Off,
            final(self).path() == old(self).path(),
    {
        self.state = FlightState::Off;
        MotorCommand::PowerDown
    }

    /// Arms the motors.
    pub fn set_power<Q>(&mut self) -> (command: MotorCommand<Q>)
        ensures
            command == MotorCommand::<Q>::Arm,
            final(self).flight_state() == FlightState::Powered,
            final(self).path() == old(self).path(),
    {
        self.state = FlightState::Powered;
        MotorCommand::Arm
    }
}

/// Once the motors are on, no navigation step switches them off again.
pub proof fn lemma_update_never_switches_off(state: FlightState, new_path: bool)
    requires
        state != FlightState::Off,
    ensures
        state_after_path(state, new_path) != FlightState::Off,
{
}

/// A navigation step never enters the navigating state; only a navigator
/// already navigating is in it afterwards.
pub proof fn lemma_update_never_starts_navigating(state: FlightState, new_path: bool)
    ensures
        state_after_path(state, new_path) == FlightState::Navigating ==> state
            == FlightState::Navigating,
{
}

/// The navigator asks for thrust exactly while it is powered on the ground,
/// and then it holds the current attitude.
pub proof fn lemma_thrust_only_when_powered(state: FlightState)
    ensures
        instructions_for(state).desired_thrust != 0 <==> state == FlightState::Powered,
        instructions_for(state).desired_attitude == AttitudeSetpoint::Current <==> state
            == FlightState::Powered,
{
}

/// Two paths received by a navigator whose motors are off bring it to take
/// off, arming the motors on the way.
pub proof fn lemma_two_paths_take_off()
    ensures
        state_after_path(state_after_path(FlightState::Off, true), true) == FlightState::Takeoff,
{
}

/// A new path changes the state only from off (to powered), from powered
/// (to take off) and from landing (to take off); a navigator taking off or
/// navigating keeps its state, no step enters the powered state except from
/// off or powered, and a step without a new path changes nothing. Taking off,
/// the navigator asks for a level attitude and no thrust.
pub proof fn lemma_path_transitions(state: FlightState, new_path: bool)
    ensures
        state == FlightState::Takeoff ==> state_after_path(state, new_path) == FlightState::Takeoff,
        state == FlightState::Navigating ==> state_after_path(state, new_path)
            == FlightState::Navigating,
        state_after_path(state, new_path) == FlightState::Powered ==> (state == FlightState::Off
            || state == FlightState::Powered),
        new_path && state == FlightState::Off ==> state_after_path(state, new_path)
            == FlightState::Powered,
        new_path && (state == FlightState::Powered || state == FlightState::Landing)
            ==> state_after_path(state, new_path) == FlightState::Takeoff,
        !new_path ==> state_after_path(state, new_path) == state,
        instructions_for(FlightState::Takeoff).desired_attitude == AttitudeSetpoint::Level,
        instructions_for(FlightState::Takeoff).desired_thrust == 0,
{
}

/// Every third cycle of the control loop, starting with the first, reports
/// the state to the ground station.
pub open spec fn reports_telemetry(count: int) -> bool {
    count % 3 == 0
}

/// The schedule of the control loop.
#[derive(Clone, Copy, Debug, PartialEq, Eq, Structural)]
pub struct ControlLoop {
    count: u64,
}

impl ControlLoop {
    /// The number of cycles run so far.
    pub closed spec fn cycles(self) -> nat {
        self.count as nat
    }

    /// The number of cycles started so far.
    pub fn cycles_run(&self) -> (n: u64)
        ensures
            n == self.cycles(),
    {
        self.count
    }

    pub fn new() -> (schedule: ControlLoop)
        ensures
            schedule.cycles() == 0,
    {
        ControlLoop { count: 0 }
    }

    /// Runs the bookkeeping of one cycle and tells whether it reports
    /// telemetry.
    pub fn next_cycle(&mut self) -> (report: bool)
        requires
            old(self).cycles() < u64::MAX,
        ensures
            report == reports_telemetry(old(self).cycles() as int),
            final(self).cycles() == old(self).cycles() + 1,
    {
        let report: bool = self.count % 3 == 0;
        self.count = self.count + 1;
        report
    }
}

} // verus!
