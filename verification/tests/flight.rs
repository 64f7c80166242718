use safeflight::flight::{
    AttitudeSetpoint, ControlLoop, FlightState, NavigationInstructions, Navigator, POWERED_THRUST,
};
use safeflight::hardware::MotorCommand;

fn level() -> NavigationInstructions {
    NavigationInstructions { desired_attitude: AttitudeSetpoint::Level, desired_thrust: 0 }
}

#[test]
fn idle_navigator_asks_for_nothing() {
    let mut navigator: Navigator<u32> = Navigator::new();
    let (instructions, command) = navigator.update::<u32>(None);
    assert_eq!(instructions, level());
    assert_eq!(command, None);
}

#[test]
fn first_path_arms_the_motors() {
    let mut navigator: Navigator<u32> = Navigator::new();
    let (instructions, command) = navigator.update::<u32>(Some(vec![1, 2, 3]));
    assert_eq!(command, Some(MotorCommand::Arm));
    assert_eq!(
        instructions,
        NavigationInstructions { desired_attitude: AttitudeSetpoint::Current, desired_thrust: 1000 }
    );
    assert_eq!(POWERED_THRUST, 1000);
}

#[test]
fn powered_navigator_keeps_asking_for_thrust_without_new_path() {
    let mut navigator: Navigator<u32> = Navigator::new();
    navigator.update::<u32>(Some(vec![1]));
    let (instructions, command) = navigator.update::<u32>(None);
    assert_eq!(instructions.desired_thrust, POWERED_THRUST);
    assert_eq!(command, None);
}

#[test]
fn second_path_takes_off() {
    let mut navigator: Navigator<u32> = Navigator::new();
    navigator.update::<u32>(Some(vec![1]));
    let (instructions, command) = navigator.update::<u32>(Some(vec![2]));
    assert_eq!(instructions, level());
    assert_eq!(command, None);
    let (_, command) = navigator.update::<u32>(Some(vec![3]));
    assert_eq!(command, None);
}

#[test]
fn switching_off_powers_down_and_the_next_path_arms_again() {
    let mut navigator: Navigator<u32> = Navigator::new();
    navigator.update::<u32>(Some(vec![1]));
    assert_eq!(navigator.set_off::<u32>(), MotorCommand::PowerDown);
    let (_, command) = navigator.update::<u32>(None);
    assert_eq!(command, None);
    let (_, command) = navigator.update::<u32>(Some(vec![4]));
    assert_eq!(command, Some(MotorCommand::Arm));
}

#[test]
fn set_power_arms() {
    let mut navigator: Navigator<u32> = Navigator::new();
    assert_eq!(navigator.set_power::<u32>(), MotorCommand::Arm);
    let (instructions, _) = navigator.update::<u32>(None);
    assert_eq!(instructions.desired_attitude, AttitudeSetpoint::Current);
}

#[test]
fn flight_states_are_distinct() {
    assert_ne!(FlightState::Off, FlightState::Powered);
}

#[test]
fn telemetry_every_third_cycle() {
    let mut schedule = ControlLoop::new();
    let reports: Vec<bool> = (0..7).map(|_| schedule.next_cycle()).collect();
    assert_eq!(reports, vec![true, false, false, true, false, false, true]);
}
