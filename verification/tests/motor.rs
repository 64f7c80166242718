use safeflight::motor::{
    limit_power, pin_powers, pwm_range, set_power, set_tethered_power, MotorManager, MAX_VALUE,
    MIN_VALUE,
};

#[test]
fn flight_pulses_are_limited() {
    assert_eq!(set_power(500), MIN_VALUE);
    assert_eq!(set_power(1000), 1000);
    assert_eq!(set_power(1500), 1500);
    assert_eq!(set_power(2000), 2000);
    assert_eq!(set_power(2500), MAX_VALUE);
    assert_eq!(set_power(u32::MAX), 2000);
}

#[test]
fn tethered_pulses_are_limited() {
    assert_eq!(set_tethered_power(1000), 1100);
    assert_eq!(set_tethered_power(1500), 1500);
    assert_eq!(set_tethered_power(1990), 1975);
}

#[test]
fn limiting_is_idempotent_and_monotone() {
    for power in (0..3000).step_by(7) {
        let once = limit_power(power, 1000, 2000);
        assert!((1000..=2000).contains(&once));
        assert_eq!(limit_power(once, 1000, 2000), once);
        assert!(limit_power(power + 1, 1000, 2000) >= once);
    }
}

#[test]
fn pwm_range_counts_microseconds() {
    assert_eq!(pwm_range(50), 20_000);
    assert_eq!(pwm_range(400), 2_500);
    assert_eq!(pwm_range(3), 333_333);
}

#[test]
fn motors_keep_their_order() {
    let mut manager = MotorManager::new();
    assert_eq!(manager.quad_pins(), None);
    manager.new_motor(19);
    manager.new_motor(20);
    manager.new_motor(21);
    assert_eq!(manager.quad_pins(), None);
    manager.new_motor(26);
    assert_eq!(manager.motors, vec![19, 20, 21, 26]);
    assert_eq!(manager.quad_pins(), Some((19, 20, 21, 26)));
}

#[test]
fn powers_are_paired_with_pins() {
    assert_eq!(
        pin_powers(&vec![4, 5, 6, 7], [1.0, 2.0, 3.0, 4.0]),
        vec![(4, 1.0), (5, 2.0), (6, 3.0), (7, 4.0)]
    );
    assert_eq!(pin_powers(&vec![9, 8], [10, 20, 30, 40]), vec![(9, 10), (8, 20)]);
    assert_eq!(pin_powers(&Vec::new(), [1, 2, 3, 4]), Vec::<(u8, i32)>::new());
}
