use safeflight::devices::{
    AccelerometerUpdateRate, Bmp280Compensation, Bmp280PowerMode, Bmp280PressureOversampling,
    GyroscopeBandwidth, GyroscopeDataRate, GyroscopeHighPassFilterMode, HighPassFilterCutOff,
    MagnetometerUpdateRate,
};
use safeflight::hardware;
use safeflight::sensor_manager::{get_bmp280, get_lsm9ds0};

#[test]
fn slow_poll_rate_uses_slowest_gyroscope_rate() {
    let settings = get_lsm9ds0(50);
    assert_eq!(settings.gyroscope.data_rate, GyroscopeDataRate::Hz95);
    assert_eq!(settings.gyroscope.bandwidth, GyroscopeBandwidth::BW1);
}

#[test]
fn gyroscope_rate_thresholds() {
    assert_eq!(get_lsm9ds0(95).gyroscope.data_rate, GyroscopeDataRate::Hz95);
    assert_eq!(get_lsm9ds0(96).gyroscope.data_rate, GyroscopeDataRate::Hz190);
    assert_eq!(get_lsm9ds0(96).gyroscope.bandwidth, GyroscopeBandwidth::BW2);
    assert_eq!(get_lsm9ds0(190).gyroscope.data_rate, GyroscopeDataRate::Hz190);
    assert_eq!(get_lsm9ds0(191).gyroscope.data_rate, GyroscopeDataRate::Hz380);
    assert_eq!(get_lsm9ds0(380).gyroscope.bandwidth, GyroscopeBandwidth::BW3);
    assert_eq!(get_lsm9ds0(381).gyroscope.data_rate, GyroscopeDataRate::Hz760);
    assert_eq!(get_lsm9ds0(10_000).gyroscope.bandwidth, GyroscopeBandwidth::BW4);
    assert_eq!(get_lsm9ds0(-5).gyroscope.data_rate, GyroscopeDataRate::Hz95);
}

#[test]
fn gyroscope_rate_never_falls_as_poll_rate_rises() {
    let rank = |rate: GyroscopeDataRate| match rate {
        GyroscopeDataRate::Hz95 => 0,
        GyroscopeDataRate::Hz190 => 1,
        GyroscopeDataRate::Hz380 => 2,
        GyroscopeDataRate::Hz760 => 3,
    };
    let mut previous = rank(get_lsm9ds0(0).gyroscope.data_rate);
    for poll_rate in 0..1000 {
        let current = rank(get_lsm9ds0(poll_rate).gyroscope.data_rate);
        assert!(current >= previous);
        previous = current;
    }
}

#[test]
fn poll_rate_leaves_accelerometer_alone() {
    let settings = get_lsm9ds0(400);
    assert_eq!(settings.accelerometer_magnetometer.accelerometer_data_rate, AccelerometerUpdateRate::Hz200);
    assert_eq!(settings.accelerometer_magnetometer.magnetometer_data_rate, MagnetometerUpdateRate::Hz100);
    assert!(!settings.gyroscope.high_pass_filter_enabled);
}

#[test]
fn barometer_settings_do_not_depend_on_poll_rate() {
    assert_eq!(get_bmp280(1), get_bmp280(1000));
    let settings = get_bmp280(100);
    assert_eq!(settings.compensation, Bmp280Compensation::B64);
    assert_eq!(settings.pressure_oversampling, Bmp280PressureOversampling::StandardResolution);
    assert_eq!(settings.power_mode, Bmp280PowerMode::NormalMode);
    assert_eq!(hardware::get_bmp280(), settings);
}

#[test]
fn flight_imu_settings() {
    let settings = hardware::get_lsm9ds0();
    assert_eq!(settings.gyroscope.data_rate, GyroscopeDataRate::Hz95);
    assert!(settings.gyroscope.high_pass_filter_enabled);
    assert_eq!(settings.gyroscope.high_pass_filter_mode, Some(GyroscopeHighPassFilterMode::NormalMode));
    assert_eq!(settings.gyroscope.high_pass_filter_configuration, Some(HighPassFilterCutOff::Hpcf3));
    assert_eq!(settings.accelerometer_magnetometer.accelerometer_data_rate, AccelerometerUpdateRate::Hz100);
    assert_eq!(settings.accelerometer_magnetometer.magnetometer_data_rate, MagnetometerUpdateRate::Hz50);
}
