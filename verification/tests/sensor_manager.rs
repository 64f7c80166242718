use safeflight::sensor_manager::{get_sensors, model_from_name, SensorModel, SensorPlanError, SensorRole};

fn names(list: &[&str]) -> Vec<String> {
    list.iter().map(|s| s.to_string()).collect()
}

#[test]
fn model_names_are_read() {
    assert_eq!(model_from_name(&"BMP280".to_string()), Some(SensorModel::Bmp280));
    assert_eq!(model_from_name(&"LSM9DS0".to_string()), Some(SensorModel::Lsm9ds0));
    assert_eq!(model_from_name(&"bmp280".to_string()), None);
}

#[test]
fn full_configuration_is_assigned() {
    let plan = get_sensors(&names(&["BMP280", "LSM9DS0"])).unwrap();
    assert_eq!(plan.barometer, 0);
    assert_eq!(plan.thermometer, 0);
    assert_eq!(plan.gyroscope, 1);
    assert_eq!(plan.accelerometer, 1);
    assert_eq!(plan.magnetometer, 1);
}

#[test]
fn unknown_sensor_is_refused() {
    assert_eq!(
        get_sensors(&names(&["BMP280", "MPU6050", "LSM9DS0"])),
        Err(SensorPlanError::UndefinedSensor(1))
    );
}

#[test]
fn missing_barometer_is_reported() {
    assert_eq!(
        get_sensors(&names(&["LSM9DS0"])),
        Err(SensorPlanError::MissingSensor(SensorRole::Barometer))
    );
}

#[test]
fn later_entry_replaces_earlier_one() {
    let plan = get_sensors(&names(&["BMP280", "LSM9DS0", "BMP280", "LSM9DS0"])).unwrap();
    assert_eq!(plan.barometer, 2);
    assert_eq!(plan.thermometer, 2);
    assert_eq!(plan.gyroscope, 3);
    assert_eq!(plan.accelerometer, 3);
    assert_eq!(plan.magnetometer, 3);
}

#[test]
fn known_models_without_driver_serve_nothing() {
    assert_eq!(
        get_sensors(&names(&["BMP180", "L3GD20", "LSM303D", "LSM9DS0"])),
        Err(SensorPlanError::MissingSensor(SensorRole::Barometer))
    );
}

#[test]
fn missing_inertial_sensor_is_reported_after_barometer() {
    assert_eq!(
        get_sensors(&names(&["BMP280"])),
        Err(SensorPlanError::MissingSensor(SensorRole::Gyroscope))
    );
}

#[test]
fn empty_configuration_misses_the_barometer() {
    assert_eq!(get_sensors(&Vec::new()), Err(SensorPlanError::MissingSensor(SensorRole::Barometer)));
}

#[test]
fn first_unknown_name_is_reported() {
    assert_eq!(
        get_sensors(&names(&["GPS", "MPU6050"])),
        Err(SensorPlanError::UndefinedSensor(0))
    );
}
