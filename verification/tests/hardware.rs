use safeflight::config::{SerialCommunication, Sensor};
use safeflight::hardware::{
    dispatch_command, select_barometer, select_imu, BarometerError, HardwareLoop, ImuError,
    MockSensor, MotorCommand, MotorManager, CYCLE_NANOS,
};
use safeflight::sensor_manager::{SensorModel, SensorRole};

fn sensor(name: &str) -> Sensor {
    Sensor {
        name: name.to_string(),
        update_rate: Some(100),
        serial: SerialCommunication::I2C,
        slave_address: 0,
    }
}

#[test]
fn bmp280_barometer_is_selected() {
    assert_eq!(select_barometer(&sensor("BMP280")), Ok(SensorModel::Bmp280));
}

#[test]
fn bmp180_barometer_is_not_implemented() {
    assert_eq!(
        select_barometer(&sensor("BMP180")),
        Err(BarometerError::NotImplemented(SensorModel::Bmp180))
    );
}

#[test]
fn other_barometer_is_unknown() {
    assert_eq!(select_barometer(&sensor("LSM9DS0")), Err(BarometerError::UnknownModel));
    assert_eq!(select_barometer(&sensor("Barometer Model")), Err(BarometerError::UnknownModel));
}

#[test]
fn lsm9ds0_serves_all_inertial_roles() {
    let lsm = sensor("LSM9DS0");
    assert_eq!(select_imu(&lsm, &lsm, &lsm), Ok(SensorModel::Lsm9ds0));
}

#[test]
fn imu_roles_are_checked_in_order() {
    let lsm = sensor("LSM9DS0");
    let other = sensor("L3GD20");
    assert_eq!(select_imu(&other, &other, &other), Err(ImuError::UnknownModel(SensorRole::Gyroscope)));
    assert_eq!(select_imu(&lsm, &other, &other), Err(ImuError::UnknownModel(SensorRole::Accelerometer)));
    assert_eq!(select_imu(&lsm, &lsm, &other), Err(ImuError::UnknownModel(SensorRole::Magnetometer)));
}

#[test]
fn magnetometer_is_read_every_fourth_cycle() {
    let mut schedule = HardwareLoop::new();
    let reads: Vec<bool> = (0..8).map(|_| schedule.start_cycle()).collect();
    assert_eq!(reads, vec![false, false, false, true, false, false, false, true]);
}

#[test]
fn cycle_sleeps_for_the_rest_of_ten_milliseconds() {
    assert_eq!(CYCLE_NANOS, 10_000_000);
    assert_eq!(HardwareLoop::remaining_sleep(0), Some(10_000_000));
    assert_eq!(HardwareLoop::remaining_sleep(2_500_000), Some(7_500_000));
    assert_eq!(HardwareLoop::remaining_sleep(9_999_999), Some(1));
    assert_eq!(HardwareLoop::remaining_sleep(10_000_000), None);
    assert_eq!(HardwareLoop::remaining_sleep(12_000_000), None);
}

struct Recorder {
    log: Vec<String>,
}

impl MotorManager<u32> for Recorder {
    fn arm(&mut self) {
        self.log.push("arm".to_string());
    }
    fn calibrate(&mut self) {
        self.log.push("calibrate".to_string());
    }
    fn terminate(&mut self) {
        self.log.push("terminate".to_string());
    }
    fn set_powers(&mut self, powers: [u32; 4]) {
        self.log.push(format!("{:?}", powers));
    }
    fn process_command(&mut self, command: MotorCommand<u32>) {
        dispatch_command(self, command);
    }
}

#[test]
fn commands_reach_the_motor_controller() {
    let mut recorder = Recorder { log: Vec::new() };
    recorder.process_command(MotorCommand::Arm);
    recorder.process_command(MotorCommand::SetPower(1100, 1200, 1300, 1400));
    recorder.process_command(MotorCommand::PowerDown);
    assert_eq!(recorder.log, vec!["arm", "[1100, 1200, 1300, 1400]", "terminate"]);
}

#[test]
fn mock_motors_ignore_commands() {
    let mut mock = MockSensor::new();
    MotorManager::<u32>::process_command(&mut mock, MotorCommand::Arm);
    MotorManager::<u32>::set_powers(&mut mock, [1, 2, 3, 4]);
    assert_eq!(mock, MockSensor::new());
}
