//! Hardware bring-up decisions, the motor command interface and the schedule
//! of the hardware loop.

use vstd::prelude::*;

use crate::config::Sensor;
use crate::devices::{
    AccelerometerFilterBandwidth, AccelerometerMagnetometerSettings, AccelerometerScale,
    AccelerometerUpdateRate, Bmp280Compensation, Bmp280Filter, Bmp280PowerMode,
    Bmp280PressureOversampling, Bmp280Settings, Bmp280Standby, Bmp280TemperatureOversampling,
    GyroscopeBandwidth, GyroscopeDataRate, GyroscopeHighPassFilterMode, GyroscopePowerMode,
    GyroscopeScale, GyroscopeSettings, HighPassFilterCutOff, Lsm9ds0Settings, MagnetometerMode,
    MagnetometerResolution, MagnetometerScale, MagnetometerUpdateRate,
};
use crate::sensor_manager::{model_from_name, SensorModel, SensorRole};

verus! {

/// Why the configured barometer cannot be brought up.
#[derive(Clone, Copy, Debug, PartialEq, Eq, Structural)]
pub enum BarometerError {
    /// The model is known but has no driver yet.
    NotImplemented(SensorModel),
    /// The name is no barometer model.
    UnknownModel,
}

/// What bringing up the configured barometer gives.
pub open spec fn barometer_selection(name: Seq<char>) -> Result<SensorModel, BarometerError> {
    match crate::sensor_manager::model_named(name) {
        Some(SensorModel::Bmp180) => Err(BarometerError::NotImplemented(SensorModel::Bmp180)),
        Some(SensorModel::Bmp280) => Ok(SensorModel::Bmp280),
        _ => Err(BarometerError::UnknownModel),
    }
}

/// Decides which driver serves the configured barometer: a BMP280 is
/// supported, a BMP180 is known but not implemented, anything else is unknown.
pub fn select_barometer(barometer: &Sensor) -> (r: Result<SensorModel, BarometerError>)
    ensures
        r == barometer_selection(barometer.name@),
{
    match model_from_name(&barometer.name) {
        Some(SensorModel::Bmp180) => Err(BarometerError::NotImplemented(SensorModel::Bmp180)),
        Some(SensorModel::Bmp280) => Ok(SensorModel::Bmp280),
        _ => Err(BarometerError::UnknownModel),
    }
}

/// The inertial sensor named for a role is not one the flight stack drives.
#[derive(Clone, Copy, Debug, PartialEq, Eq, Structural)]
pub enum ImuError {
    UnknownModel(SensorRole),
}

/// What bringing up the configured inertial sensors gives.
pub open spec fn imu_selection(gyroscope: Seq<char>, accelerometer: Seq<char>, magnetometer: Seq<char>)
    -> Result<SensorModel, ImuError>
{
    if crate::sensor_manager::model_named(gyroscope) != Some(SensorModel::Lsm9ds0) {
        Err(ImuError::UnknownModel(SensorRole::Gyroscope))
    } else if crate::sensor_manager::model_named(accelerometer) != Some(SensorModel::Lsm9ds0) {
        Err(ImuError::UnknownModel(SensorRole::Accelerometer))
    } else if crate::sensor_manager::model_named(magnetometer) != Some(SensorModel::Lsm9ds0) {
        Err(ImuError::UnknownModel(SensorRole::Magnetometer))
    } else {
        Ok(SensorModel::Lsm9ds0)
    }
}

/// Decides whether the configured gyroscope, accelerometer and magnetometer
/// can be served: all three must be the LSM9DS0, checked in that order.
pub fn select_imu(gyroscope: &Sensor, accelerometer: &Sensor, magnetometer: &Sensor) -> (r: Result<
    SensorModel,
    ImuError,
>)
    ensures
        r == imu_selection(gyroscope.name@, accelerometer.name@, magnetometer.name@),
{
    match model_from_name(&gyroscope.name) {
        Some(SensorModel::Lsm9ds0) => {},
        _ => {
            return Err(ImuError::UnknownModel(SensorRole::Gyroscope));
        },
    }
    match model_from_name(&accelerometer.name) {
        Some(SensorModel::Lsm9ds0) => {},
        _ => {
            return Err(ImuError::UnknownModel(SensorRole::Accelerometer));
        },
    }
    match model_from_name(&magnetometer.name) {
        Some(SensorModel::Lsm9ds0) => {},
        _ => {
            return Err(ImuError::UnknownModel(SensorRole::Magnetometer));
        },
    }
    Ok(SensorModel::Lsm9ds0)
}

/// The LSM9DS0 settings of the flight hardware.
pub open spec fn flight_lsm9ds0_settings() -> Lsm9ds0Settings {
    Lsm9ds0Settings {
        gyroscope: GyroscopeSettings {
            data_rate: GyroscopeDataRate::Hz95,
            bandwidth: GyroscopeBandwidth::BW1,
            power_mode: GyroscopePowerMode::Normal,
            zen: true,
            yen: true,
            xen: true,
            sensitivity: GyroscopeScale::Dps500,
            continuous_update: true,
            high_pass_filter_enabled: true,
            high_pass_filter_mode: Some(GyroscopeHighPassFilterMode::NormalMode),
            high_pass_filter_configuration: Some(HighPassFilterCutOff::Hpcf3),
        },
        accelerometer_magnetometer: AccelerometerMagnetometerSettings {
            continuous_update: true,
            accelerometer_data_rate: AccelerometerUpdateRate::Hz100,
            accelerometer_anti_alias_filter_bandwidth: AccelerometerFilterBandwidth::Hz50,
            azen: true,
            ayen: true,
            axen: true,
            accelerometer_sensitivity: AccelerometerScale::G4,
            magnetometer_resolution: MagnetometerResolution::Low,
            magnetometer_data_rate: MagnetometerUpdateRate::Hz50,
            magnetometer_low_power_mode: false,
            magnetometer_mode: MagnetometerMode::ContinuousConversion,
            magnetometer_sensitivity: MagnetometerScale::Gauss2,
        },
    }
}

/// The LSM9DS0 settings of the flight hardware: 95 Hz gyroscope with its high
/// pass filter on, 100 Hz accelerometer, 50 Hz magnetometer.
pub fn get_lsm9ds0() -> (settings: Lsm9ds0Settings)
    ensures
        settings == flight_lsm9ds0_settings(),
{
    let gyro_settings = GyroscopeSettings {
        data_rate: GyroscopeDataRate::Hz95,
        bandwidth: GyroscopeBandwidth::BW1,
        power_mode: GyroscopePowerMode::Normal,
        zen: true,
        yen: true,
        xen: true,
        sensitivity: GyroscopeScale::Dps500,
        continuous_update: true,
        high_pass_filter_enabled: true,
        high_pass_filter_mode: Some(GyroscopeHighPassFilterMode::NormalMode),
        high_pass_filter_configuration: Some(HighPassFilterCutOff::Hpcf3),
    };
    let accel_mag_settings = AccelerometerMagnetometerSettings {
        continuous_update: true,
        accelerometer_data_rate: AccelerometerUpdateRate::Hz100,
        accelerometer_anti_alias_filter_bandwidth: AccelerometerFilterBandwidth::Hz50,
        azen: true,
        ayen: true,
        axen: true,
        accelerometer_sensitivity: AccelerometerScale::G4,
        magnetometer_resolution: MagnetometerResolution::Low,
        magnetometer_data_rate: MagnetometerUpdateRate::Hz50,
        magnetometer_low_power_mode: false,
        magnetometer_mode: MagnetometerMode::ContinuousConversion,
        magnetometer_sensitivity: MagnetometerScale::Gauss2,
    };
    Lsm9ds0Settings { gyroscope: gyro_settings, accelerometer_magnetometer: accel_mag_settings }
}

/// The BMP280 settings of the flight hardware.
pub fn get_bmp280() -> (settings: Bmp280Settings)
    ensures
        settings == crate::devices::flight_bmp280_settings(),
{
    Bmp280Settings {
        compensation: Bmp280Compensation::B64,
        standby: Bmp280Standby::Ms0_5,
        iir_filter_coeff: Bmp280Filter::Off,
        temperature_oversampling: Bmp280TemperatureOversampling::X1,
        pressure_oversampling: Bmp280PressureOversampling::StandardResolution,
        power_mode: Bmp280PowerMode::NormalMode,
    }
}

/// The inertial sensors are brought up exactly when the gyroscope, the
/// accelerometer and the magnetometer are all configured as "LSM9DS0", and
/// then with the LSM9DS0 driver; otherwise the first of them, in that order,
/// whose name is anything else is reported.
pub proof fn lemma_imu_needs_lsm9ds0(gyroscope: Seq<char>, accelerometer: Seq<char>, magnetometer: Seq<char>)
    ensures
        imu_selection(gyroscope, accelerometer, magnetometer) is Ok <==> (gyroscope == "LSM9DS0"@
            && accelerometer == "LSM9DS0"@ && magnetometer == "LSM9DS0"@),
        imu_selection(gyroscope, accelerometer, magnetometer) is Ok ==> imu_selection(
            gyroscope,
            accelerometer,
            magnetometer,
        ) == Ok::<SensorModel, ImuError>(SensorModel::Lsm9ds0),
        gyroscope != "LSM9DS0"@ ==> imu_selection(gyroscope, accelerometer, magnetometer) == Err::<
            SensorModel,
            ImuError,
        >(ImuError::UnknownModel(SensorRole::Gyroscope)),
        gyroscope == "LSM9DS0"@ && accelerometer != "LSM9DS0"@ ==> imu_selection(
            gyroscope,
            accelerometer,
            magnetometer,
        ) == Err::<SensorModel, ImuError>(ImuError::UnknownModel(SensorRole::Accelerometer)),
        gyroscope == "LSM9DS0"@ && accelerometer == "LSM9DS0"@ && magnetometer != "LSM9DS0"@
            ==> imu_selection(gyroscope, accelerometer, magnetometer) == Err::<SensorModel, ImuError>(
            ImuError::UnknownModel(SensorRole::Magnetometer),
        ),
{
    crate::sensor_manager::lemma_model_name_round_trip(SensorModel::Lsm9ds0);
}

/// The barometer is brought up exactly when it is configured as "BMP280", and
/// then with the BMP280 driver; "BMP180" is known but has no driver, and any
/// other name is unknown.
pub proof fn lemma_barometer_needs_bmp280(name: Seq<char>)
    ensures
        barometer_selection(name) is Ok <==> name == "BMP280"@,
        barometer_selection(name) is Ok ==> barometer_selection(name) == Ok::<
            SensorModel,
            BarometerError,
        >(SensorModel::Bmp280),
        name == "BMP180"@ ==> barometer_selection(name) == Err::<SensorModel, BarometerError>(
            BarometerError::NotImplemented(SensorModel::Bmp180),
        ),
        name != "BMP180"@ && name != "BMP280"@ ==> barometer_selection(name) == Err::<
            SensorModel,
            BarometerError,
        >(BarometerError::UnknownModel),
{
    crate::sensor_manager::lemma_model_name_round_trip(SensorModel::Bmp180);
    crate::sensor_manager::lemma_model_name_round_trip(SensorModel::Bmp280);
}

/// The flight hardware's LSM9DS0 runs the gyroscope in normal mode on all
/// three axes at 95 Hz with the narrowest bandwidth, 500 degrees per second,
/// updating continuously, with its high pass filter on in normal mode at cut
/// off 3; the accelerometer on all three axes at 100 Hz, 50 Hz anti aliasing
/// and 4 g; the magnetometer converting continuously at 50 Hz, low
/// resolution, 2 gauss, not in low power mode.
pub proof fn lemma_flight_lsm9ds0_settings()
    ensures
        ({
            let g = flight_lsm9ds0_settings().gyroscope;
            &&& g.data_rate == GyroscopeDataRate::Hz95
            &&& g.bandwidth == GyroscopeBandwidth::BW1
            &&& g.power_mode == GyroscopePowerMode::Normal
            &&& g.zen && g.yen && g.xen
            &&& g.sensitivity == GyroscopeScale::Dps500
            &&& g.continuous_update
            &&& g.high_pass_filter_enabled
            &&& g.high_pass_filter_mode == Some(GyroscopeHighPassFilterMode::NormalMode)
            &&& g.high_pass_filter_configuration == Some(HighPassFilterCutOff::Hpcf3)
        }),
        ({
            let a = flight_lsm9ds0_settings().accelerometer_magnetometer;
            &&& a.continuous_update
            &&& a.accelerometer_data_rate == AccelerometerUpdateRate::Hz100
            &&& a.accelerometer_anti_alias_filter_bandwidth == AccelerometerFilterBandwidth::Hz50
            &&& a.azen && a.ayen && a.axen
            &&& a.accelerometer_sensitivity == AccelerometerScale::G4
            &&& a.magnetometer_resolution == MagnetometerResolution::Low
            &&& a.magnetometer_data_rate == MagnetometerUpdateRate::Hz50
            &&& !a.magnetometer_low_power_mode
            &&& a.magnetometer_mode == MagnetometerMode::ContinuousConversion
            &&& a.magnetometer_sensitivity == MagnetometerScale::Gauss2
        }),
{
}

/// The BMP280 of the flight hardware and of the sensor loop uses the 64 bit
/// compensation, half a millisecond of standby, no IIR filter, single
/// temperature oversampling, standard pressure resolution, in normal mode.
pub proof fn lemma_bmp280_settings()
    ensures
        ({
            let b = crate::devices::flight_bmp280_settings();
            &&& b.compensation == Bmp280Compensation::B64
            &&& b.standby == Bmp280Standby::Ms0_5
            &&& b.iir_filter_coeff == Bmp280Filter::Off
            &&& b.temperature_oversampling == Bmp280TemperatureOversampling::X1
            &&& b.pressure_oversampling == Bmp280PressureOversampling::StandardResolution
            &&& b.power_mode == Bmp280PowerMode::NormalMode
        }),
{
}

/// A request to the motor controller; `P` is the power type of one motor.
#[derive(Clone, Copy, Debug, PartialEq)]
pub enum MotorCommand<P> {
    PowerDown,
    Arm,
    SetPower(P, P, P, P),
}

/// A motor controller.
///
/// A controller may keep the list of commands it has carried out; one that
/// does says so through `keeps_command_log`, and each method then appends what
/// it did to `command_log`.
pub trait MotorManager<P> {
    /// Whether this kind of controller keeps `command_log`; by default it
    /// does not.
    open spec fn keeps_command_log() -> bool {
        false
    }

    /// The commands carried out so far, oldest first; by default none.
    open spec fn command_log(&self) -> Seq<MotorCommand<P>> {
        Seq::empty()
    }

    /// Arms the motors.
    fn arm(&mut self)
        ensures
            Self::keeps_command_log() ==> final(self).command_log() == old(self).command_log().push(
                MotorCommand::Arm,
            ),
    ;

    /// Teaches the speed controllers the pulse range; carries out no command.
    fn calibrate(&mut self)
        ensures
            Self::keeps_command_log() ==> final(self).command_log() == old(self).command_log(),
    ;

    /// Powers the motors down.
    fn terminate(&mut self)
        ensures
            Self::keeps_command_log() ==> final(self).command_log() == old(self).command_log().push(
                MotorCommand::PowerDown,
            ),
    ;

    /// Sets the four motors, in order.
    fn set_powers(&mut self, powers: [P; 4])
        ensures
            Self::keeps_command_log() ==> final(self).command_log() == old(self).command_log().push(
                MotorCommand::SetPower(powers@[0], powers@[1], powers@[2], powers@[3]),
            ),
    ;

    /// Carries out a command.
    fn process_command(&mut self, command: MotorCommand<P>)
        ensures
            Self::keeps_command_log() ==> final(self).command_log() == old(self).command_log().push(
                command,
            ),
    ;
}

/// Carries out a motor command on a controller: power down terminates the
/// motors, arm arms them, and a power setting sets all four motors in order.
/// On a controller that keeps a command log, the command is appended to it.
pub fn dispatch_command<P, M: MotorManager<P>>(manager: &mut M, command: MotorCommand<P>)
    ensures
        M::keeps_command_log() ==> final(manager).command_log() == old(manager).command_log().push(
            command,
        ),
{
    match command {
        MotorCommand::PowerDown => {
            manager.terminate();
        },
        MotorCommand::Arm => {
            manager.arm();
        },
        MotorCommand::SetPower(m1, m2, m3, m4) => {
            let powers = [m1, m2, m3, m4];
            assert(powers@[0] == m1 && powers@[1] == m2 && powers@[2] == m3 && powers@[3] == m4);
            manager.set_powers(powers);
        },
    }
}

/// A stand-in sensor and motor controller for machines without the flight
/// hardware.
#[derive(Clone, Copy, Debug, PartialEq, Eq, Structural)]
pub struct MockSensor {}

impl MockSensor {
    pub fn new() -> (sensor: MockSensor)
        ensures
            sensor == (MockSensor {}),
    {
        MockSensor {  }
    }
}

/// The stand-in keeps no command log.
impl<P> MotorManager<P> for MockSensor {
    open spec fn keeps_command_log() -> bool {
        false
    }

    open spec fn command_log(&self) -> Seq<MotorCommand<P>> {
        Seq::empty()
    }

    fn arm(&mut self) {
    }

    fn terminate(&mut self) {
    }

    fn set_powers(&mut self, powers: [P; 4]) {
    }

    fn process_command(&mut self, command: MotorCommand<P>) {
    }

    fn calibrate(&mut self) {
    }
}

/// Length of one hardware cycle, in nanoseconds.
pub const CYCLE_NANOS: u64 = 10_000_000;

/// Every fourth cycle of the hardware loop reads the magnetometer.
pub open spec fn reads_magnetometer(cycle: int) -> bool {
    cycle % 4 == 0
}

/// The schedule of the hardware loop: cycles are counted from one.
#[derive(Clone, Copy, Debug, PartialEq, Eq, Structural)]
pub struct HardwareLoop {
    loop_count: u64,
}

impl HardwareLoop {
    /// The number of cycles started so far.
    pub closed spec fn cycles(self) -> nat {
        self.loop_count as nat
    }

    /// The number of cycles started so far.
    pub fn cycles_run(&self) -> (n: u64)
        ensures
            n == self.cycles(),
    {
        self.loop_count
    }

    pub fn new() -> (schedule: HardwareLoop)
        ensures
            schedule.cycles() == 0,
    {
        HardwareLoop { loop_count: 0 }
    }

    /// Starts the next cycle and tells whether it reads the magnetometer.
    pub fn start_cycle(&mut self) -> (read_magnetometer: bool)
        requires
            old(self).cycles() < u64::MAX,
        ensures
            final(self).cycles() == old(self).cycles() + 1,
            read_magnetometer == reads_magnetometer(final(self).cycles() as int),
    {
        self.loop_count = self.loop_count + 1;
        self.loop_count % 4 == 0
    }

    /// How long to sleep after a cycle that took `elapsed_nanos`, so that a
    /// cycle lasts `CYCLE_NANOS`; nothing when the cycle overran.
    pub fn remaining_sleep(elapsed_nanos: u64) -> (sleep: Option<u64>)
        ensures
            elapsed_nanos < CYCLE_NANOS ==> sleep == Some((CYCLE_NANOS - elapsed_nanos) as u64),
            elapsed_nanos >= CYCLE_NANOS ==> sleep is None,
    {
        if elapsed_nanos < CYCLE_NANOS {
            Some(CYCLE_NANOS - elapsed_nanos)
        } else {
            None
        }
    }
}

/// Of any four consecutive hardware cycles, exactly one reads the magnetometer.
pub proof fn lemma_one_magnetometer_read_in_four(first: int)
    ensures
        (if reads_magnetometer(first) { 1int } else { 0int }) + (if reads_magnetometer(first + 1) {
            1int
        } else {
            0int
        }) + (if reads_magnetometer(first + 2) { 1int } else { 0int }) + (if reads_magnetometer(
            first + 3,
        ) {
            1int
        } else {
            0int
        }) == 1,
{
}

} // verus!
