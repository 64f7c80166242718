//! Sensor models named in the configuration, and which device serves each
//! measurement role.

use vstd::prelude::*;

use crate::devices::{
    AccelerometerFilterBandwidth, AccelerometerMagnetometerSettings,
    AccelerometerScale, AccelerometerUpdateRate, Bmp280Compensation, Bmp280Filter,
    Bmp280PowerMode, Bmp280PressureOversampling, Bmp280Settings, Bmp280Standby,
    Bmp280TemperatureOversampling, GyroscopeBandwidth, GyroscopeDataRate, GyroscopePowerMode,
    GyroscopeScale, GyroscopeSettings, Lsm9ds0Settings, MagnetometerMode,
    MagnetometerResolution, MagnetometerScale, MagnetometerUpdateRate,
};

verus! {

/// A sensor chip that the configuration can name.
#[derive(Clone, Copy, Debug, PartialEq, Eq, Structural)]
pub enum SensorModel {
    Bmp180,
    Bmp280,
    L3gd20,
    Lsm303d,
    Lsm9ds0,
}

/// A measurement that the flight stack needs a device for.
#[derive(Clone, Copy, Debug, PartialEq, Eq, Structural)]
pub enum SensorRole {
    Barometer,
    Thermometer,
    Gyroscope,
    Accelerometer,
    Magnetometer,
}

/// The name under which the configuration lists a model.
pub open spec fn model_name(model: SensorModel) -> Seq<char> {
    match model {
        SensorModel::Bmp180 => "BMP180"@,
        SensorModel::Bmp280 => "BMP280"@,
        SensorModel::L3gd20 => "L3GD20"@,
        SensorModel::Lsm303d => "LSM303D"@,
        SensorModel::Lsm9ds0 => "LSM9DS0"@,
    }
}

/// The model that a configured name denotes, if any.
pub open spec fn model_named(name: Seq<char>) -> Option<SensorModel> {
    if name == model_name(SensorModel::Bmp180) {
        Some(SensorModel::Bmp180)
    } else if name == model_name(SensorModel::Bmp280) {
        Some(SensorModel::Bmp280)
    } else if name == model_name(SensorModel::L3gd20) {
        Some(SensorModel::L3gd20)
    } else if name == model_name(SensorModel::Lsm303d) {
        Some(SensorModel::Lsm303d)
    } else if name == model_name(SensorModel::Lsm9ds0) {
        Some(SensorModel::Lsm9ds0)
    } else {
        None
    }
}

fn name_is(name: &String, expected: &str) -> (r: bool)
    ensures
        r == (name@ == expected@),
{
    let expected_owned = expected.to_owned();
    name.eq(&expected_owned)
}

/// Reads a configured sensor name.
pub fn model_from_name(name: &String) -> (r: Option<SensorModel>)
    ensures
        r == model_named(name@),
{
    if name_is(name, "BMP180") {
        Some(SensorModel::Bmp180)
    } else if name_is(name, "BMP280") {
        Some(SensorModel::Bmp280)
    } else if name_is(name, "L3GD20") {
        Some(SensorModel::L3gd20)
    } else if name_is(name, "LSM303D") {
        Some(SensorModel::Lsm303d)
    } else if name_is(name, "LSM9DS0") {
        Some(SensorModel::Lsm9ds0)
    } else {
        None
    }
}

/// Every model reads back from its own name.
pub proof fn lemma_model_name_round_trip(model: SensorModel)
    ensures
        model_named(model_name(model)) == Some(model),
{
    reveal_strlit("BMP180");
    reveal_strlit("BMP280");
    reveal_strlit("L3GD20");
    reveal_strlit("LSM303D");
    reveal_strlit("LSM9DS0");
    assert("BMP180"@[3] != "BMP280"@[3]);
    assert("BMP180"@[0] != "L3GD20"@[0]);
    assert("BMP180"@[0] != "LSM303D"@[0]);
    assert("BMP180"@[0] != "LSM9DS0"@[0]);
    assert("BMP280"@[0] != "L3GD20"@[0]);
    assert("BMP280"@[0] != "LSM303D"@[0]);
    assert("BMP280"@[0] != "LSM9DS0"@[0]);
    assert("L3GD20"@[1] != "LSM303D"@[1]);
    assert("L3GD20"@[1] != "LSM9DS0"@[1]);
    assert("LSM303D"@[3] != "LSM9DS0"@[3]);
}


/// Whether a device of this model answers for the role.
pub open spec fn provides(model: SensorModel, role: SensorRole) -> bool {
    match model {
        SensorModel::Bmp280 => role == SensorRole::Barometer || role == SensorRole::Thermometer,
        SensorModel::Lsm9ds0 => {
            ||| role == SensorRole::Gyroscope
            ||| role == SensorRole::Accelerometer
            ||| role == SensorRole::Magnetometer
        },
        _ => false,
    }
}

/// The order in which missing roles are reported.
pub open spec fn role_rank(role: SensorRole) -> int {
    match role {
        SensorRole::Barometer => 0,
        SensorRole::Thermometer => 1,
        SensorRole::Gyroscope => 2,
        SensorRole::Accelerometer => 3,
        SensorRole::Magnetometer => 4,
    }
}

/// The configured names as character sequences.
pub open spec fn names_of(sensors: Seq<String>) -> Seq<Seq<char>> {
    sensors.map_values(|s: String| s@)
}

/// The device listed at index `i` answers for `role`.
pub open spec fn serves(names: Seq<Seq<char>>, i: int, role: SensorRole) -> bool {
    &&& 0 <= i < names.len()
    &&& model_named(names[i]) matches Some(model)
    &&& provides(model, role)
}

/// Some listed device answers for `role`.
pub open spec fn has_server(names: Seq<Seq<char>>, role: SensorRole) -> bool {
    exists|i: int| serves(names, i, role)
}

/// `found` is the last index below `n` whose device answers for `role`,
/// or `None` when there is none.
pub open spec fn latest_server_below(
    names: Seq<Seq<char>>,
    n: int,
    role: SensorRole,
    found: Option<usize>,
) -> bool {
    match found {
        Some(k) => {
            &&& k < n
            &&& serves(names, k as int, role)
            &&& forall|j: int| k < j < n ==> !#[trigger] serves(names, j, role)
        },
        None => forall|j: int| 0 <= j < n ==> !#[trigger] serves(names, j, role),
    }
}

/// Every listed name is a known model.
pub open spec fn all_known(names: Seq<Seq<char>>) -> bool {
    forall|i: int| 0 <= i < names.len() ==> (#[trigger] model_named(names[i])) is Some
}

/// For each role, the index in the configured list of the device that serves it.
#[derive(Clone, Copy, Debug, PartialEq, Eq, Structural)]
pub struct SensorAssignment {
    pub barometer: usize,
    pub thermometer: usize,
    pub gyroscope: usize,
    pub accelerometer: usize,
    pub magnetometer: usize,
}

impl SensorAssignment {
    pub open spec fn index_for(self, role: SensorRole) -> usize {
        match role {
            SensorRole::Barometer => self.barometer,
            SensorRole::Thermometer => self.thermometer,
            SensorRole::Gyroscope => self.gyroscope,
            SensorRole::Accelerometer => self.accelerometer,
            SensorRole::Magnetometer => self.magnetometer,
        }
    }
}

/// Why a configured sensor list cannot be used.
#[derive(Clone, Copy, Debug, PartialEq, Eq, Structural)]
pub enum SensorPlanError {
    /// The name at this index is no known model.
    UndefinedSensor(usize),
    /// No listed device answers for this role.
    MissingSensor(SensorRole),
}

/// Each role is assigned the last listed device that answers for it.
pub open spec fn assigns_latest_servers(names: Seq<Seq<char>>, assignment: SensorAssignment) -> bool {
    forall|role: SensorRole|
        latest_server_below(
            names,
            names.len() as int,
            role,
            Some(#[trigger] assignment.index_for(role)),
        )
}

/// What selecting devices from a configured list gives.
pub open spec fn sensor_plan_result(
    names: Seq<Seq<char>>,
    r: Result<SensorAssignment, SensorPlanError>,
) -> bool {
    match r {
        Err(SensorPlanError::UndefinedSensor(i)) => {
            &&& i < names.len()
            &&& model_named(names[i as int]) is None
            &&& forall|j: int| 0 <= j < i ==> (#[trigger] model_named(names[j])) is Some
        },
        Err(SensorPlanError::MissingSensor(role)) => {
            &&& all_known(names)
            &&& !has_server(names, role)
            &&& forall|other: SensorRole|
                role_rank(other) < role_rank(role) ==> #[trigger] has_server(names, other)
        },
        Ok(assignment) => all_known(names) && assigns_latest_servers(names, assignment),
    }
}

proof fn lemma_latest_server_step(
    names: Seq<Seq<char>>,
    i: int,
    role: SensorRole,
    found: Option<usize>,
    model: SensorModel,
)
    requires
        0 <= i < names.len(),
        i < usize::MAX,
        model_named(names[i]) == Some(model),
        latest_server_below(names, i, role, found),
    ensures
        latest_server_below(
            names,
            i + 1,
            role,
            if provides(model, role) { Some(i as usize) } else { found },
        ),
{
    if !provides(model, role) {
        assert(!serves(names, i, role));
    }
}

proof fn lemma_latest_some_has_server(
    names: Seq<Seq<char>>,
    role: SensorRole,
    found: Option<usize>,
)
    requires
        latest_server_below(names, names.len() as int, role, found),
    ensures
        found is Some <==> has_server(names, role),
{
    if let Some(k) = found {
        assert(serves(names, k as int, role));
    } else {
        assert forall|j: int| !serves(names, j, role) by {
            if 0 <= j < names.len() {
            }
        }
    }
}

/// Chooses, from the configured list of sensor names, the device that serves
/// each role: a later entry replaces an earlier one for the roles they share.
/// The first name that is no known model is refused; then the first role, in
/// the order barometer, thermometer, gyroscope, accelerometer, magnetometer,
/// that no entry serves is reported missing.
pub fn get_sensors(sensors: &Vec<String>) -> (r: Result<SensorAssignment, SensorPlanError>)
    ensures
        sensor_plan_result(names_of(sensors@), r),
{
    let ghost names = names_of(sensors@);
    let mut barometer: Option<usize> = None;
    let mut thermometer: Option<usize> = None;
    let mut gyroscope: Option<usize> = None;
    let mut accelerometer: Option<usize> = None;
    let mut magnetometer: Option<usize> = None;
    let n: usize = sensors.len();
    let mut i: usize = 0;
    while i < n
        invariant
            n == sensors@.len(),
            names == names_of(sensors@),
            names.len() == n,
            i <= n,
            forall|j: int| 0 <= j < i ==> (#[trigger] model_named(names[j])) is Some,
            latest_server_below(names, i as int, SensorRole::Barometer, barometer),
            latest_server_below(names, i as int, SensorRole::Thermometer, thermometer),
            latest_server_below(names, i as int, SensorRole::Gyroscope, gyroscope),
            latest_server_below(names, i as int, SensorRole::Accelerometer, accelerometer),
            latest_server_below(names, i as int, SensorRole::Magnetometer, magnetometer),
        decreases n - i,
    {
        let model: SensorModel = match model_from_name(&sensors[i]) {
            Some(model) => model,
            None => {
                return Err(SensorPlanError::UndefinedSensor(i));
            },
        };
        proof {
            lemma_latest_server_step(names, i as int, SensorRole::Barometer, barometer, model);
            lemma_latest_server_step(names, i as int, SensorRole::Thermometer, thermometer, model);
            lemma_latest_server_step(names, i as int, SensorRole::Gyroscope, gyroscope, model);
            lemma_latest_server_step(
                names,
                i as int,
                SensorRole::Accelerometer,
                accelerometer,
                model,
            );
            lemma_latest_server_step(names, i as int, SensorRole::Magnetometer, magnetometer, model);
        }
        match model {
            SensorModel::Bmp280 => {
                barometer = Some(i);
                thermometer = Some(i);
            },
            SensorModel::Lsm9ds0 => {
                gyroscope = Some(i);
                accelerometer = Some(i);
                magnetometer = Some(i);
            },
            _ => {},
        }
        i = i + 1;
    }
    proof {
        lemma_latest_some_has_server(names, SensorRole::Barometer, barometer);
        lemma_latest_some_has_server(names, SensorRole::Thermometer, thermometer);
        lemma_latest_some_has_server(names, SensorRole::Gyroscope, gyroscope);
        lemma_latest_some_has_server(names, SensorRole::Accelerometer, accelerometer);
        lemma_latest_some_has_server(names, SensorRole::Magnetometer, magnetometer);
    }
    let barometer: usize = match barometer {
        Some(k) => k,
        None => {
            return Err(SensorPlanError::MissingSensor(SensorRole::Barometer));
        },
    };
    let thermometer: usize = match thermometer {
        Some(k) => k,
        None => {
            return Err(SensorPlanError::MissingSensor(SensorRole::Thermometer));
        },
    };
    let gyroscope: usize = match gyroscope {
        Some(k) => k,
        None => {
            return Err(SensorPlanError::MissingSensor(SensorRole::Gyroscope));
        },
    };
    let accelerometer: usize = match accelerometer {
        Some(k) => k,
        None => {
            return Err(SensorPlanError::MissingSensor(SensorRole::Accelerometer));
        },
    };
    let magnetometer: usize = match magnetometer {
        Some(k) => k,
        None => {
            return Err(SensorPlanError::MissingSensor(SensorRole::Magnetometer));
        },
    };
    Ok(SensorAssignment { barometer, thermometer, gyroscope, accelerometer, magnetometer })
}


/// In every successful assignment the barometer and the thermometer are the
/// entry named "BMP280" and the gyroscope, accelerometer and magnetometer the
/// entry named "LSM9DS0": an entry naming any other model, known or not,
/// never serves a role.
pub proof fn lemma_only_driven_models_serve(names: Seq<Seq<char>>, assignment: SensorAssignment)
    requires
        sensor_plan_result(names, Ok(assignment)),
    ensures
        assignment.barometer < names.len(),
        assignment.thermometer < names.len(),
        assignment.gyroscope < names.len(),
        assignment.accelerometer < names.len(),
        assignment.magnetometer < names.len(),
        names[assignment.barometer as int] == "BMP280"@,
        names[assignment.thermometer as int] == "BMP280"@,
        names[assignment.gyroscope as int] == "LSM9DS0"@,
        names[assignment.accelerometer as int] == "LSM9DS0"@,
        names[assignment.magnetometer as int] == "LSM9DS0"@,
{
    lemma_assigned_entry_serves(names, assignment, SensorRole::Barometer);
    lemma_assigned_entry_serves(names, assignment, SensorRole::Thermometer);
    lemma_assigned_entry_serves(names, assignment, SensorRole::Gyroscope);
    lemma_assigned_entry_serves(names, assignment, SensorRole::Accelerometer);
    lemma_assigned_entry_serves(names, assignment, SensorRole::Magnetometer);
}

proof fn lemma_assigned_entry_serves(
    names: Seq<Seq<char>>,
    assignment: SensorAssignment,
    role: SensorRole,
)
    requires
        sensor_plan_result(names, Ok(assignment)),
    ensures
        serves(names, assignment.index_for(role) as int, role),
{
    assert(assigns_latest_servers(names, assignment));
    assert(latest_server_below(names, names.len() as int, role, Some(assignment.index_for(role))));
}

/// The gyroscope data rate and filter bandwidth chosen for a poll rate in
/// Hertz: the slowest rate of 95, 190, 380 and 760 Hz that keeps up with the
/// poll rate, with the matching bandwidth selector.
pub open spec fn gyroscope_rate_for(poll_rate: int) -> (GyroscopeDataRate, GyroscopeBandwidth) {
    if poll_rate <= 95 {
        (GyroscopeDataRate::Hz95, GyroscopeBandwidth::BW1)
    } else if poll_rate <= 190 {
        (GyroscopeDataRate::Hz190, GyroscopeBandwidth::BW2)
    } else if poll_rate <= 380 {
        (GyroscopeDataRate::Hz380, GyroscopeBandwidth::BW3)
    } else {
        (GyroscopeDataRate::Hz760, GyroscopeBandwidth::BW4)
    }
}

/// The LSM9DS0 settings for a sensor loop polled at `poll_rate` Hertz.
pub open spec fn lsm9ds0_settings_for(poll_rate: int) -> Lsm9ds0Settings {
    Lsm9ds0Settings {
        gyroscope: GyroscopeSettings {
            data_rate: gyroscope_rate_for(poll_rate).0,
            bandwidth: gyroscope_rate_for(poll_rate).1,
            power_mode: GyroscopePowerMode::Normal,
            zen: true,
            yen: true,
            xen: true,
            sensitivity: GyroscopeScale::Dps500,
            continuous_update: true,
            high_pass_filter_enabled: false,
            high_pass_filter_mode: None,
            high_pass_filter_configuration: None,
        },
        accelerometer_magnetometer: AccelerometerMagnetometerSettings {
            continuous_update: true,
            accelerometer_data_rate: AccelerometerUpdateRate::Hz200,
            accelerometer_anti_alias_filter_bandwidth: AccelerometerFilterBandwidth::Hz50,
            azen: true,
            ayen: true,
            axen: true,
            accelerometer_sensitivity: AccelerometerScale::G4,
            magnetometer_resolution: MagnetometerResolution::Low,
            magnetometer_data_rate: MagnetometerUpdateRate::Hz100,
            magnetometer_low_power_mode: false,
            magnetometer_mode: MagnetometerMode::ContinuousConversion,
            magnetometer_sensitivity: MagnetometerScale::Gauss2,
        },
    }
}

/// The BMP280 settings of the sensor loop; the poll rate does not change them.
pub fn get_bmp280(poll_rate: i64) -> (settings: Bmp280Settings)
    ensures
        settings == crate::devices::flight_bmp280_settings(),
{
    Bmp280Settings {
        compensation: Bmp280Compensation::B64,
        standby: Bmp280Standby::Ms0_5,
        iir_filter_coeff: Bmp280Filter::Off,
        temperature_oversampling: Bmp280TemperatureOversampling::X1,
        pressure_oversampling: Bmp280PressureOversampling::StandardResolution,
        power_mode: Bmp280PowerMode::NormalMode,
    }
}

/// The LSM9DS0 settings of a sensor loop polled at `poll_rate` Hertz: the
/// gyroscope data rate and bandwidth follow the poll rate, the rest is fixed.
pub fn get_lsm9ds0(poll_rate: i64) -> (settings: Lsm9ds0Settings)
    ensures
        settings == lsm9ds0_settings_for(poll_rate as int),
{
    let mut gyro_settings = GyroscopeSettings {
        data_rate: GyroscopeDataRate::Hz190,
        bandwidth: GyroscopeBandwidth::BW1,
        power_mode: GyroscopePowerMode::Normal,
        zen: true,
        yen: true,
        xen: true,
        sensitivity: GyroscopeScale::Dps500,
        continuous_update: true,
        high_pass_filter_enabled: false,
        high_pass_filter_mode: None,
        high_pass_filter_configuration: None,
    };
    if poll_rate <= 95 {
        gyro_settings.data_rate = GyroscopeDataRate::Hz95;
    } else if poll_rate <= 190 {
        gyro_settings.data_rate = GyroscopeDataRate::Hz190;
        gyro_settings.bandwidth = GyroscopeBandwidth::BW2;
    } else if poll_rate <= 380 {
        gyro_settings.data_rate = GyroscopeDataRate::Hz380;
        gyro_settings.bandwidth = GyroscopeBandwidth::BW3;
    } else {
        gyro_settings.data_rate = GyroscopeDataRate::Hz760;
        gyro_settings.bandwidth = GyroscopeBandwidth::BW4;
    }
    let accel_mag_settings = AccelerometerMagnetometerSettings {
        continuous_update: true,
        accelerometer_data_rate: AccelerometerUpdateRate::Hz200,
        accelerometer_anti_alias_filter_bandwidth: AccelerometerFilterBandwidth::Hz50,
        azen: true,
        ayen: true,
        axen: true,
        accelerometer_sensitivity: AccelerometerScale::G4,
        magnetometer_resolution: MagnetometerResolution::Low,
        magnetometer_data_rate: MagnetometerUpdateRate::Hz100,
        magnetometer_low_power_mode: false,
        magnetometer_mode: MagnetometerMode::ContinuousConversion,
        magnetometer_sensitivity: MagnetometerScale::Gauss2,
    };
    Lsm9ds0Settings { gyroscope: gyro_settings, accelerometer_magnetometer: accel_mag_settings }
}

/// A faster poll rate never gets a slower gyroscope data rate.
pub proof fn lemma_gyroscope_rate_monotone(slower: int, faster: int)
    requires
        slower <= faster,
    ensures
        gyroscope_rate_for(slower).0.hertz() <= gyroscope_rate_for(faster).0.hertz(),
{
}

/// Up to the chip's fastest rate, the gyroscope samples at least as often as
/// it is polled, and no slower data rate would: the chosen rate is the
/// slowest one that keeps up.
pub proof fn lemma_gyroscope_rate_keeps_up(poll_rate: int, other: GyroscopeDataRate)
    requires
        poll_rate <= 760,
        other.hertz() >= poll_rate,
    ensures
        gyroscope_rate_for(poll_rate).0.hertz() >= poll_rate,
        gyroscope_rate_for(poll_rate).0.hertz() <= other.hertz(),
{
}

/// Whatever the poll rate, the sensor loop's LSM9DS0 settings run the
/// gyroscope in normal mode on all three axes at 500 degrees per second,
/// updating continuously with its high pass filter off, and configure the
/// accelerometer on all three axes at 200 Hz, 50 Hz anti aliasing and 4 g,
/// and the magnetometer converting continuously at 100 Hz, low resolution,
/// 2 gauss, not in low power mode.
pub proof fn lemma_lsm9ds0_fixed_settings(poll_rate: int)
    ensures
        ({
            let g = lsm9ds0_settings_for(poll_rate).gyroscope;
            &&& g.power_mode == GyroscopePowerMode::Normal
            &&& g.zen && g.yen && g.xen
            &&& g.sensitivity == GyroscopeScale::Dps500
            &&& g.continuous_update
            &&& !g.high_pass_filter_enabled
            &&& g.high_pass_filter_mode is None
            &&& g.high_pass_filter_configuration is None
        }),
        ({
            let a = lsm9ds0_settings_for(poll_rate).accelerometer_magnetometer;
            &&& a.continuous_update
            &&& a.accelerometer_data_rate == AccelerometerUpdateRate::Hz200
            &&& a.accelerometer_anti_alias_filter_bandwidth == AccelerometerFilterBandwidth::Hz50
            &&& a.azen && a.ayen && a.axen
            &&& a.accelerometer_sensitivity == AccelerometerScale::G4
            &&& a.magnetometer_resolution == MagnetometerResolution::Low
            &&& a.magnetometer_data_rate == MagnetometerUpdateRate::Hz100
            &&& !a.magnetometer_low_power_mode
            &&& a.magnetometer_mode == MagnetometerMode::ContinuousConversion
            &&& a.magnetometer_sensitivity == MagnetometerScale::Gauss2
        }),
        (poll_rate <= 95 ==> lsm9ds0_settings_for(poll_rate).gyroscope.data_rate
            == GyroscopeDataRate::Hz95 && lsm9ds0_settings_for(poll_rate).gyroscope.bandwidth
            == GyroscopeBandwidth::BW1),
        (95 < poll_rate <= 190 ==> lsm9ds0_settings_for(poll_rate).gyroscope.data_rate
            == GyroscopeDataRate::Hz190 && lsm9ds0_settings_for(poll_rate).gyroscope.bandwidth
            == GyroscopeBandwidth::BW2),
        (190 < poll_rate <= 380 ==> lsm9ds0_settings_for(poll_rate).gyroscope.data_rate
            == GyroscopeDataRate::Hz380 && lsm9ds0_settings_for(poll_rate).gyroscope.bandwidth
            == GyroscopeBandwidth::BW3),
        (380 < poll_rate ==> lsm9ds0_settings_for(poll_rate).gyroscope.data_rate
            == GyroscopeDataRate::Hz760 && lsm9ds0_settings_for(poll_rate).gyroscope.bandwidth
            == GyroscopeBandwidth::BW4),
{
}

} // verus!
