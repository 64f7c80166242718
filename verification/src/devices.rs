//! Register settings of the sensor chips the flight stack drives.
//!
//! These are plain values; the program hands them to the device drivers,
//! which turn them into register writes.

use vstd::prelude::*;

verus! {

/// Power mode of the LSM9DS0 gyroscope.
#[derive(Clone, Copy, Debug, PartialEq, Eq, Structural)]
pub enum GyroscopePowerMode {
    PowerDown,
    Sleep,
    Normal,
}

/// Output data rate of the LSM9DS0 gyroscope.
#[derive(Clone, Copy, Debug, PartialEq, Eq, Structural)]
pub enum GyroscopeDataRate {
    Hz95,
    Hz190,
    Hz380,
    Hz760,
}

impl GyroscopeDataRate {
    /// The sampling frequency in Hertz.
    pub open spec fn hertz(self) -> int {
        match self {
            GyroscopeDataRate::Hz95 => 95,
            GyroscopeDataRate::Hz190 => 190,
            GyroscopeDataRate::Hz380 => 380,
            GyroscopeDataRate::Hz760 => 760,
        }
    }
}

/// Low pass filter bandwidth selector of the LSM9DS0 gyroscope.
#[derive(Clone, Copy, Debug, PartialEq, Eq, Structural)]
pub enum GyroscopeBandwidth {
    BW1,
    BW2,
    BW3,
    BW4,
}

/// Full scale of the LSM9DS0 gyroscope, in degrees per second.
#[derive(Clone, Copy, Debug, PartialEq, Eq, Structural)]
pub enum GyroscopeScale {
    Dps250,
    Dps500,
    Dps2000,
}

/// High pass filter mode of the LSM9DS0 gyroscope.
#[derive(Clone, Copy, Debug, PartialEq, Eq, Structural)]
pub enum GyroscopeHighPassFilterMode {
    NormalModeResetFilter,
    ReferenceSignalForFiltering,
    NormalMode,
    AutoresetOnInterruptEvent,
}

/// High pass filter cut off selector of the LSM9DS0 gyroscope.
#[derive(Clone, Copy, Debug, PartialEq, Eq, Structural)]
pub enum HighPassFilterCutOff {
    Hpcf0,
    Hpcf1,
    Hpcf2,
    Hpcf3,
    Hpcf4,
    Hpcf5,
    Hpcf6,
    Hpcf7,
    Hpcf8,
    Hpcf9,
}

/// Gyroscope half of the LSM9DS0 settings.
#[derive(Clone, Copy, Debug, PartialEq, Eq, Structural)]
pub struct GyroscopeSettings {
    pub data_rate: GyroscopeDataRate,
    pub bandwidth: GyroscopeBandwidth,
    pub power_mode: GyroscopePowerMode,
    pub zen: bool,
    pub yen: bool,
    pub xen: bool,
    pub sensitivity: GyroscopeScale,
    pub continuous_update: bool,
    pub high_pass_filter_enabled: bool,
    pub high_pass_filter_mode: Option<GyroscopeHighPassFilterMode>,
    pub high_pass_filter_configuration: Option<HighPassFilterCutOff>,
}

/// Output data rate of the LSM9DS0 accelerometer.
#[derive(Clone, Copy, Debug, PartialEq, Eq, Structural)]
pub enum AccelerometerUpdateRate {
    PowerDown,
    Hz3_125,
    Hz6_25,
    Hz12_5,
    Hz25,
    Hz50,
    Hz100,
    Hz200,
    Hz400,
    Hz800,
    Hz1600,
}

/// Anti alias filter bandwidth of the LSM9DS0 accelerometer.
#[derive(Clone, Copy, Debug, PartialEq, Eq, Structural)]
pub enum AccelerometerFilterBandwidth {
    Hz773,
    Hz194,
    Hz362,
    Hz50,
}

/// Full scale of the LSM9DS0 accelerometer, in multiples of g.
#[derive(Clone, Copy, Debug, PartialEq, Eq, Structural)]
pub enum AccelerometerScale {
    G2,
    G4,
    G6,
    G8,
    G16,
}

/// Conversion mode of the LSM9DS0 magnetometer.
#[derive(Clone, Copy, Debug, PartialEq, Eq, Structural)]
pub enum MagnetometerMode {
    ContinuousConversion,
    SingleConversion,
    PowerDown,
}

/// Resolution of the LSM9DS0 magnetometer.
#[derive(Clone, Copy, Debug, PartialEq, Eq, Structural)]
pub enum MagnetometerResolution {
    Low,
    MediumLow,
    MediumHigh,
    High,
}

/// Output data rate of the LSM9DS0 magnetometer.
#[derive(Clone, Copy, Debug, PartialEq, Eq, Structural)]
pub enum MagnetometerUpdateRate {
    Hz3_125,
    Hz6_25,
    Hz12_5,
    Hz25,
    Hz50,
    Hz100,
}

/// Full scale of the LSM9DS0 magnetometer, in gauss.
#[derive(Clone, Copy, Debug, PartialEq, Eq, Structural)]
pub enum MagnetometerScale {
    Gauss2,
    Gauss4,
    Gauss8,
    Gauss12,
}

/// Accelerometer and magnetometer half of the LSM9DS0 settings.
#[derive(Clone, Copy, Debug, PartialEq, Eq, Structural)]
pub struct AccelerometerMagnetometerSettings {
    pub continuous_update: bool,
    pub accelerometer_data_rate: AccelerometerUpdateRate,
    pub accelerometer_anti_alias_filter_bandwidth: AccelerometerFilterBandwidth,
    pub azen: bool,
    pub ayen: bool,
    pub axen: bool,
    pub accelerometer_sensitivity: AccelerometerScale,
    pub magnetometer_resolution: MagnetometerResolution,
    pub magnetometer_data_rate: MagnetometerUpdateRate,
    pub magnetometer_low_power_mode: bool,
    pub magnetometer_mode: MagnetometerMode,
    pub magnetometer_sensitivity: MagnetometerScale,
}

/// Everything the LSM9DS0 driver is configured with.
#[derive(Clone, Copy, Debug, PartialEq, Eq, Structural)]
pub struct Lsm9ds0Settings {
    pub gyroscope: GyroscopeSettings,
    pub accelerometer_magnetometer: AccelerometerMagnetometerSettings,
}

/// Pressure compensation arithmetic of the BMP280 driver.
#[derive(Clone, Copy, Debug, PartialEq, Eq, Structural)]
pub enum Bmp280Compensation {
    B32,
    B64,
    Float,
}

/// Standby time of the BMP280 between measurements in normal mode.
#[derive(Clone, Copy, Debug, PartialEq, Eq, Structural)]
pub enum Bmp280Standby {
    Ms0_5,
    Ms62_5,
    Ms125,
    Ms250,
    Ms500,
    Ms1000,
    Ms2000,
    Ms4000,
}

/// Infinite impulse response filter coefficient of the BMP280.
#[derive(Clone, Copy, Debug, PartialEq, Eq, Structural)]
pub enum Bmp280Filter {
    Off,
    Low,
    Medium,
    High,
    UltraHigh,
}

/// Temperature oversampling of the BMP280.
#[derive(Clone, Copy, Debug, PartialEq, Eq, Structural)]
pub enum Bmp280TemperatureOversampling {
    Off,
    X1,
    X2,
    X4,
    X8,
    X16,
}

/// Pressure oversampling of the BMP280.
#[derive(Clone, Copy, Debug, PartialEq, Eq, Structural)]
pub enum Bmp280PressureOversampling {
    Off,
    UltraLowPower,
    LowPower,
    StandardResolution,
    HighResolution,
    UltraHighResolution,
}

/// Power mode of the BMP280.
#[derive(Clone, Copy, Debug, PartialEq, Eq, Structural)]
pub enum Bmp280PowerMode {
    SleepMode,
    NormalMode,
    ForcedMode,
}

/// Everything the BMP280 driver is configured with.
#[derive(Clone, Copy, Debug, PartialEq, Eq, Structural)]
pub struct Bmp280Settings {
    pub compensation: Bmp280Compensation,
    pub standby: Bmp280Standby,
    pub iir_filter_coeff: Bmp280Filter,
    pub temperature_oversampling: Bmp280TemperatureOversampling,
    pub pressure_oversampling: Bmp280PressureOversampling,
    pub power_mode: Bmp280PowerMode,
}

/// The BMP280 settings the flight stack uses: 64 bit compensation, no
/// standby, no filter, single temperature sample, standard pressure
/// resolution, continuous measurement.
pub open spec fn flight_bmp280_settings() -> Bmp280Settings {
    Bmp280Settings {
        compensation: Bmp280Compensation::B64,
        standby: Bmp280Standby::Ms0_5,
        iir_filter_coeff: Bmp280Filter::Off,
        temperature_oversampling: Bmp280TemperatureOversampling::X1,
        pressure_oversampling: Bmp280PressureOversampling::StandardResolution,
        power_mode: Bmp280PowerMode::NormalMode,
    }
}

} // verus!
