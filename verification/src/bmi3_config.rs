//! Sensor configuration records of the register-level driver. Each field
//! holds a small hardware code; writing a configuration clamps every code
//! to its legal range first.

use vstd::prelude::*;
use crate::enums::Bmi3SensConfigTypes;
use crate::enums::SensorType;

verus! {

/// A sensor configuration request, tagged with the sensor it addresses.
#[derive(Debug, Clone, Copy)]
pub struct Bmi3SensConfig {
    /// The sensor this configuration addresses
    pub sensor_type: SensorType,
    /// The configuration of that sensor, if any
    pub cfg: Option<Bmi3SensConfigTypes>,
}

/// Accelerometer configuration, as raw register field codes.
#[derive(Debug, Clone, Copy, PartialEq, Eq, Structural)]
pub struct Bmi3AccelConfig {
    /// Output data rate code
    pub odr: u8,
    /// Bandwidth code
    pub bwp: u8,
    /// Power mode code
    pub acc_mode: u8,
    /// Range code
    pub range: u8,
    /// Averaging count code
    pub avg_num: u8,
}

impl Bmi3AccelConfig {
    /// A configuration with every code zero.
    pub fn default() -> (r: Self)
        ensures
            r == (Bmi3AccelConfig { odr: 0, bwp: 0, acc_mode: 0, range: 0, avg_num: 0 }),
    {
        Bmi3AccelConfig { odr: 0, bwp: 0, acc_mode: 0, range: 0, avg_num: 0 }
    }
}

/// Gyroscope configuration, as raw register field codes.
#[derive(Debug, Clone, Copy, PartialEq, Eq, Structural)]
pub struct Bmi3GyroConfig {
    /// Output data rate code
    pub odr: u8,
    /// Bandwidth code
    pub bwp: u8,
    /// Power mode code
    pub gyr_mode: u8,
    /// Range code
    pub range: u8,
    /// Averaging count code
    pub avg_num: u8,
}

impl Bmi3GyroConfig {
    /// A configuration with every code zero.
    pub fn default() -> (r: Self)
        ensures
            r == (Bmi3GyroConfig { odr: 0, bwp: 0, gyr_mode: 0, range: 0, avg_num: 0 }),
    {
        Bmi3GyroConfig { odr: 0, bwp: 0, gyr_mode: 0, range: 0, avg_num: 0 }
    }
}

impl Bmi3SensConfig {
    /// A configuration request for `sensor_type` holding that sensor's
    /// all-zero configuration.
    pub fn new(sensor_type: SensorType) -> (r: Self)
        ensures
            r.sensor_type == sensor_type,
            sensor_type == SensorType::Accel ==> r.cfg == Some(
                Bmi3SensConfigTypes::Accel(
                    Bmi3AccelConfig { odr: 0, bwp: 0, acc_mode: 0, range: 0, avg_num: 0 },
                ),
            ),
            sensor_type == SensorType::Gyro ==> r.cfg == Some(
                Bmi3SensConfigTypes::Gyro(
                    Bmi3GyroConfig { odr: 0, bwp: 0, gyr_mode: 0, range: 0, avg_num: 0 },
                ),
            ),
    {
        let cfg = match sensor_type {
            SensorType::Accel => Some(Bmi3SensConfigTypes::Accel(Bmi3AccelConfig::default())),
            SensorType::Gyro => Some(Bmi3SensConfigTypes::Gyro(Bmi3GyroConfig::default())),
        };
        Self { sensor_type, cfg }
    }
}

} // verus!
