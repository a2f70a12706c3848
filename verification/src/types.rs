//! Core data types for the BMI323 driver: error taxonomy, configuration
//! field enumerations with their hardware register codes, and raw sample
//! structures.

use vstd::prelude::*;

verus! {

/// Possible errors that can occur when interacting with the BMI323
#[derive(Debug)]
pub enum Error<E> {
    /// Communication error
    Comm(E),
    /// Invalid device (wrong chip ID)
    InvalidDevice,
    /// Invalid configuration
    InvalidConfig,
}

/// Accelerometer power modes
#[derive(Debug, Clone, Copy, PartialEq, Eq, Structural)]
pub enum AccelerometerPowerMode {
    /// Accelerometer disabled
    Disable,
    /// Low power mode
    LowPower,
    /// Normal power mode
    Normal,
    /// High performance mode
    HighPerf,
}

impl AccelerometerPowerMode {
    /// Hardware code of the power mode, as written to the mode field
    /// of the accelerometer configuration register.
    pub open spec fn spec_code(self) -> u8 {
        match self {
            AccelerometerPowerMode::Disable => 0x00,
            AccelerometerPowerMode::LowPower => 0x03,
            AccelerometerPowerMode::Normal => 0x04,
            AccelerometerPowerMode::HighPerf => 0x07,
        }
    }

    /// Hardware code of the power mode.
    pub fn code(self) -> (r: u8)
        ensures
            r == self.spec_code(),
            r <= 7,
    {
        match self {
            AccelerometerPowerMode::Disable => 0x00,
            AccelerometerPowerMode::LowPower => 0x03,
            AccelerometerPowerMode::Normal => 0x04,
            AccelerometerPowerMode::HighPerf => 0x07,
        }
    }
}

/// Accelerometer measurement ranges
#[derive(Debug, Clone, Copy, PartialEq, Eq, Structural)]
pub enum AccelerometerRange {
    /// ±2 g
    G2,
    /// ±4 g
    G4,
    /// ±8 g
    G8,
    /// ±16 g
    G16,
}

impl AccelerometerRange {
    /// Hardware code of the range selector.
    pub open spec fn spec_code(self) -> u8 {
        match self {
            AccelerometerRange::G2 => 0,
            AccelerometerRange::G4 => 1,
            AccelerometerRange::G8 => 2,
            AccelerometerRange::G16 => 3,
        }
    }

    /// Hardware code of the range selector.
    pub fn code(self) -> (r: u8)
        ensures
            r == self.spec_code(),
            r <= 3,
    {
        match self {
            AccelerometerRange::G2 => 0,
            AccelerometerRange::G4 => 1,
            AccelerometerRange::G8 => 2,
            AccelerometerRange::G16 => 3,
        }
    }
}

impl Default for AccelerometerRange {
    /// The power-on default range of the accelerometer.
    fn default() -> (r: Self)
        ensures
            r == AccelerometerRange::G8,
    {
        AccelerometerRange::G8
    }
}

/// Gyroscope power mode
#[derive(Debug, Clone, Copy, PartialEq, Eq, Structural)]
pub enum GyroscopePowerMode {
    /// Gyroscope disabled
    Disable,
    /// Suspend mode
    Suspend,
    /// Low power mode
    LowPower,
    /// Normal power mode
    Normal,
    /// High performance mode
    HighPerf,
}

impl GyroscopePowerMode {
    /// Hardware code of the power mode.
    pub open spec fn spec_code(self) -> u8 {
        match self {
            GyroscopePowerMode::Disable => 0x00,
            GyroscopePowerMode::Suspend => 0x01,
            GyroscopePowerMode::LowPower => 0x03,
            GyroscopePowerMode::Normal => 0x04,
            GyroscopePowerMode::HighPerf => 0x07,
        }
    }

    /// Hardware code of the power mode.
    pub fn code(self) -> (r: u8)
        ensures
            r == self.spec_code(),
            r <= 7,
    {
        match self {
            GyroscopePowerMode::Disable => 0x00,
            GyroscopePowerMode::Suspend => 0x01,
            GyroscopePowerMode::LowPower => 0x03,
            GyroscopePowerMode::Normal => 0x04,
            GyroscopePowerMode::HighPerf => 0x07,
        }
    }
}

/// Gyroscope measurement ranges
#[derive(Debug, Clone, Copy, PartialEq, Eq, Structural)]
pub enum GyroscopeRange {
    /// ±125 degrees per second
    DPS125,
    /// ±250 degrees per second
    DPS250,
    /// ±500 degrees per second
    DPS500,
    /// ±1000 degrees per second
    DPS1000,
    /// ±2000 degrees per second
    DPS2000,
}

impl GyroscopeRange {
    /// Hardware code of the range selector.
    pub open spec fn spec_code(self) -> u8 {
        match self {
            GyroscopeRange::DPS125 => 0,
            GyroscopeRange::DPS250 => 1,
            GyroscopeRange::DPS500 => 2,
            GyroscopeRange::DPS1000 => 3,
            GyroscopeRange::DPS2000 => 4,
        }
    }

    /// Hardware code of the range selector.
    pub fn code(self) -> (r: u8)
        ensures
            r == self.spec_code(),
            r <= 4,
    {
        match self {
            GyroscopeRange::DPS125 => 0,
            GyroscopeRange::DPS250 => 1,
            GyroscopeRange::DPS500 => 2,
            GyroscopeRange::DPS1000 => 3,
            GyroscopeRange::DPS2000 => 4,
        }
    }
}

impl Default for GyroscopeRange {
    /// The power-on default range of the gyroscope.
    fn default() -> (r: Self)
        ensures
            r == GyroscopeRange::DPS2000,
    {
        GyroscopeRange::DPS2000
    }
}

/// Output data rates for sensors
#[derive(Debug, Clone, Copy, PartialEq, Eq, Structural)]
pub enum OutputDataRate {
    /// 0.78 Hz
    Odr0_78hz,
    /// 1.56 Hz
    Odr1_56hz,
    /// 3.125 Hz
    Odr3_125hz,
    /// 6.25 Hz
    Odr6_25hz,
    /// 12.5 Hz
    Odr12_5hz,
    /// 25 Hz
    Odr25hz,
    /// 50 Hz
    Odr50hz,
    /// 100 Hz
    Odr100hz,
    /// 200 Hz
    Odr200hz,
    /// 400 Hz
    Odr400hz,
    /// 800 Hz
    Odr800hz,
    /// 1600 Hz
    Odr1600hz,
    /// 3200 Hz
    Odr3200hz,
    /// 6400 Hz
    Odr6400hz,
}

impl OutputDataRate {
    /// Hardware code of the output data rate.
    pub open spec fn spec_code(self) -> u8 {
        match self {
            OutputDataRate::Odr0_78hz => 0x01,
            OutputDataRate::Odr1_56hz => 0x02,
            OutputDataRate::Odr3_125hz => 0x03,
            OutputDataRate::Odr6_25hz => 0x04,
            OutputDataRate::Odr12_5hz => 0x05,
            OutputDataRate::Odr25hz => 0x06,
            OutputDataRate::Odr50hz => 0x07,
            OutputDataRate::Odr100hz => 0x08,
            OutputDataRate::Odr200hz => 0x09,
            OutputDataRate::Odr400hz => 0x0A,
            OutputDataRate::Odr800hz => 0x0B,
            OutputDataRate::Odr1600hz => 0x0C,
            OutputDataRate::Odr3200hz => 0x0D,
            OutputDataRate::Odr6400hz => 0x0E,
        }
    }

    /// Hardware code of the output data rate.
    pub fn code(self) -> (r: u8)
        ensures
            r == self.spec_code(),
            1 <= r <= 14,
    {
        match self {
            OutputDataRate::Odr0_78hz => 0x01,
            OutputDataRate::Odr1_56hz => 0x02,
            OutputDataRate::Odr3_125hz => 0x03,
            OutputDataRate::Odr6_25hz => 0x04,
            OutputDataRate::Odr12_5hz => 0x05,
            OutputDataRate::Odr25hz => 0x06,
            OutputDataRate::Odr50hz => 0x07,
            OutputDataRate::Odr100hz => 0x08,
            OutputDataRate::Odr200hz => 0x09,
            OutputDataRate::Odr400hz => 0x0A,
            OutputDataRate::Odr800hz => 0x0B,
            OutputDataRate::Odr1600hz => 0x0C,
            OutputDataRate::Odr3200hz => 0x0D,
            OutputDataRate::Odr6400hz => 0x0E,
        }
    }
}

/// Number of samples to average
#[derive(Debug, Clone, Copy, PartialEq, Eq, Structural)]
pub enum AverageNum {
    /// No averaging
    Avg1,
    /// Average 2 samples
    Avg2,
    /// Average 4 samples
    Avg4,
    /// Average 8 samples
    Avg8,
    /// Average 16 samples
    Avg16,
    /// Average 32 samples
    Avg32,
    /// Average 64 samples
    Avg64,
}

impl AverageNum {
    /// Hardware code of the averaging selector.
    pub open spec fn spec_code(self) -> u8 {
        match self {
            AverageNum::Avg1 => 0x00,
            AverageNum::Avg2 => 0x01,
            AverageNum::Avg4 => 0x02,
            AverageNum::Avg8 => 0x03,
            AverageNum::Avg16 => 0x04,
            AverageNum::Avg32 => 0x05,
            AverageNum::Avg64 => 0x06,
        }
    }

    /// Hardware code of the averaging selector.
    pub fn code(self) -> (r: u8)
        ensures
            r == self.spec_code(),
            r <= 6,
    {
        match self {
            AverageNum::Avg1 => 0x00,
            AverageNum::Avg2 => 0x01,
            AverageNum::Avg4 => 0x02,
            AverageNum::Avg8 => 0x03,
            AverageNum::Avg16 => 0x04,
            AverageNum::Avg32 => 0x05,
            AverageNum::Avg64 => 0x06,
        }
    }
}

/// Sensor bandwidth settings
#[derive(Debug, Clone, Copy, PartialEq, Eq, Structural)]
pub enum Bandwidth {
    /// Half of the output data rate
    OdrHalf,
    /// Quarter of the output data rate
    OdrQuarter,
}

impl Bandwidth {
    /// Hardware code of the bandwidth selector.
    pub open spec fn spec_code(self) -> u8 {
        match self {
            Bandwidth::OdrHalf => 0,
            Bandwidth::OdrQuarter => 1,
        }
    }

    /// Hardware code of the bandwidth selector.
    pub fn code(self) -> (r: u8)
        ensures
            r == self.spec_code(),
            r <= 1,
    {
        match self {
            Bandwidth::OdrHalf => 0,
            Bandwidth::OdrQuarter => 1,
        }
    }
}

/// Selector for one of the two inertial sensors of the chip
#[derive(Debug, Clone, Copy, PartialEq, Eq, Structural)]
pub enum SensorType {
    /// The accelerometer
    Accelerometer,
    /// The gyroscope
    Gyroscope,
}

/// BMI323 status information
#[derive(Debug, Clone, Copy, PartialEq, Eq, Structural)]
pub struct Status {
    /// Accelerometer data ready flag
    pub accel_data_ready: bool,
    /// Gyroscope data ready flag
    pub gyro_data_ready: bool,
    /// Non-volatile memory ready flag
    pub nvm_ready: bool,
    /// Fast offset compensation ready flag
    pub foc_ready: bool,
    /// Gyroscope self-test OK flag
    pub gyro_self_test_ok: bool,
}

/// 3D sensor data (raw values)
#[derive(Debug, Clone, Copy, PartialEq, Eq, Structural)]
pub struct Sensor3DData {
    /// X-axis value
    pub x: i16,
    /// Y-axis value
    pub y: i16,
    /// Z-axis value
    pub z: i16,
}

/// The 16-bit register word assembled from a little-endian byte pair.
pub open spec fn spec_le_word(lo: u8, hi: u8) -> u16 {
    (lo as u16) | ((hi as u16) << 8)
}

/// The signed 16-bit value whose two's-complement representation is `w`.
pub open spec fn spec_as_signed16(w: u16) -> i16 {
    if w < 0x8000 {
        w as i16
    } else {
        (w - 0x10000) as i16
    }
}

/// The signed axis value encoded by a little-endian byte pair.
pub open spec fn spec_i16_from_le(lo: u8, hi: u8) -> i16 {
    spec_as_signed16(spec_le_word(lo, hi))
}

/// Reassemble a 16-bit register word from its little-endian byte pair.
pub fn u16_from_le_pair(lo: u8, hi: u8) -> (r: u16)
    ensures
        r == spec_le_word(lo, hi),
{
    (lo as u16) | ((hi as u16) << 8)
}

/// Reassemble a signed 16-bit value from its little-endian byte pair.
pub fn i16_from_le_pair(lo: u8, hi: u8) -> (r: i16)
    ensures
        r == spec_i16_from_le(lo, hi),
{
    let w: u16 = (lo as u16) | ((hi as u16) << 8);
    proof {
        assert((lo as u16) | ((hi as u16) << 8) == (lo as u16) + ((hi as u16) << 8)
            && ((hi as u16) << 8) <= 0xFF00) by (bit_vector);
    }
    if w < 0x8000 {
        w as i16
    } else {
        ((w as i32) - 0x10000) as i16
    }
}

impl Sensor3DData {
    /// Decode the three signed 16-bit axis values from the first six bytes of
    /// a little-endian data block, x first.
    pub fn from_le_slice(data: &[u8]) -> (r: Sensor3DData)
        requires
            data@.len() >= 6,
        ensures
            r.x == spec_i16_from_le(data@[0], data@[1]),
            r.y == spec_i16_from_le(data@[2], data@[3]),
            r.z == spec_i16_from_le(data@[4], data@[5]),
    {
        Sensor3DData {
            x: i16_from_le_pair(data[0], data[1]),
            y: i16_from_le_pair(data[2], data[3]),
            z: i16_from_le_pair(data[4], data[5]),
        }
    }
}

/// Raw sensor data bundle
#[derive(Debug, Clone, Copy, PartialEq, Eq, Structural)]
pub struct Data {
    /// Accelerometer data (if selected)
    pub accel: Option<Sensor3DData>,
    /// Gyroscope data (if selected)
    pub gyro: Option<Sensor3DData>,
    /// Sensor time (if selected)
    pub time: Option<u32>,
}

} // verus!
