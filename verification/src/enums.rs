//! Enumerations of the register-level driver: sensor selectors, interface
//! kinds, interrupt pins and the error taxonomy.

use vstd::prelude::*;
use crate::bmi3_config::Bmi3AccelConfig;
use crate::bmi3_config::Bmi3GyroConfig;

verus! {

/// Selector for one of the two inertial sensors.
#[derive(Debug, Clone, Copy, PartialEq, Eq, Structural)]
pub enum SensorType {
    /// The accelerometer
    Accel,
    /// The gyroscope
    Gyro,
}

/// A sensor configuration of either kind.
#[derive(Debug, Clone, Copy)]
pub enum Bmi3SensConfigTypes {
    /// An accelerometer configuration
    Accel(Bmi3AccelConfig),
    /// A gyroscope configuration
    Gyro(Bmi3GyroConfig),
}

/// Hardware interrupt pin selectors.
#[derive(Debug, Clone, Copy, PartialEq, Eq, Structural)]
pub enum Bmi3HwIntPin {
    /// No pin
    Bmi3IntNone,
    /// Pin INT1
    Bmi3Int1,
    /// Pin INT2
    Bmi3Int2,
    /// The I3C in-band interrupt
    Bmi3I3cInt,
    /// Number of selectors
    Bmi3IntPinMax,
}

/// Chip interface kinds.
#[derive(Debug, Clone, Copy, PartialEq, Eq, Structural)]
pub enum Bmi3Intf {
    /// Serial peripheral interface
    Spi,
    /// Inter-integrated circuit
    I2c,
    /// Improved inter-integrated circuit
    I3c,
}

/// Errors of the register-level driver.
#[derive(Debug, Clone, Copy, PartialEq, Eq, Structural)]
pub enum Bmi3Error {
    /// A required transport capability is unset, or a required value absent
    NullPtr,
    /// The underlying transport call failed
    ComFail,
    /// Chip-id mismatch after reset
    DevNotFound,
    /// Accelerometer configuration combination rejected
    AccInvalidCfg,
    /// Gyroscope configuration combination rejected
    GyroInvalidCfg,
    /// Unknown sensor selector
    InvalidSensor,
    /// Unknown interrupt pin selector
    InvalidIntPin,
    /// Value outside any decodable lookup table
    InvalidInput,
    /// Invalid status word
    InvalidStatus,
    /// Data-ready interrupt did not fire
    DataRdyIntFailed,
    /// Invalid fast-offset-compensation position
    InvalidFocPosition,
    /// Invalid self-test selection
    InvalidStSelection,
    /// Value outside its supported range
    OutOfRange,
    /// Feature engine reported an error status
    FeatureEngineStatus,
}

/// Errors of an I2C transport implementation.
#[derive(Debug, Clone, Copy, PartialEq, Eq, Structural)]
pub enum I2cError {
    /// A required capability is unset
    NullPtr,
    /// The bus transaction failed
    ComFail,
    /// The device did not acknowledge
    NackReceived,
    /// The bus could not be initialized
    InitializationError,
}

} // verus!
