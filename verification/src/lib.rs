//! Register-level driver for the Bosch BMI323 6-axis inertial measurement
//! unit, exposed over a byte-addressed register interface.
//!
//! The crate offers two entry points over caller-supplied bus and delay
//! capabilities: `Bmi323`, a high-level driver whose configurations are
//! records of enumerated fields, and `Bmi3Dev`, a register-level handle
//! whose configurations are raw field codes with clamping and diagnostic
//! tracking. Both share one bit-field codec for the configuration register
//! words and one validation of the rate/averaging/mode rules.
//!
//! Every contract in the crate is machine-checked: the codec's decode is
//! proved to invert its encode on all valid field combinations, the
//! boundary clamp is proved to clamp to the nearest bound and record
//! exactly the flag of the clamped direction, and the transaction layer's
//! error classification is proved exact over the attached transport.

pub mod bmi3_config;
pub mod bmi3_core;
pub mod bmi3_defs;
pub mod bmi3_sens_axes;
pub mod bmi3_types;
pub mod bmi3dev;
pub mod bmi3mapint;
pub mod codec;
pub mod config;
pub mod device;
pub mod enums;
pub mod interface;
pub mod registers;
pub mod sensor_config;
pub mod types;
pub mod validation;

pub use config::AccelConfig;
pub use config::AccelConfigBuilder;
pub use config::GyroConfig;
pub use config::GyroConfigBuilder;
pub use device::Bmi323;
pub use registers::Register;

pub use types::AccelerometerPowerMode;
pub use types::AccelerometerRange;
pub use types::AverageNum;
pub use types::Bandwidth;
pub use types::Data;
pub use types::Error;
pub use types::GyroscopePowerMode;
pub use types::GyroscopeRange;
pub use types::OutputDataRate;
pub use types::Sensor3DData;
pub use types::SensorType;
pub use types::Status;
