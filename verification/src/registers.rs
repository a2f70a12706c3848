//! BMI323 register addresses and constant values.

use vstd::prelude::*;

verus! {

/// BMI323 register addresses and constant values
pub struct Register;

impl Register {
    /// Chip ID register address
    pub const CHIPID: u8 = 0x00;

    /// Error register address
    pub const ERR_REG: u8 = 0x01;

    /// Status register address
    pub const STATUS: u8 = 0x02;

    /// Accelerometer X-axis data register address
    pub const ACC_DATA_X: u8 = 0x03;

    /// Gyroscope X-axis data register address
    pub const GYR_DATA_X: u8 = 0x06;

    /// Accelerometer configuration register address
    pub const ACC_CONF: u8 = 0x20;

    /// Gyroscope configuration register address
    pub const GYR_CONF: u8 = 0x21;

    /// Command register address
    pub const CMD: u8 = 0x7E;

    /// Expected chip ID for BMI323
    pub const BMI323_CHIP_ID: u8 = 0x43;

    /// Soft reset command value
    pub const CMD_SOFT_RESET: u16 = 0xDEAF;
}

} // verus!
