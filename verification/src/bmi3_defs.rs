//! Register addresses, command words, field codes and limits of the BMI3
//! register map.

use vstd::prelude::*;

verus! {

/// Chip ID register address.
pub const BMI3_REG_CHIP_ID: u8 = 0x00;

/// Error condition register address.
pub const BMI3_REG_ERR_REG: u8 = 0x01;

/// Result code of a successful transport call.
pub const BMI3_OK: i8 = 0;

/// Mask of the revision id in the high chip-id byte.
pub const BMI3_REV_ID_MASK: u8 = 0xF0;

/// Position of the revision id in the high chip-id byte.
pub const BMI3_REV_ID_POS: u8 = 4;

/// Generic enable value.
pub const BMI3_ENABLE: u8 = 1;

/// Accelerometer data-path mask for 13-bit offset resolution.
pub const BMI3_ACC_DP_OFF_XYZ_13_BIT_MASK: u16 = 0x1FFF;

/// Accelerometer data-path mask for 14-bit offset resolution.
pub const BMI3_ACC_DP_OFF_XYZ_14_BIT_MASK: u16 = 0x3FFF;

/// Largest register transfer the driver supports, in bytes.
pub const BMI3_MAX_LEN: u8 = 128;

/// SPI read decoration: a read sets bit 7 of the register address.
pub const BMI3_SPI_RD_MASK: u8 = 0x80;

/// SPI write decoration: a write clears bit 7 of the register address.
pub const BMI3_SPI_WR_MASK: u8 = 0x7F;

/// Command register address.
pub const BMI3_REG_CMD: u8 = 0x7E;

/// Soft-reset command word.
pub const BMI3_CMD_SOFT_RESET: u16 = 0xDEAF;

/// Soft-reset settle delay, in microseconds.
pub const BMI3_SOFT_RESET_DELAY: u16 = 2000;

/// Feature engine I/O register 1.
pub const BMI3_REG_FEATURE_IO1: u8 = 0x11;

/// Feature engine I/O register 2.
pub const BMI3_REG_FEATURE_IO2: u8 = 0x12;

/// Feature I/O synchronization status and trigger register.
pub const BMI3_REG_FEATURE_IO_STATUS: u8 = 0x14;

/// Feature engine control register.
pub const BMI3_REG_FEATURE_CTRL: u8 = 0x40;

/// Feature engine enable bit in the first feature I/O status byte.
pub const BMI3_FEATURE_ENGINE_ENABLE_MASK: u8 = 0x01;

/// Accelerometer configuration register address.
pub const BMI3_REG_ACC_CONF: u8 = 0x20;

/// Gyroscope configuration register address.
pub const BMI3_REG_GYR_CONF: u8 = 0x21;

/// Interrupt mapping register address.
pub const BMI3_REG_INT_MAP1: u8 = 0x3A;

/// Accelerometer data block start register address.
pub const BMI3_REG_ACC_DATA_X: u8 = 0x03;

/// Gyroscope data block start register address.
pub const BMI3_REG_GYR_DATA_X: u8 = 0x06;

/// Interrupt status register for INT1.
pub const BMI3_REG_INT_STATUS_INT1: u8 = 0x0D;

/// Interrupt status register for INT2.
pub const BMI3_REG_INT_STATUS_INT2: u8 = 0x0E;

/// Smallest averaging code: a single sample.
pub const BMI3_ACC_AVG1: u8 = 0x00;

/// Largest averaging code: 64 samples.
pub const BMI3_ACC_AVG64: u8 = 0x06;

/// Smallest output data rate code: 0.78125 Hz.
pub const BMI3_ACC_ODR_0_78HZ: u8 = 0x01;

/// Output data rate code for 6.25 Hz, the top of the very-low-rate band.
pub const BMI3_ACC_ODR_6_25HZ: u8 = 0x04;

/// Output data rate code for 400 Hz, the largest low-power-capable rate.
pub const BMI3_ACC_ODR_400HZ: u8 = 0x0A;

/// Largest output data rate code: 6400 Hz.
pub const BMI3_ACC_ODR_6400HZ: u8 = 0x0E;

/// Smallest accelerometer range code: ±2 g.
pub const BMI3_ACC_RANGE_2G: u8 = 0x00;

/// Largest accelerometer range code: ±16 g.
pub const BMI3_ACC_RANGE_16G: u8 = 0x03;

/// Accelerometer mode code: disabled.
pub const BMI3_ACC_MODE_DISABLE: u8 = 0x00;

/// Accelerometer mode code: low power.
pub const BMI3_ACC_MODE_LOW_PWR: u8 = 0x03;

/// Accelerometer mode code: normal.
pub const BMI3_ACC_MODE_NORMAL: u8 = 0x04;

/// Accelerometer mode code: high performance.
pub const BMI3_ACC_MODE_HIGH_PERF: u8 = 0x07;

/// Accelerometer bandwidth code: half the output data rate.
pub const BMI3_ACC_BW_ODR_HALF: u8 = 0;

/// Accelerometer bandwidth code: a quarter of the output data rate.
pub const BMI3_ACC_BW_ODR_QUARTER: u8 = 1;

/// Smallest gyroscope averaging code: a single sample.
pub const BMI3_GYR_AVG1: u8 = 0x00;

/// Largest gyroscope averaging code: 64 samples.
pub const BMI3_GYR_AVG64: u8 = 0x06;

/// Smallest gyroscope output data rate code: 0.78125 Hz.
pub const BMI3_GYR_ODR_0_78HZ: u8 = 0x01;

/// Gyroscope output data rate code for 400 Hz, the largest low-power-capable
/// rate.
pub const BMI3_GYR_ODR_400HZ: u8 = 0x0A;

/// Largest gyroscope output data rate code: 6400 Hz.
pub const BMI3_GYR_ODR_6400HZ: u8 = 0x0E;

/// Smallest gyroscope range code: ±125 °/s.
pub const BMI3_GYR_RANGE_125DPS: u8 = 0x00;

/// Largest gyroscope range code: ±2000 °/s.
pub const BMI3_GYR_RANGE_2000DPS: u8 = 0x04;

/// Gyroscope mode code: disabled.
pub const BMI3_GYR_MODE_DISABLE: u8 = 0x00;

/// Gyroscope mode code: suspend.
pub const BMI3_GYR_MODE_SUSPEND: u8 = 0x01;

/// Gyroscope mode code: low power.
pub const BMI3_GYR_MODE_LOW_PWR: u8 = 0x03;

/// Gyroscope mode code: normal.
pub const BMI3_GYR_MODE_NORMAL: u8 = 0x04;

/// Gyroscope mode code: high performance.
pub const BMI3_GYR_MODE_HIGH_PERF: u8 = 0x07;

/// Gyroscope bandwidth code: half the output data rate.
pub const BMI3_GYR_BW_ODR_HALF: u8 = 0;

/// Gyroscope bandwidth code: a quarter of the output data rate.
pub const BMI3_GYR_BW_ODR_QUARTER: u8 = 1;

/// Length of the accelerometer data block, in bytes.
pub const BMI3_ACC_NUM_BYTES: u8 = 20;

/// Length of the gyroscope data block, in bytes.
pub const BMI3_GYR_NUM_BYTES: u8 = 14;

/// Expected chip id.
pub const BMI323_CHIP_ID: u16 = 0x0043;

/// Resolution recorded after a successful chip-id check.
pub const BMI3_16_BIT_RESOLUTION: u8 = 16;

} // verus!
