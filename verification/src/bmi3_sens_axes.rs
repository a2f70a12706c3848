//! Raw axis samples of the register-level driver: decoding of the fixed
//! sensor data blocks into signed axis values, sensor time and saturation
//! flags.
//!
//! The accelerometer block is 20 bytes: the three axis words at its front,
//! the two sensor-time words at bytes 14..=17 and the saturation byte at
//! byte 18. The gyroscope block is 14 bytes: the three axis words at its
//! front, the two sensor-time words at bytes 8..=11 and the saturation
//! byte at byte 12, whose gyroscope flags sit three bits higher.

use vstd::prelude::*;
use crate::bmi3_core::spec_read_addr;
use crate::bmi3_core::spec_read_ops;
use crate::bmi3_defs::BMI3_ACC_NUM_BYTES;
use crate::bmi3_defs::BMI3_GYR_NUM_BYTES;
use crate::bmi3dev::Bmi3Dev;
use crate::bmi3dev::Bmi3Transport;
use crate::enums::Bmi3Error;
use crate::types::spec_i16_from_le;
use crate::types::spec_le_word;
use crate::types::i16_from_le_pair;

verus! {

/// The 32-bit sensor time assembled from its low and high register words.
pub open spec fn spec_sens_time(lo: u16, hi: u16) -> u32 {
    (lo as u32) | ((hi as u32) << 16)
}

/// One raw axis sample: the three signed axis values, the sensor time and
/// the per-axis saturation flags.
#[derive(Debug, Clone, Copy, PartialEq, Eq, Structural)]
pub struct Bmi3SensAxesData {
    /// X-axis value
    pub x: i16,
    /// Y-axis value
    pub y: i16,
    /// Z-axis value
    pub z: i16,
    /// Sensor time
    pub sens_time: u32,
    /// X-axis saturation flag
    pub sat_x: u8,
    /// Y-axis saturation flag
    pub sat_y: u8,
    /// Z-axis saturation flag
    pub sat_z: u8,
}

impl Bmi3SensAxesData {
    /// A sample with zero axis values whose saturation flags are set, so
    /// that an unread sample is never mistaken for a clean measurement.
    pub fn default() -> (r: Self)
        ensures
            r == (Bmi3SensAxesData {
                x: 0i16,
                y: 0i16,
                z: 0i16,
                sens_time: 0u32,
                sat_x: 1u8,
                sat_y: 1u8,
                sat_z: 1u8,
            }),
    {
        Bmi3SensAxesData { x: 0, y: 0, z: 0, sens_time: 0, sat_x: 1, sat_y: 1, sat_z: 1 }
    }

    /// Decode an accelerometer data block.
    pub fn from_acc_frame(frame: &Vec<u8>) -> (r: Bmi3SensAxesData)
        requires
            frame@.len() >= 20,
        ensures
            r.x == spec_i16_from_le(frame@[0], frame@[1]),
            r.y == spec_i16_from_le(frame@[2], frame@[3]),
            r.z == spec_i16_from_le(frame@[4], frame@[5]),
            r.sens_time == spec_sens_time(
                spec_le_word(frame@[14], frame@[15]),
                spec_le_word(frame@[16], frame@[17]),
            ),
            r.sat_x == frame@[18] & 0x01,
            r.sat_y == (frame@[18] & 0x02) >> 1,
            r.sat_z == (frame@[18] & 0x04) >> 2,
    {
        let time_lo: u16 = (frame[14] as u16) | ((frame[15] as u16) << 8);
        let time_hi: u16 = (frame[16] as u16) | ((frame[17] as u16) << 8);
        let sat: u8 = frame[18];
        Bmi3SensAxesData {
            x: i16_from_le_pair(frame[0], frame[1]),
            y: i16_from_le_pair(frame[2], frame[3]),
            z: i16_from_le_pair(frame[4], frame[5]),
            sens_time: (time_lo as u32) | ((time_hi as u32) << 16),
            sat_x: sat & 0x01,
            sat_y: (sat & 0x02) >> 1,
            sat_z: (sat & 0x04) >> 2,
        }
    }

    /// Decode a gyroscope data block.
    pub fn from_gyr_frame(frame: &Vec<u8>) -> (r: Bmi3SensAxesData)
        requires
            frame@.len() >= 14,
        ensures
            r.x == spec_i16_from_le(frame@[0], frame@[1]),
            r.y == spec_i16_from_le(frame@[2], frame@[3]),
            r.z == spec_i16_from_le(frame@[4], frame@[5]),
            r.sens_time == spec_sens_time(
                spec_le_word(frame@[8], frame@[9]),
                spec_le_word(frame@[10], frame@[11]),
            ),
            r.sat_x == (frame@[12] & 0x08) >> 3,
            r.sat_y == (frame@[12] & 0x10) >> 4,
            r.sat_z == (frame@[12] & 0x20) >> 5,
    {
        let time_lo: u16 = (frame[8] as u16) | ((frame[9] as u16) << 8);
        let time_hi: u16 = (frame[10] as u16) | ((frame[11] as u16) << 8);
        let sat: u8 = frame[12];
        Bmi3SensAxesData {
            x: i16_from_le_pair(frame[0], frame[1]),
            y: i16_from_le_pair(frame[2], frame[3]),
            z: i16_from_le_pair(frame[4], frame[5]),
            sens_time: (time_lo as u32) | ((time_hi as u32) << 16),
            sat_x: (sat & 0x08) >> 3,
            sat_y: (sat & 0x10) >> 4,
            sat_z: (sat & 0x20) >> 5,
        }
    }
}

impl<T: Bmi3Transport> Bmi3Dev<T> {
    /// Read the accelerometer data block at `reg_addr` and decode it.
    ///
    /// Fails with `NullPtr` exactly when no transport is attached, with
    /// `InvalidInput` when the dummy-byte count leaves no room for the
    /// block, and with `ComFail` when the bus fails; on success exactly
    /// one raw read of the 20-byte block was handed to the transport.
    pub fn get_accel_sensor_data(&mut self, reg_addr: u8) -> (r: Result<
        Bmi3SensAxesData,
        Bmi3Error,
    >)
        ensures
            final(self).settings_unchanged(*old(self)),
            final(self).transport is Some <==> old(self).transport is Some,
            r == Err::<Bmi3SensAxesData, Bmi3Error>(Bmi3Error::NullPtr) <==> old(
                self,
            ).transport is None,
            r matches Err(e) ==> e == Bmi3Error::NullPtr || e == Bmi3Error::ComFail || e
                == Bmi3Error::InvalidInput,
            old(self).transport is None ==> final(self).bus_log@ == old(self).bus_log@,
            r is Ok ==> final(self).bus_log@ == old(self).bus_log@ + spec_read_ops(
                spec_read_addr(reg_addr, old(self).intf),
                (BMI3_ACC_NUM_BYTES + old(self).dummy_byte) as nat,
                true,
            ),
    {
        let reg_data = match self.bmi3_get_regs(reg_addr, BMI3_ACC_NUM_BYTES as u16) {
            Ok(v) => v,
            Err(e) => {
                return Err(e);
            },
        };
        Ok(Bmi3SensAxesData::from_acc_frame(&reg_data))
    }

    /// Read the gyroscope data block at `reg_addr` and decode it.
    ///
    /// Fails with `NullPtr` exactly when no transport is attached, with
    /// `InvalidInput` when the dummy-byte count leaves no room for the
    /// block, and with `ComFail` when the bus fails; on success exactly
    /// one raw read of the 14-byte block was handed to the transport.
    pub fn get_gyro_sensor_data(&mut self, reg_addr: u8) -> (r: Result<
        Bmi3SensAxesData,
        Bmi3Error,
    >)
        ensures
            final(self).settings_unchanged(*old(self)),
            final(self).transport is Some <==> old(self).transport is Some,
            r == Err::<Bmi3SensAxesData, Bmi3Error>(Bmi3Error::NullPtr) <==> old(
                self,
            ).transport is None,
            r matches Err(e) ==> e == Bmi3Error::NullPtr || e == Bmi3Error::ComFail || e
                == Bmi3Error::InvalidInput,
            old(self).transport is None ==> final(self).bus_log@ == old(self).bus_log@,
            r is Ok ==> final(self).bus_log@ == old(self).bus_log@ + spec_read_ops(
                spec_read_addr(reg_addr, old(self).intf),
                (BMI3_GYR_NUM_BYTES + old(self).dummy_byte) as nat,
                true,
            ),
    {
        let reg_data = match self.bmi3_get_regs(reg_addr, BMI3_GYR_NUM_BYTES as u16) {
            Ok(v) => v,
            Err(e) => {
                return Err(e);
            },
        };
        Ok(Bmi3SensAxesData::from_gyr_frame(&reg_data))
    }
}

} // verus!
