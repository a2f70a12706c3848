//! Writing and reading sensor configurations on the register-level device
//! handle.
//!
//! Writing clamps every field code to its legal range (recording clamps in
//! the diagnostic bitmask), rejects rate/averaging/mode combinations the
//! chip does not support, encodes the five fields into one register word
//! and writes its two bytes; reading decodes the register word into a
//! configuration record without clamping anything.

use vstd::prelude::*;
use crate::bmi3_config::Bmi3AccelConfig;
use crate::bmi3_config::Bmi3GyroConfig;
use crate::bmi3_defs::BMI3_ACC_AVG1;
use crate::bmi3_defs::BMI3_ACC_AVG64;
use crate::bmi3_defs::BMI3_ACC_BW_ODR_HALF;
use crate::bmi3_defs::BMI3_ACC_BW_ODR_QUARTER;
use crate::bmi3_defs::BMI3_ACC_MODE_DISABLE;
use crate::bmi3_defs::BMI3_ACC_MODE_HIGH_PERF;
use crate::bmi3_defs::BMI3_ACC_MODE_LOW_PWR;
use crate::bmi3_defs::BMI3_ACC_MODE_NORMAL;
use crate::bmi3_defs::BMI3_ACC_ODR_0_78HZ;
use crate::bmi3_defs::BMI3_ACC_ODR_6400HZ;
use crate::bmi3_defs::BMI3_ACC_ODR_400HZ;
use crate::bmi3_defs::BMI3_ACC_ODR_6_25HZ;
use crate::bmi3_defs::BMI3_ACC_RANGE_16G;
use crate::bmi3_defs::BMI3_ACC_RANGE_2G;
use crate::bmi3_defs::BMI3_GYR_AVG1;
use crate::bmi3_defs::BMI3_GYR_AVG64;
use crate::bmi3_defs::BMI3_GYR_BW_ODR_HALF;
use crate::bmi3_defs::BMI3_GYR_BW_ODR_QUARTER;
use crate::bmi3_defs::BMI3_GYR_MODE_DISABLE;
use crate::bmi3_defs::BMI3_GYR_MODE_HIGH_PERF;
use crate::bmi3_defs::BMI3_GYR_MODE_LOW_PWR;
use crate::bmi3_defs::BMI3_GYR_ODR_0_78HZ;
use crate::bmi3_defs::BMI3_GYR_ODR_400HZ;
use crate::bmi3_defs::BMI3_GYR_ODR_6400HZ;
use crate::bmi3_defs::BMI3_GYR_RANGE_125DPS;
use crate::bmi3_defs::BMI3_GYR_RANGE_2000DPS;
use crate::bmi3_defs::BMI3_REG_ACC_CONF;
use crate::bmi3_defs::BMI3_REG_GYR_CONF;
use crate::bmi3_core::spec_read_addr;
use crate::bmi3_core::spec_read_ops;
use crate::bmi3_core::spec_write_addr;
use crate::bmi3_core::spec_write_ops;
use crate::bmi3_types::Bmi3Result;
use crate::bmi3dev::Bmi3Dev;
use crate::bmi3dev::Bmi3Transport;
use crate::types::u16_from_le_pair;
use crate::codec::decode_sensor_conf;
use crate::codec::encode_sensor_conf;
use crate::codec::lemma_sensor_conf_roundtrip;
use crate::codec::spec_conf_avg;
use crate::codec::spec_conf_bw;
use crate::codec::spec_conf_mode;
use crate::codec::spec_conf_odr;
use crate::codec::spec_conf_range;
use crate::codec::spec_encode_sensor_conf;
use crate::codec::spec_word_hi;
use crate::codec::spec_word_lo;
use crate::codec::word_to_le_bytes;
use crate::enums::Bmi3Error;
use crate::validation::check_skipped_samples;
use crate::validation::spec_clamp_flags;
use crate::validation::spec_clamp_value;
use crate::validation::spec_skipped_samples_positive;

verus! {

/// The error of the low-power rate/averaging check: rate codes outside the
/// low-power band decode to no table entry (`InvalidInput`, as does an
/// averaging code outside its table), and a non-positive skipped-samples
/// margin is rejected with the sensor-specific error `invalid_cfg`.
pub open spec fn spec_odr_avg_error(odr: u8, avg: u8, invalid_cfg: Bmi3Error) -> Option<
    Bmi3Error,
> {
    if odr < 1 || odr > 10 {
        Some(Bmi3Error::InvalidInput)
    } else if avg > 6 {
        Some(Bmi3Error::InvalidInput)
    } else if !spec_skipped_samples_positive(odr, avg) {
        Some(invalid_cfg)
    } else {
        None
    }
}

/// The accelerometer configuration after every field is clamped to its
/// legal range.
pub open spec fn spec_clamped_accel(c: Bmi3AccelConfig) -> Bmi3AccelConfig {
    Bmi3AccelConfig {
        odr: spec_clamp_value(c.odr, 1, 14),
        bwp: spec_clamp_value(c.bwp, 0, 1),
        acc_mode: spec_clamp_value(c.acc_mode, 0, 7),
        range: spec_clamp_value(c.range, 0, 3),
        avg_num: spec_clamp_value(c.avg_num, 0, 6),
    }
}

/// The diagnostic flags the five accelerometer clamps record, in the order
/// they are applied: mode, averaging, bandwidth, rate, range.
pub open spec fn spec_accel_clamp_flags(c: Bmi3AccelConfig) -> u8 {
    (((spec_clamp_flags(c.acc_mode, 0, 7) | spec_clamp_flags(c.avg_num, 0, 6)) | spec_clamp_flags(
        c.bwp,
        0,
        1,
    )) | spec_clamp_flags(c.odr, 1, 14)) | spec_clamp_flags(c.range, 0, 3)
}

/// The error a clamped accelerometer configuration is rejected with, if
/// any: the low-power check in low-power mode, and the rejection of normal
/// and high-performance mode in the band below 12.5 Hz.
pub open spec fn spec_accel_cfg_error(c: Bmi3AccelConfig) -> Option<Bmi3Error> {
    if c.acc_mode == BMI3_ACC_MODE_LOW_PWR {
        spec_odr_avg_error(c.odr, c.avg_num, Bmi3Error::AccInvalidCfg)
    } else if (c.acc_mode == BMI3_ACC_MODE_NORMAL || c.acc_mode == BMI3_ACC_MODE_HIGH_PERF)
        && BMI3_ACC_ODR_0_78HZ <= c.odr && c.odr <= BMI3_ACC_ODR_6_25HZ {
        Some(Bmi3Error::AccInvalidCfg)
    } else {
        None
    }
}

/// The gyroscope configuration after every field is clamped to its legal
/// range.
pub open spec fn spec_clamped_gyro(c: Bmi3GyroConfig) -> Bmi3GyroConfig {
    Bmi3GyroConfig {
        odr: spec_clamp_value(c.odr, 1, 14),
        bwp: spec_clamp_value(c.bwp, 0, 1),
        gyr_mode: spec_clamp_value(c.gyr_mode, 0, 7),
        range: spec_clamp_value(c.range, 0, 4),
        avg_num: spec_clamp_value(c.avg_num, 0, 6),
    }
}

/// The diagnostic flags the five gyroscope clamps record, in the order
/// they are applied: mode, averaging, bandwidth, rate, range.
pub open spec fn spec_gyro_clamp_flags(c: Bmi3GyroConfig) -> u8 {
    (((spec_clamp_flags(c.gyr_mode, 0, 7) | spec_clamp_flags(c.avg_num, 0, 6)) | spec_clamp_flags(
        c.bwp,
        0,
        1,
    )) | spec_clamp_flags(c.odr, 1, 14)) | spec_clamp_flags(c.range, 0, 4)
}

/// The error a clamped gyroscope configuration is rejected with, if any:
/// the low-power check in low-power mode.
pub open spec fn spec_gyro_cfg_error(c: Bmi3GyroConfig) -> Option<Bmi3Error> {
    if c.gyr_mode == BMI3_GYR_MODE_LOW_PWR {
        spec_odr_avg_error(c.odr, c.avg_num, Bmi3Error::GyroInvalidCfg)
    } else {
        None
    }
}

/// A sensor configuration request after the clamp its write applies:
/// whichever configuration the entry holds is clamped field by field, and
/// an entry holding none is untouched.
pub open spec fn spec_clamped_entry(e: crate::bmi3_config::Bmi3SensConfig)
    -> crate::bmi3_config::Bmi3SensConfig {
    match e.cfg {
        Some(crate::enums::Bmi3SensConfigTypes::Accel(ac)) => crate::bmi3_config::Bmi3SensConfig {
            sensor_type: e.sensor_type,
            cfg: Some(crate::enums::Bmi3SensConfigTypes::Accel(spec_clamped_accel(ac))),
        },
        Some(crate::enums::Bmi3SensConfigTypes::Gyro(gc)) => crate::bmi3_config::Bmi3SensConfig {
            sensor_type: e.sensor_type,
            cfg: Some(crate::enums::Bmi3SensConfigTypes::Gyro(spec_clamped_gyro(gc))),
        },
        None => e,
    }
}

/// The register word a clamped accelerometer configuration is written as.
pub open spec fn spec_accel_reg_word(c: Bmi3AccelConfig) -> u16 {
    spec_encode_sensor_conf(c.odr, c.range, c.bwp, c.avg_num, c.acc_mode)
}

/// The register word a clamped gyroscope configuration is written as.
pub open spec fn spec_gyro_reg_word(c: Bmi3GyroConfig) -> u16 {
    spec_encode_sensor_conf(c.odr, c.range, c.bwp, c.avg_num, c.gyr_mode)
}

/// Decoding the register word written for a clamped accelerometer
/// configuration recovers exactly its five field codes: the clamp keeps
/// every code inside its field mask.
pub proof fn lemma_accel_write_read_roundtrip(c: Bmi3AccelConfig)
    ensures
        spec_conf_odr(spec_accel_reg_word(spec_clamped_accel(c))) == spec_clamped_accel(c).odr,
        spec_conf_range(spec_accel_reg_word(spec_clamped_accel(c))) == spec_clamped_accel(c).range,
        spec_conf_bw(spec_accel_reg_word(spec_clamped_accel(c))) == spec_clamped_accel(c).bwp,
        spec_conf_avg(spec_accel_reg_word(spec_clamped_accel(c))) == spec_clamped_accel(
            c,
        ).avg_num,
        spec_conf_mode(spec_accel_reg_word(spec_clamped_accel(c))) == spec_clamped_accel(
            c,
        ).acc_mode,
{
    let cc = spec_clamped_accel(c);
    lemma_sensor_conf_roundtrip(cc.odr, cc.range, cc.bwp, cc.avg_num, cc.acc_mode);
}

/// Decoding the register word written for a clamped gyroscope
/// configuration recovers exactly its five field codes: the clamp keeps
/// every code inside its field mask.
pub proof fn lemma_gyro_write_read_roundtrip(c: Bmi3GyroConfig)
    ensures
        spec_conf_odr(spec_gyro_reg_word(spec_clamped_gyro(c))) == spec_clamped_gyro(c).odr,
        spec_conf_range(spec_gyro_reg_word(spec_clamped_gyro(c))) == spec_clamped_gyro(c).range,
        spec_conf_bw(spec_gyro_reg_word(spec_clamped_gyro(c))) == spec_clamped_gyro(c).bwp,
        spec_conf_avg(spec_gyro_reg_word(spec_clamped_gyro(c))) == spec_clamped_gyro(c).avg_num,
        spec_conf_mode(spec_gyro_reg_word(spec_clamped_gyro(c))) == spec_clamped_gyro(c).gyr_mode,
{
    let cc = spec_clamped_gyro(c);
    lemma_sensor_conf_roundtrip(cc.odr, cc.range, cc.bwp, cc.avg_num, cc.gyr_mode);
}

impl<T: Bmi3Transport> Bmi3Dev<T> {
    /// Decide the low-power rate/averaging rule for the accelerometer.
    fn validate_acc_odr_avg(&mut self, acc_odr: u8, acc_avg: u8) -> (r: Bmi3Result<()>)
        ensures
            *final(self) == *old(self),
            spec_odr_avg_error(acc_odr, acc_avg, Bmi3Error::AccInvalidCfg) matches Some(e) ==> r
                == Err::<(), Bmi3Error>(e),
            spec_odr_avg_error(acc_odr, acc_avg, Bmi3Error::AccInvalidCfg) is None ==> r is Ok,
    {
        if acc_odr < BMI3_ACC_ODR_0_78HZ || acc_odr > BMI3_ACC_ODR_400HZ {
            return Err(Bmi3Error::InvalidInput);
        }
        if acc_avg > BMI3_ACC_AVG64 {
            return Err(Bmi3Error::InvalidInput);
        }
        if check_skipped_samples(acc_odr, acc_avg) {
            Ok(())
        } else {
            Err(Bmi3Error::AccInvalidCfg)
        }
    }

    /// Decide the low-power rate/averaging rule for the gyroscope.
    fn validate_gyr_odr_avg(&mut self, gyr_odr: u8, gyr_avg: u8) -> (r: Bmi3Result<()>)
        ensures
            *final(self) == *old(self),
            spec_odr_avg_error(gyr_odr, gyr_avg, Bmi3Error::GyroInvalidCfg) matches Some(e) ==> r
                == Err::<(), Bmi3Error>(e),
            spec_odr_avg_error(gyr_odr, gyr_avg, Bmi3Error::GyroInvalidCfg) is None ==> r is Ok,
    {
        if gyr_odr < BMI3_GYR_ODR_0_78HZ || gyr_odr > BMI3_GYR_ODR_400HZ {
            return Err(Bmi3Error::InvalidInput);
        }
        if gyr_avg > BMI3_GYR_AVG64 {
            return Err(Bmi3Error::InvalidInput);
        }
        if check_skipped_samples(gyr_odr, gyr_avg) {
            Ok(())
        } else {
            Err(Bmi3Error::GyroInvalidCfg)
        }
    }

    /// Clamp, validate and write an accelerometer configuration.
    ///
    /// With no transport attached nothing changes and `NullPtr` is
    /// returned. Otherwise every field of `config` is clamped to its legal
    /// range first, with the clamps recorded in the diagnostic bitmask;
    /// then the clamped combination is validated, and a valid one is
    /// encoded and written as one two-byte register write, which only the
    /// bus can still fail with `ComFail`.
    pub fn set_accel_config(&mut self, config: &mut Bmi3AccelConfig) -> (r: Bmi3Result<()>)
        ensures
            final(self).settings_unchanged_except_info(*old(self)),
            final(self).transport is Some <==> old(self).transport is Some,
            old(self).transport is None ==> r == Err::<(), Bmi3Error>(Bmi3Error::NullPtr)
                && *final(config) == *old(config) && final(self).info == old(self).info && final(self).bus_log@ == old(self).bus_log@,
            old(self).transport is Some ==> *final(config) == spec_clamped_accel(*old(config))
                && final(self).info == (old(self).info | spec_accel_clamp_flags(*old(config)))
                && match spec_accel_cfg_error(spec_clamped_accel(*old(config))) {
                Some(e) => r == Err::<(), Bmi3Error>(e) && final(self).bus_log@ == old(self).bus_log@,
                None => (r is Ok || r == Err::<(), Bmi3Error>(Bmi3Error::ComFail)) && final(self).bus_log@ == old(self).bus_log@ + spec_write_ops(
                    spec_write_addr(BMI3_REG_ACC_CONF, old(self).intf),
                    seq![
                        spec_word_lo(spec_accel_reg_word(spec_clamped_accel(*old(config)))),
                        spec_word_hi(spec_accel_reg_word(spec_clamped_accel(*old(config)))),
                    ],
                    r is Ok,
                ),
            },
    {
        match self.null_ptr_check() {
            Ok(()) => {},
            Err(e) => {
                return Err(e);
            },
        }
        let mode = match self.check_boundary_val(
            Some(config.acc_mode),
            BMI3_ACC_MODE_DISABLE,
            BMI3_ACC_MODE_HIGH_PERF,
        ) {
            Ok(v) => v,
            Err(e) => {
                return Err(e);
            },
        };
        config.acc_mode = mode;
        let avg = match self.check_boundary_val(Some(config.avg_num), BMI3_ACC_AVG1, BMI3_ACC_AVG64)
            {
            Ok(v) => v,
            Err(e) => {
                return Err(e);
            },
        };
        config.avg_num = avg;
        let bw = match self.check_boundary_val(
            Some(config.bwp),
            BMI3_ACC_BW_ODR_HALF,
            BMI3_ACC_BW_ODR_QUARTER,
        ) {
            Ok(v) => v,
            Err(e) => {
                return Err(e);
            },
        };
        config.bwp = bw;
        let odr = match self.check_boundary_val(
            Some(config.odr),
            BMI3_ACC_ODR_0_78HZ,
            BMI3_ACC_ODR_6400HZ,
        ) {
            Ok(v) => v,
            Err(e) => {
                return Err(e);
            },
        };
        config.odr = odr;
        let range = match self.check_boundary_val(
            Some(config.range),
            BMI3_ACC_RANGE_2G,
            BMI3_ACC_RANGE_16G,
        ) {
            Ok(v) => v,
            Err(e) => {
                return Err(e);
            },
        };
        config.range = range;
        proof {
            assert(forall|x: u8, a: u8, b: u8| #![auto] (x | a) | b == x | (a | b)) by (bit_vector);
        }
        if config.acc_mode == BMI3_ACC_MODE_LOW_PWR {
            match self.validate_acc_odr_avg(config.odr, config.avg_num) {
                Ok(()) => {},
                Err(e) => {
                    return Err(e);
                },
            }
        }
        if (config.acc_mode == BMI3_ACC_MODE_NORMAL || config.acc_mode == BMI3_ACC_MODE_HIGH_PERF)
            && (config.odr >= BMI3_ACC_ODR_0_78HZ && config.odr <= BMI3_ACC_ODR_6_25HZ) {
            return Err(Bmi3Error::AccInvalidCfg);
        }
        let w = encode_sensor_conf(config.odr, config.range, config.bwp, config.avg_num,
            config.acc_mode);
        let (lo, hi) = word_to_le_bytes(w);
        let mut reg_data: Vec<u8> = Vec::new();
        reg_data.push(lo);
        reg_data.push(hi);
        proof {
            assert(w == spec_accel_reg_word(spec_clamped_accel(*old(config))));
            assert(reg_data@ =~= seq![spec_word_lo(w), spec_word_hi(w)]);
        }
        match self.bmi3_set_regs(BMI3_REG_ACC_CONF, &reg_data) {
            Ok(()) => Ok(()),
            Err(e) => Err(e),
        }
    }

    /// Clamp, validate and write a gyroscope configuration.
    ///
    /// With no transport attached nothing changes and `NullPtr` is
    /// returned. Otherwise every field of `config` is clamped to its legal
    /// range first, with the clamps recorded in the diagnostic bitmask;
    /// then the clamped combination is validated, and a valid one is
    /// encoded and written as one two-byte register write, which only the
    /// bus can still fail with `ComFail`.
    pub fn set_gyro_config(&mut self, config: &mut Bmi3GyroConfig) -> (r: Bmi3Result<()>)
        ensures
            final(self).settings_unchanged_except_info(*old(self)),
            final(self).transport is Some <==> old(self).transport is Some,
            old(self).transport is None ==> r == Err::<(), Bmi3Error>(Bmi3Error::NullPtr)
                && *final(config) == *old(config) && final(self).info == old(self).info && final(self).bus_log@ == old(self).bus_log@,
            old(self).transport is Some ==> *final(config) == spec_clamped_gyro(*old(config))
                && final(self).info == (old(self).info | spec_gyro_clamp_flags(*old(config)))
                && match spec_gyro_cfg_error(spec_clamped_gyro(*old(config))) {
                Some(e) => r == Err::<(), Bmi3Error>(e) && final(self).bus_log@ == old(self).bus_log@,
                None => (r is Ok || r == Err::<(), Bmi3Error>(Bmi3Error::ComFail)) && final(self).bus_log@ == old(self).bus_log@ + spec_write_ops(
                    spec_write_addr(BMI3_REG_GYR_CONF, old(self).intf),
                    seq![
                        spec_word_lo(spec_gyro_reg_word(spec_clamped_gyro(*old(config)))),
                        spec_word_hi(spec_gyro_reg_word(spec_clamped_gyro(*old(config)))),
                    ],
                    r is Ok,
                ),
            },
    {
        match self.null_ptr_check() {
            Ok(()) => {},
            Err(e) => {
                return Err(e);
            },
        }
        let mode = match self.check_boundary_val(
            Some(config.gyr_mode),
            BMI3_GYR_MODE_DISABLE,
            BMI3_GYR_MODE_HIGH_PERF,
        ) {
            Ok(v) => v,
            Err(e) => {
                return Err(e);
            },
        };
        config.gyr_mode = mode;
        let avg = match self.check_boundary_val(Some(config.avg_num), BMI3_GYR_AVG1, BMI3_GYR_AVG64)
            {
            Ok(v) => v,
            Err(e) => {
                return Err(e);
            },
        };
        config.avg_num = avg;
        let bw = match self.check_boundary_val(
            Some(config.bwp),
            BMI3_GYR_BW_ODR_HALF,
            BMI3_GYR_BW_ODR_QUARTER,
        ) {
            Ok(v) => v,
            Err(e) => {
                return Err(e);
            },
        };
        config.bwp = bw;
        let odr = match self.check_boundary_val(
            Some(config.odr),
            BMI3_GYR_ODR_0_78HZ,
            BMI3_GYR_ODR_6400HZ,
        ) {
            Ok(v) => v,
            Err(e) => {
                return Err(e);
            },
        };
        config.odr = odr;
        let range = match self.check_boundary_val(
            Some(config.range),
            BMI3_GYR_RANGE_125DPS,
            BMI3_GYR_RANGE_2000DPS,
        ) {
            Ok(v) => v,
            Err(e) => {
                return Err(e);
            },
        };
        config.range = range;
        proof {
            assert(forall|x: u8, a: u8, b: u8| #![auto] (x | a) | b == x | (a | b)) by (bit_vector);
        }
        if config.gyr_mode == BMI3_GYR_MODE_LOW_PWR {
            match self.validate_gyr_odr_avg(config.odr, config.avg_num) {
                Ok(()) => {},
                Err(e) => {
                    return Err(e);
                },
            }
        }
        let w = encode_sensor_conf(config.odr, config.range, config.bwp, config.avg_num,
            config.gyr_mode);
        let (lo, hi) = word_to_le_bytes(w);
        let mut reg_data: Vec<u8> = Vec::new();
        reg_data.push(lo);
        reg_data.push(hi);
        proof {
            assert(w == spec_gyro_reg_word(spec_clamped_gyro(*old(config))));
            assert(reg_data@ =~= seq![spec_word_lo(w), spec_word_hi(w)]);
        }
        match self.bmi3_set_regs(BMI3_REG_GYR_CONF, &reg_data) {
            Ok(()) => Ok(()),
            Err(e) => Err(e),
        }
    }

    /// Read and decode the accelerometer configuration register; no
    /// clamping is performed on read.
    pub fn get_accel_config(&mut self, config: &mut Bmi3AccelConfig) -> (r: Bmi3Result<()>)
        ensures
            final(self).settings_unchanged(*old(self)),
            final(self).transport is Some <==> old(self).transport is Some,
            r == Err::<(), Bmi3Error>(Bmi3Error::NullPtr) <==> old(self).transport is None,
            r matches Err(e) ==> (e == Bmi3Error::NullPtr || e == Bmi3Error::ComFail || e
                == Bmi3Error::InvalidInput) && *final(config) == *old(config),
            r is Ok ==> final(config).odr <= 15 && final(config).range <= 7 && final(config).bwp
                <= 1 && final(config).avg_num <= 7 && final(config).acc_mode <= 7,
            old(self).transport is None ==> final(self).bus_log@ == old(self).bus_log@,
            r is Ok ==> final(self).bus_log@ == old(self).bus_log@ + spec_read_ops(
                spec_read_addr(BMI3_REG_ACC_CONF, old(self).intf),
                (2 + old(self).dummy_byte) as nat,
                true,
            ),
    {
        let data = match self.bmi3_get_regs(BMI3_REG_ACC_CONF, 2) {
            Ok(v) => v,
            Err(e) => {
                return Err(e);
            },
        };
        let w: u16 = u16_from_le_pair(data[0], data[1]);
        let (odr, range, bw, avg, mode) = decode_sensor_conf(w);
        config.odr = odr;
        config.range = range;
        config.bwp = bw;
        config.avg_num = avg;
        config.acc_mode = mode;
        Ok(())
    }

    /// Read and decode the gyroscope configuration register; no clamping
    /// is performed on read.
    pub fn get_gyro_config(&mut self, config: &mut Bmi3GyroConfig) -> (r: Bmi3Result<()>)
        ensures
            final(self).settings_unchanged(*old(self)),
            final(self).transport is Some <==> old(self).transport is Some,
            r == Err::<(), Bmi3Error>(Bmi3Error::NullPtr) <==> old(self).transport is None,
            r matches Err(e) ==> (e == Bmi3Error::NullPtr || e == Bmi3Error::ComFail || e
                == Bmi3Error::InvalidInput) && *final(config) == *old(config),
            r is Ok ==> final(config).odr <= 15 && final(config).range <= 7 && final(config).bwp
                <= 1 && final(config).avg_num <= 7 && final(config).gyr_mode <= 7,
            old(self).transport is None ==> final(self).bus_log@ == old(self).bus_log@,
            r is Ok ==> final(self).bus_log@ == old(self).bus_log@ + spec_read_ops(
                spec_read_addr(BMI3_REG_GYR_CONF, old(self).intf),
                (2 + old(self).dummy_byte) as nat,
                true,
            ),
    {
        let data = match self.bmi3_get_regs(BMI3_REG_GYR_CONF, 2) {
            Ok(v) => v,
            Err(e) => {
                return Err(e);
            },
        };
        let w: u16 = u16_from_le_pair(data[0], data[1]);
        let (odr, range, bw, avg, mode) = decode_sensor_conf(w);
        config.odr = odr;
        config.range = range;
        config.bwp = bw;
        config.avg_num = avg;
        config.gyr_mode = mode;
        Ok(())
    }
}

} // verus!
