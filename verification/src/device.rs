//! High-level BMI323 driver: initialization, sensor configuration and raw
//! data reads over an injected communication interface and delay provider.
//!
//! Every operation handed to the interface or the delay provider is
//! recorded in the driver's ghost transaction log, so the contracts below
//! pin the registers addressed, the payload bytes and the delays of each
//! operation.

use vstd::prelude::*;
use crate::config::AccelConfig;
use crate::config::GyroConfig;
use crate::interface::Delay;
use crate::interface::I2cInterface;
use crate::interface::IfaceOp;
use crate::interface::ReadData;
use crate::interface::SpiInterface;
use crate::interface::WriteData;
use crate::codec::spec_word_hi;
use crate::codec::spec_word_lo;
use crate::codec::word_to_le_bytes;
use crate::registers::Register;
use crate::types::AccelerometerPowerMode;
use crate::types::AccelerometerRange;
use crate::types::Error;
use crate::types::GyroscopePowerMode;
use crate::types::GyroscopeRange;
use crate::types::Sensor3DData;
use crate::types::SensorType;
use crate::validation::check_skipped_samples;

verus! {

/// Main struct representing the BMI323 device
pub struct Bmi323<DI, D> {
    /// Communication interface (I2C or SPI)
    pub iface: DI,
    /// Delay provider
    pub delay: D,
    /// Current accelerometer range, cached when a configuration is written
    pub accel_range: AccelerometerRange,
    /// Current gyroscope range, cached when a configuration is written
    pub gyro_range: GyroscopeRange,
    /// Ghost log of every operation handed to the interface and the delay
    /// provider
    pub trans_log: Ghost<Seq<IfaceOp>>,
}

impl<I2C, D> Bmi323<I2cInterface<I2C>, D> {
    /// Create a new BMI323 device instance speaking I2C, with the ranges at
    /// their power-on defaults.
    pub fn new_with_i2c(i2c: I2C, address: u8, delay: D) -> (r: Self)
        ensures
            r.iface.address == address,
            r.accel_range == AccelerometerRange::G8,
            r.gyro_range == GyroscopeRange::DPS2000,
            r.trans_log@ == Seq::<IfaceOp>::empty(),
    {
        Bmi323 {
            iface: I2cInterface { i2c, address },
            delay,
            accel_range: AccelerometerRange::default(),
            gyro_range: GyroscopeRange::default(),
            trans_log: Ghost(Seq::empty()),
        }
    }
}

impl<SPI, D> Bmi323<SpiInterface<SPI>, D> {
    /// Create a new BMI323 device instance speaking SPI, with the ranges at
    /// their power-on defaults.
    pub fn new_with_spi(spi: SPI, delay: D) -> (r: Self)
        ensures
            r.accel_range == AccelerometerRange::G8,
            r.gyro_range == GyroscopeRange::DPS2000,
            r.trans_log@ == Seq::<IfaceOp>::empty(),
    {
        Bmi323 {
            iface: SpiInterface { spi },
            delay,
            accel_range: AccelerometerRange::default(),
            gyro_range: GyroscopeRange::DPS2000,
            trans_log: Ghost(Seq::empty()),
        }
    }
}

/// Whether the rate/averaging/mode combination of an accelerometer
/// configuration is accepted.
pub fn accel_config_is_valid(config: AccelConfig) -> (r: bool)
    ensures
        r == config.spec_valid(),
{
    let odr = config.odr.code();
    let avg = config.avg_num.code();
    let low_power_ok = match config.mode {
        AccelerometerPowerMode::LowPower => odr <= 10 && check_skipped_samples(odr, avg),
        _ => true,
    };
    let band_ok = match config.mode {
        AccelerometerPowerMode::Normal => odr > 4,
        AccelerometerPowerMode::HighPerf => odr > 4,
        _ => true,
    };
    low_power_ok && band_ok
}

/// Whether the rate/averaging/mode combination of a gyroscope configuration
/// is accepted.
pub fn gyro_config_is_valid(config: GyroConfig) -> (r: bool)
    ensures
        r == config.spec_valid(),
{
    let odr = config.odr.code();
    let avg = config.avg_num.code();
    match config.mode {
        GyroscopePowerMode::LowPower => odr <= 10 && check_skipped_samples(odr, avg),
        _ => true,
    }
}

/// Whether a chip-id byte identifies a BMI323.
pub fn chip_id_matches(id: u8) -> (r: bool)
    ensures
        r == (id == Register::BMI323_CHIP_ID),
{
    id == Register::BMI323_CHIP_ID
}

/// The interface and delay operations of a complete initialization: the
/// three-byte soft-reset command write (register, then the command word
/// low byte first), the reset-settle delay, and the chip-id read.
pub open spec fn spec_init_ops() -> Seq<IfaceOp> {
    seq![
        (IfaceOp::WriteData {
            payload: seq![
                Register::CMD,
                spec_word_lo(Register::CMD_SOFT_RESET),
                spec_word_hi(Register::CMD_SOFT_RESET),
            ],
        }),
        (IfaceOp::DelayUs { us: 2000 }),
        (IfaceOp::ReadRegister { register: Register::CHIPID }),
    ]
}

impl<DI, D, E> Bmi323<DI, D> where
    DI: ReadData<CommError = E> + WriteData<CommError = E>,
    D: Delay,
 {
    /// Initialize the device: issue the soft-reset command word, wait for
    /// the reset to settle and verify the chip ID; the acceptance decision
    /// itself stands in `chip_id_matches`.
    ///
    /// A failure is a bus failure or, when the chip answered with a wrong
    /// id, `InvalidDevice`. Whenever the chip id was read at all — on
    /// success and on `InvalidDevice` — the interface was handed exactly
    /// the soft-reset write, the settle delay and the chip-id read.
    pub fn init(&mut self) -> (r: Result<(), Error<E>>)
        ensures
            final(self).accel_range == old(self).accel_range,
            final(self).gyro_range == old(self).gyro_range,
            r matches Err(e) ==> e is Comm || e is InvalidDevice,
            r is Ok ==> final(self).trans_log@ == old(self).trans_log@ + spec_init_ops(),
            r matches Err(e) ==> (e is InvalidDevice ==> final(self).trans_log@ == old(
                self,
            ).trans_log@ + spec_init_ops()) && (e is Comm ==> final(self).trans_log@ == old(
                self,
            ).trans_log@ + spec_init_ops() || final(self).trans_log@ == old(self).trans_log@
                + spec_init_ops().subrange(0, 1)),
    {
        match self.write_register_16bit(Register::CMD, Register::CMD_SOFT_RESET) {
            Ok(()) => {},
            Err(e) => {
                proof {
                    assert(self.trans_log@ =~~= old(self).trans_log@ + spec_init_ops().subrange(
                        0,
                        1,
                    ));
                }
                return Err(e);
            },
        }
        self.delay.delay_us(2000);
        self.trans_log = Ghost(self.trans_log@.push(IfaceOp::DelayUs { us: 2000 }));
        let chip_id = match self.read_register(Register::CHIPID) {
            Ok(v) => v,
            Err(e) => {
                proof {
                    assert(self.trans_log@ =~~= old(self).trans_log@ + spec_init_ops());
                }
                return Err(e);
            },
        };
        proof {
            assert(self.trans_log@ =~~= old(self).trans_log@ + spec_init_ops());
        }
        if !chip_id_matches(chip_id) {
            return Err(Error::InvalidDevice);
        }
        Ok(())
    }

    /// Validate the accelerometer configuration, write it to the
    /// configuration register and cache its range for later scaling.
    ///
    /// An invalid rate/averaging/mode combination is rejected with
    /// `InvalidConfig` before anything is written; a valid one is handed
    /// to the interface as exactly one three-byte write — the register
    /// followed by the encoded configuration word, low byte first — which
    /// only the bus can still fail.
    pub fn set_accel_config(&mut self, config: AccelConfig) -> (r: Result<(), Error<E>>)
        ensures
            final(self).gyro_range == old(self).gyro_range,
            !config.spec_valid() ==> r == Err::<(), Error<E>>(Error::InvalidConfig)
                && final(self).accel_range == old(self).accel_range && final(self).trans_log@
                == old(self).trans_log@,
            config.spec_valid() ==> (match r {
                Ok(_) => final(self).accel_range == config.range,
                Err(e) => (e is Comm) && final(self).accel_range == old(self).accel_range,
            }) && final(self).trans_log@ == old(self).trans_log@.push(
                (IfaceOp::WriteData {
                    payload: seq![
                        Register::ACC_CONF,
                        spec_word_lo(config.spec_reg_value()),
                        spec_word_hi(config.spec_reg_value()),
                    ],
                }),
            ),
    {
        if !accel_config_is_valid(config) {
            return Err(Error::InvalidConfig);
        }
        let reg_data = config.to_reg_value();
        match self.write_register_16bit(Register::ACC_CONF, reg_data) {
            Ok(()) => {},
            Err(e) => {
                return Err(e);
            },
        }
        self.accel_range = config.range;
        Ok(())
    }

    /// Validate the gyroscope configuration, write it to the configuration
    /// register and cache its range for later scaling.
    ///
    /// An invalid rate/averaging/mode combination is rejected with
    /// `InvalidConfig` before anything is written; a valid one is handed
    /// to the interface as exactly one three-byte write — the register
    /// followed by the encoded configuration word, low byte first — which
    /// only the bus can still fail.
    pub fn set_gyro_config(&mut self, config: GyroConfig) -> (r: Result<(), Error<E>>)
        ensures
            final(self).accel_range == old(self).accel_range,
            !config.spec_valid() ==> r == Err::<(), Error<E>>(Error::InvalidConfig)
                && final(self).gyro_range == old(self).gyro_range && final(self).trans_log@
                == old(self).trans_log@,
            config.spec_valid() ==> (match r {
                Ok(_) => final(self).gyro_range == config.range,
                Err(e) => (e is Comm) && final(self).gyro_range == old(self).gyro_range,
            }) && final(self).trans_log@ == old(self).trans_log@.push(
                (IfaceOp::WriteData {
                    payload: seq![
                        Register::GYR_CONF,
                        spec_word_lo(config.spec_reg_value()),
                        spec_word_hi(config.spec_reg_value()),
                    ],
                }),
            ),
    {
        if !gyro_config_is_valid(config) {
            return Err(Error::InvalidConfig);
        }
        let reg_data = config.to_reg_value();
        match self.write_register_16bit(Register::GYR_CONF, reg_data) {
            Ok(()) => {},
            Err(e) => {
                return Err(e);
            },
        }
        self.gyro_range = config.range;
        Ok(())
    }

    /// Read one fixed-size data block of a sensor and decode the three
    /// little-endian signed axis values at its front.
    fn read_sensor_data(&mut self, sensor_type: SensorType) -> (r: Result<Sensor3DData, Error<E>>)
        ensures
            final(self).accel_range == old(self).accel_range,
            final(self).gyro_range == old(self).gyro_range,
            r matches Err(e) ==> e is Comm,
            final(self).trans_log@ == old(self).trans_log@.push(
                (IfaceOp::ReadData {
                    register: (if sensor_type == SensorType::Accelerometer {
                        Register::ACC_DATA_X
                    } else {
                        Register::GYR_DATA_X
                    }),
                    len: (if sensor_type == SensorType::Accelerometer {
                        20nat
                    } else {
                        14nat
                    }),
                }),
            ),
    {
        let base_reg: u8 = match sensor_type {
            SensorType::Accelerometer => Register::ACC_DATA_X,
            SensorType::Gyroscope => Register::GYR_DATA_X,
        };
        let data_size: usize = match sensor_type {
            SensorType::Accelerometer => 20,
            SensorType::Gyroscope => 14,
        };
        let sensor_data = match self.read_data(base_reg, data_size) {
            Ok(v) => v,
            Err(e) => {
                return Err(e);
            },
        };
        Ok(Sensor3DData::from_le_slice(sensor_data.as_slice()))
    }

    /// Read the raw axis values of the accelerometer: one read of its
    /// 20-byte data block, decoded by `Sensor3DData::from_le_slice`.
    pub fn read_accel_data(&mut self) -> (r: Result<Sensor3DData, Error<E>>)
        ensures
            final(self).accel_range == old(self).accel_range,
            final(self).gyro_range == old(self).gyro_range,
            r matches Err(e) ==> e is Comm,
            final(self).trans_log@ == old(self).trans_log@.push(
                (IfaceOp::ReadData { register: Register::ACC_DATA_X, len: 20nat }),
            ),
    {
        self.read_sensor_data(SensorType::Accelerometer)
    }

    /// Read the raw axis values of the gyroscope: one read of its 14-byte
    /// data block, decoded by `Sensor3DData::from_le_slice`.
    pub fn read_gyro_data(&mut self) -> (r: Result<Sensor3DData, Error<E>>)
        ensures
            final(self).accel_range == old(self).accel_range,
            final(self).gyro_range == old(self).gyro_range,
            r matches Err(e) ==> e is Comm,
            final(self).trans_log@ == old(self).trans_log@.push(
                (IfaceOp::ReadData { register: Register::GYR_DATA_X, len: 14nat }),
            ),
    {
        self.read_sensor_data(SensorType::Gyroscope)
    }

    /// Write a 16-bit register value, low byte first.
    fn write_register_16bit(&mut self, reg: u8, value: u16) -> (r: Result<(), Error<E>>)
        ensures
            final(self).accel_range == old(self).accel_range,
            final(self).gyro_range == old(self).gyro_range,
            r matches Err(e) ==> e is Comm,
            final(self).trans_log@ == old(self).trans_log@.push(
                (IfaceOp::WriteData {
                    payload: seq![reg, spec_word_lo(value), spec_word_hi(value)],
                }),
            ),
    {
        let (lo, hi) = word_to_le_bytes(value);
        let mut payload: Vec<u8> = Vec::new();
        payload.push(reg);
        payload.push(lo);
        payload.push(hi);
        proof {
            assert(payload@ =~= seq![reg, spec_word_lo(value), spec_word_hi(value)]);
        }
        let r = self.iface.write_data(&payload);
        self.trans_log = Ghost(self.trans_log@.push(IfaceOp::WriteData { payload: payload@ }));
        r
    }

    /// Read a single register byte.
    fn read_register(&mut self, reg: u8) -> (r: Result<u8, Error<E>>)
        ensures
            final(self).accel_range == old(self).accel_range,
            final(self).gyro_range == old(self).gyro_range,
            r matches Err(e) ==> e is Comm,
            final(self).trans_log@ == old(self).trans_log@.push(
                (IfaceOp::ReadRegister { register: reg }),
            ),
    {
        let r = self.iface.read_register(reg);
        self.trans_log = Ghost(self.trans_log@.push(IfaceOp::ReadRegister { register: reg }));
        r
    }

    /// Read `len` payload bytes starting at `reg`.
    fn read_data(&mut self, reg: u8, len: usize) -> (r: Result<Vec<u8>, Error<E>>)
        requires
            len <= 0xFFFF,
        ensures
            final(self).accel_range == old(self).accel_range,
            final(self).gyro_range == old(self).gyro_range,
            r matches Ok(v) ==> v@.len() == len,
            r matches Err(e) ==> e is Comm,
            final(self).trans_log@ == old(self).trans_log@.push(
                (IfaceOp::ReadData { register: reg, len: len as nat }),
            ),
    {
        let r = self.iface.read_data(reg, len);
        self.trans_log = Ghost(
            self.trans_log@.push(IfaceOp::ReadData { register: reg, len: len as nat }),
        );
        r
    }
}

} // verus!
