//! The register-level device handle and its injected transport capability.

use vstd::prelude::*;
use vstd::pervasive::VecAdditionalExecFns;
use crate::bmi3_config::Bmi3SensConfig;
use crate::bmi3_defs::BMI3_OK;
use crate::bmi3_defs::BMI3_REG_INT_MAP1;
use crate::bmi3mapint::Bmi3MapInt;
use crate::codec::word_to_le_bytes;
use crate::enums::Bmi3SensConfigTypes;
use crate::bmi3_defs::BMI323_CHIP_ID;
use crate::bmi3_defs::BMI3_16_BIT_RESOLUTION;
use crate::bmi3_defs::BMI3_REG_CHIP_ID;
use crate::bmi3_defs::BMI3_REG_ERR_REG;
use crate::bmi3_defs::BMI3_REV_ID_MASK;
use crate::bmi3_defs::BMI3_REV_ID_POS;
use crate::bmi3_defs::BMI3_ENABLE;
use crate::bmi3_defs::BMI3_ACC_DP_OFF_XYZ_13_BIT_MASK;
use crate::bmi3_defs::BMI3_ACC_DP_OFF_XYZ_14_BIT_MASK;
use crate::bmi3_defs::BMI3_REG_FEATURE_IO1;
use crate::bmi3_core::spec_poll_ops;
use crate::bmi3_core::spec_read_addr;
use crate::bmi3_core::spec_read_ops;
use crate::bmi3_core::spec_reset_prefix_ops;
use crate::bmi3_core::spec_write_addr;
use crate::bmi3_core::spec_write_ops;
use crate::bmi3_types::Bmi3Result;
use crate::bmi3_types::I2cResult;
use crate::codec::spec_word_hi;
use crate::codec::spec_word_lo;
use crate::enums::Bmi3Error;
use crate::enums::Bmi3Intf;
use crate::sensor_config::spec_clamped_entry;
use crate::types::u16_from_le_pair;

verus! {

/// Transport capability injected into the device handle: the read, write
/// and delay operations of the underlying bus, bound to whatever state the
/// implementation carries.
///
/// `read` must reply with exactly `len` bytes on success; the driver
/// relies on this to skip interface-dependent dummy prefixes.
pub trait Bmi3Transport {
    /// Read `len` raw bytes starting at the wire register address
    /// `reg_addr` (interface decoration already applied).
    fn read(&mut self, reg_addr: u8, len: usize) -> (r: I2cResult<Vec<u8>>)
        ensures
            r matches Ok(v) ==> v@.len() == len,
    ;

    /// Write `reg_data` to the wire register address `reg_addr`.
    fn write(&mut self, reg_addr: u8, reg_data: &Vec<u8>) -> I2cResult<()>;

    /// Block for at least `period` microseconds.
    fn delay_us(&mut self, period: u32);
}

/// One operation the transaction layer handed to the injected transport,
/// as recorded in the device handle's ghost transaction log.
pub enum BusOp {
    /// A register write of `data` to the wire address `addr`, interface
    /// decoration already applied.
    Write { addr: u8, data: Seq<u8> },
    /// A raw read of `len` bytes from the wire address `addr`, dummy
    /// prefix included.
    Read { addr: u8, len: nat },
    /// A blocking delay of `period` microseconds.
    DelayUs { period: u32 },
}

/// The BMI3 device handle: interface kind, transport capability and the
/// state recorded during initialization.
pub struct Bmi3Dev<T> {
    /// Chip id read at initialization
    pub chip_id: u8,
    /// Diagnostic bitmask accumulating boundary-clamp events
    pub info: u8,
    /// Chip interface kind
    pub intf: Bmi3Intf,
    /// Result of the last transport call, as a raw code
    pub intf_rslt: i8,
    /// Bytes to discard at the front of a read reply
    pub dummy_byte: u8,
    /// Bit resolution recorded at initialization
    pub resolution: u8,
    /// Largest read/write length the caller wants to use
    pub read_write_len: u16,
    /// The injected transport, absent until the caller attaches one
    pub transport: Option<T>,
    /// Accelerometer data-path bit width mask recorded at initialization
    pub accel_bit_width: u16,
    /// Ghost log of every operation handed to the transport
    pub bus_log: Ghost<Seq<BusOp>>,
}

impl<T> Bmi3Dev<T> {
    /// Whether the fields recorded on the handle, everything but the
    /// transport, are the same in `self` and `other`.
    pub open spec fn settings_unchanged(self, other: Bmi3Dev<T>) -> bool {
        &&& self.chip_id == other.chip_id
        &&& self.info == other.info
        &&& self.intf == other.intf
        &&& self.intf_rslt == other.intf_rslt
        &&& self.dummy_byte == other.dummy_byte
        &&& self.resolution == other.resolution
        &&& self.read_write_len == other.read_write_len
        &&& self.accel_bit_width == other.accel_bit_width
    }

    /// Whether the fields recorded on the handle, everything but the
    /// transport and the diagnostic bitmask, are the same in `self` and
    /// `other`.
    pub open spec fn settings_unchanged_except_info(self, other: Bmi3Dev<T>) -> bool {
        &&& self.chip_id == other.chip_id
        &&& self.intf == other.intf
        &&& self.intf_rslt == other.intf_rslt
        &&& self.dummy_byte == other.dummy_byte
        &&& self.resolution == other.resolution
        &&& self.read_write_len == other.read_write_len
        &&& self.accel_bit_width == other.accel_bit_width
    }

    /// Whether everything but the diagnostic bitmask, the transport
    /// included, is the same in `self` and `other`.
    pub open spec fn same_but_info(self, other: Bmi3Dev<T>) -> bool {
        &&& self.chip_id == other.chip_id
        &&& self.intf == other.intf
        &&& self.intf_rslt == other.intf_rslt
        &&& self.dummy_byte == other.dummy_byte
        &&& self.resolution == other.resolution
        &&& self.read_write_len == other.read_write_len
        &&& self.accel_bit_width == other.accel_bit_width
        &&& self.transport == other.transport
        &&& self.bus_log == other.bus_log
    }

    /// A handle with no transport attached; every register operation fails
    /// fast until the caller sets one.
    pub fn default() -> (r: Self)
        ensures
            r.chip_id == 0,
            r.info == 0,
            r.intf == Bmi3Intf::Spi,
            r.intf_rslt == BMI3_OK,
            r.dummy_byte == 0,
            r.resolution == 0,
            r.read_write_len == 0,
            r.transport is None,
            r.accel_bit_width == 0,
            r.bus_log@ == Seq::<BusOp>::empty(),
    {
        Bmi3Dev {
            chip_id: 0,
            info: 0,
            intf: Bmi3Intf::Spi,
            intf_rslt: BMI3_OK,
            dummy_byte: 0,
            resolution: 0,
            read_write_len: 0,
            transport: None,
            accel_bit_width: 0,
            bus_log: Ghost(Seq::empty()),
        }
    }
}

/// The dummy-byte count initialization records for an interface: one byte
/// on SPI, two on the others.
pub open spec fn spec_init_dummy(intf: Bmi3Intf) -> u8 {
    if intf == Bmi3Intf::Spi {
        1
    } else {
        2
    }
}

/// Whether `after` is a well-formed decode of the configuration request
/// `before`: the sensor and the configuration kind are kept, an entry
/// holding no configuration is untouched, and every decoded field code
/// lies inside its register field mask.
pub open spec fn spec_decoded_entry_ok(before: Bmi3SensConfig, after: Bmi3SensConfig) -> bool {
    &&& after.sensor_type == before.sensor_type
    &&& match before.cfg {
        None => after == before,
        Some(Bmi3SensConfigTypes::Accel(_)) => match after.cfg {
            Some(Bmi3SensConfigTypes::Accel(c)) => c.odr <= 15 && c.range <= 7 && c.bwp <= 1
                && c.avg_num <= 7 && c.acc_mode <= 7,
            _ => false,
        },
        Some(Bmi3SensConfigTypes::Gyro(_)) => match after.cfg {
            Some(Bmi3SensConfigTypes::Gyro(c)) => c.odr <= 15 && c.range <= 7 && c.bwp <= 1
                && c.avg_num <= 7 && c.gyr_mode <= 7,
            _ => false,
        },
    }
}

/// Whether a chip-id and error-register reply identifies a healthy
/// BMI323: the low chip-id byte holds the expected id and no error flag
/// is set.
pub fn chip_reply_accepted(chip_id_lo: u8, err_reg_lo: u8) -> (r: bool)
    ensures
        r == (chip_id_lo as u16 == BMI323_CHIP_ID && err_reg_lo == 0),
{
    chip_id_lo as u16 == BMI323_CHIP_ID && err_reg_lo == 0
}

/// The accelerometer data-path bit-width mask selected by the revision
/// field of the high chip-id byte: revision one selects the 14-bit mask,
/// every other revision the 13-bit mask.
pub fn accel_bit_width_of(chip_id_hi: u8) -> (r: u16)
    ensures
        r == (if (chip_id_hi & BMI3_REV_ID_MASK) >> BMI3_REV_ID_POS == BMI3_ENABLE {
            BMI3_ACC_DP_OFF_XYZ_14_BIT_MASK
        } else {
            BMI3_ACC_DP_OFF_XYZ_13_BIT_MASK
        }),
{
    if (chip_id_hi & BMI3_REV_ID_MASK) >> BMI3_REV_ID_POS == BMI3_ENABLE {
        BMI3_ACC_DP_OFF_XYZ_14_BIT_MASK
    } else {
        BMI3_ACC_DP_OFF_XYZ_13_BIT_MASK
    }
}

impl<T: Bmi3Transport> Bmi3Dev<T> {
    /// Reset the chip and verify its identity: set the dummy-byte count for
    /// the interface, run the soft-reset sequence, read the chip id and the
    /// error register, and record resolution and bit width.
    ///
    /// On success the handle holds the expected chip id, 16-bit resolution
    /// and the interface's dummy-byte count; the decision itself — chip id
    /// and clear error flag accept, the revision field selects the bit
    /// width — stands in `chip_reply_accepted` and `accel_bit_width_of`.
    /// Fails with `NullPtr` exactly when no transport is attached, with
    /// `ComFail` when a transport call failed, and with `DevNotFound` when
    /// the chip answered with a wrong id or a set error flag.
    ///
    /// Whenever the sequence ran to its decision, the transport was handed
    /// exactly the soft-reset sequence followed by the two-byte chip-id
    /// and error-register reads.
    pub fn bmi3_init(&mut self) -> (r: Bmi3Result<()>)
        ensures
            final(self).intf == old(self).intf,
            final(self).transport is Some <==> old(self).transport is Some,
            r == Err::<(), Bmi3Error>(Bmi3Error::NullPtr) <==> old(self).transport is None,
            r matches Err(e) ==> e == Bmi3Error::NullPtr || e == Bmi3Error::ComFail || e
                == Bmi3Error::DevNotFound,
            r matches Ok(_) ==> {
                &&& final(self).chip_id as u16 == BMI323_CHIP_ID
                &&& final(self).resolution == BMI3_16_BIT_RESOLUTION
                &&& final(self).dummy_byte == spec_init_dummy(old(self).intf)
                &&& (final(self).accel_bit_width == BMI3_ACC_DP_OFF_XYZ_14_BIT_MASK
                    || final(self).accel_bit_width == BMI3_ACC_DP_OFF_XYZ_13_BIT_MASK)
            },
            old(self).transport is None ==> final(self).bus_log@ == old(self).bus_log@,
            (r is Ok || r == Err::<(), Bmi3Error>(Bmi3Error::DevNotFound)) && old(
                self,
            ).transport is Some ==> exists|n: nat|
                1 <= n <= 10 && final(self).bus_log@ == old(self).bus_log@
                    + spec_reset_prefix_ops(old(self).intf, spec_init_dummy(old(self).intf))
                    + #[trigger] spec_poll_ops(
                    n,
                    spec_read_addr(BMI3_REG_FEATURE_IO1, old(self).intf),
                    (2 + spec_init_dummy(old(self).intf)) as nat,
                ) + spec_read_ops(
                    spec_read_addr(BMI3_REG_CHIP_ID, old(self).intf),
                    (2 + spec_init_dummy(old(self).intf)) as nat,
                    true,
                ) + spec_read_ops(
                    spec_read_addr(BMI3_REG_ERR_REG, old(self).intf),
                    (2 + spec_init_dummy(old(self).intf)) as nat,
                    true,
                ),
    {
        match self.null_ptr_check() {
            Ok(()) => {},
            Err(e) => {
                return Err(e);
            },
        }
        self.chip_id = 0;
        self.dummy_byte = match self.intf {
            Bmi3Intf::Spi => 1,
            _ => 2,
        };
        proof {
            assert(self.dummy_byte == spec_init_dummy(old(self).intf));
        }
        match self.bmi3_soft_reset() {
            Ok(()) => {},
            Err(e) => {
                return Err(e);
            },
        }
        let ghost log_after_reset = self.bus_log@;
        let chip_id = match self.bmi3_get_regs(BMI3_REG_CHIP_ID, 2) {
            Ok(v) => v,
            Err(e) => {
                return Err(e);
            },
        };
        let reg_data = match self.bmi3_get_regs(BMI3_REG_ERR_REG, 2) {
            Ok(v) => v,
            Err(e) => {
                return Err(e);
            },
        };
        proof {
            let d = spec_init_dummy(old(self).intf);
            let n = choose|n: nat|
                1 <= n <= 10 && log_after_reset == old(self).bus_log@ + spec_reset_prefix_ops(
                    old(self).intf,
                    d,
                ) + #[trigger] spec_poll_ops(
                    n,
                    spec_read_addr(BMI3_REG_FEATURE_IO1, old(self).intf),
                    (2 + d) as nat,
                );
            assert(self.bus_log@ =~~= old(self).bus_log@ + spec_reset_prefix_ops(
                old(self).intf,
                d,
            ) + spec_poll_ops(
                n,
                spec_read_addr(BMI3_REG_FEATURE_IO1, old(self).intf),
                (2 + d) as nat,
            ) + spec_read_ops(
                spec_read_addr(BMI3_REG_CHIP_ID, old(self).intf),
                (2 + d) as nat,
                true,
            ) + spec_read_ops(
                spec_read_addr(BMI3_REG_ERR_REG, old(self).intf),
                (2 + d) as nat,
                true,
            ));
        }
        let err = reg_data[0];
        self.chip_id = chip_id[0];
        self.accel_bit_width = accel_bit_width_of(chip_id[1]);
        if chip_reply_accepted(self.chip_id, err) {
            self.resolution = BMI3_16_BIT_RESOLUTION;
            Ok(())
        } else {
            Err(Bmi3Error::DevNotFound)
        }
    }

    /// Read the configuration of every sensor named in `sens_cfg`,
    /// decoding each into its entry.
    ///
    /// Fails with `NullPtr` when no transport is attached or the list is
    /// empty; otherwise the first failing register read is returned. On
    /// success every entry keeps its sensor and configuration kind and
    /// holds the decoded field codes, each inside its field mask.
    pub fn bmi3_get_sensor_config(&mut self, sens_cfg: &mut Vec<Bmi3SensConfig>) -> (r: Bmi3Result<
        (),
    >)
        ensures
            final(self).settings_unchanged(*old(self)),
            final(self).transport is Some <==> old(self).transport is Some,
            old(self).transport is None ==> r == Err::<(), Bmi3Error>(Bmi3Error::NullPtr),
            old(sens_cfg)@.len() == 0 ==> r == Err::<(), Bmi3Error>(Bmi3Error::NullPtr),
            final(sens_cfg)@.len() == old(sens_cfg)@.len(),
            r matches Err(e) ==> e == Bmi3Error::NullPtr || e == Bmi3Error::ComFail || e
                == Bmi3Error::InvalidInput,
            r is Ok ==> forall|j: int|
                0 <= j < old(sens_cfg)@.len() ==> spec_decoded_entry_ok(
                    old(sens_cfg)@[j],
                    #[trigger] final(sens_cfg)@[j],
                ),
    {
        match self.null_ptr_check() {
            Ok(()) => {},
            Err(e) => {
                return Err(e);
            },
        }
        if sens_cfg.len() == 0 {
            return Err(Bmi3Error::NullPtr);
        }
        let mut i: usize = 0;
        while i < sens_cfg.len()
            invariant
                self.settings_unchanged(*old(self)),
                self.transport is Some,
                old(self).transport is Some,
                sens_cfg@.len() == old(sens_cfg)@.len(),
                i <= sens_cfg@.len(),
                forall|j: int|
                    0 <= j < i ==> spec_decoded_entry_ok(
                        old(sens_cfg)@[j],
                        #[trigger] sens_cfg@[j],
                    ),
                forall|j: int| i <= j < sens_cfg@.len() ==> #[trigger] sens_cfg@[j] == old(
                    sens_cfg,
                )@[j],
            decreases sens_cfg@.len() - i,
        {
            let entry = sens_cfg[i];
            match entry.cfg {
                Some(Bmi3SensConfigTypes::Accel(ac)) => {
                    let mut accel_config = ac;
                    match self.get_accel_config(&mut accel_config) {
                        Ok(()) => {},
                        Err(e) => {
                            return Err(e);
                        },
                    }
                    sens_cfg.set(
                        i,
                        Bmi3SensConfig {
                            sensor_type: entry.sensor_type,
                            cfg: Some(Bmi3SensConfigTypes::Accel(accel_config)),
                        },
                    );
                },
                Some(Bmi3SensConfigTypes::Gyro(gc)) => {
                    let mut gyro_config = gc;
                    match self.get_gyro_config(&mut gyro_config) {
                        Ok(()) => {},
                        Err(e) => {
                            return Err(e);
                        },
                    }
                    sens_cfg.set(
                        i,
                        Bmi3SensConfig {
                            sensor_type: entry.sensor_type,
                            cfg: Some(Bmi3SensConfigTypes::Gyro(gyro_config)),
                        },
                    );
                },
                None => {},
            }
            i = i + 1;
        }
        Ok(())
    }

    /// Clamp, validate and write the configuration of every sensor named
    /// in `sens_cfg`, recording the clamped fields back into each entry.
    ///
    /// Fails with `NullPtr` when no transport is attached or the list is
    /// empty; otherwise the first failing validation or write is returned.
    /// On success every entry holds the clamped form of the configuration
    /// it held before.
    pub fn bmi3_set_sensor_config(&mut self, sens_cfg: &mut Vec<Bmi3SensConfig>) -> (r: Bmi3Result<
        (),
    >)
        ensures
            final(self).settings_unchanged_except_info(*old(self)),
            final(self).transport is Some <==> old(self).transport is Some,
            old(self).transport is None ==> r == Err::<(), Bmi3Error>(Bmi3Error::NullPtr),
            old(sens_cfg)@.len() == 0 ==> r == Err::<(), Bmi3Error>(Bmi3Error::NullPtr),
            final(sens_cfg)@.len() == old(sens_cfg)@.len(),
            r matches Err(e) ==> e == Bmi3Error::NullPtr || e == Bmi3Error::ComFail || e
                == Bmi3Error::InvalidInput || e == Bmi3Error::AccInvalidCfg || e
                == Bmi3Error::GyroInvalidCfg,
            r is Ok ==> forall|j: int|
                0 <= j < old(sens_cfg)@.len() ==> #[trigger] final(sens_cfg)@[j]
                    == spec_clamped_entry(old(sens_cfg)@[j]),
    {
        match self.null_ptr_check() {
            Ok(()) => {},
            Err(e) => {
                return Err(e);
            },
        }
        if sens_cfg.len() == 0 {
            return Err(Bmi3Error::NullPtr);
        }
        let mut i: usize = 0;
        while i < sens_cfg.len()
            invariant
                self.settings_unchanged_except_info(*old(self)),
                self.transport is Some,
                old(self).transport is Some,
                sens_cfg@.len() == old(sens_cfg)@.len(),
                i <= sens_cfg@.len(),
                forall|j: int|
                    0 <= j < i ==> #[trigger] sens_cfg@[j] == spec_clamped_entry(
                        old(sens_cfg)@[j],
                    ),
                forall|j: int| i <= j < sens_cfg@.len() ==> #[trigger] sens_cfg@[j] == old(
                    sens_cfg,
                )@[j],
            decreases sens_cfg@.len() - i,
        {
            let entry = sens_cfg[i];
            match entry.cfg {
                Some(Bmi3SensConfigTypes::Accel(ac)) => {
                    let mut accel_config = ac;
                    match self.set_accel_config(&mut accel_config) {
                        Ok(()) => {},
                        Err(e) => {
                            return Err(e);
                        },
                    }
                    sens_cfg.set(
                        i,
                        Bmi3SensConfig {
                            sensor_type: entry.sensor_type,
                            cfg: Some(Bmi3SensConfigTypes::Accel(accel_config)),
                        },
                    );
                },
                Some(Bmi3SensConfigTypes::Gyro(gc)) => {
                    let mut gyro_config = gc;
                    match self.set_gyro_config(&mut gyro_config) {
                        Ok(()) => {},
                        Err(e) => {
                            return Err(e);
                        },
                    }
                    sens_cfg.set(
                        i,
                        Bmi3SensConfig {
                            sensor_type: entry.sensor_type,
                            cfg: Some(Bmi3SensConfigTypes::Gyro(gyro_config)),
                        },
                    );
                },
                None => {},
            }
            i = i + 1;
        }
        Ok(())
    }

    /// Encode the interrupt mapping into its two register words and write
    /// their four bytes to the interrupt-map registers.
    ///
    /// Fails with `NullPtr` exactly when no transport is attached;
    /// otherwise exactly one four-byte write of the two encoded words,
    /// each low byte first, to the interrupt-map register is handed to
    /// the transport, and it either succeeds or fails with `ComFail`.
    pub fn bmi3_map_interrupt(&mut self, map_int: &mut Bmi3MapInt) -> (r: Bmi3Result<()>)
        ensures
            final(self).settings_unchanged(*old(self)),
            final(self).transport is Some <==> old(self).transport is Some,
            *final(map_int) == *old(map_int),
            r == Err::<(), Bmi3Error>(Bmi3Error::NullPtr) <==> old(self).transport is None,
            old(self).transport is Some ==> r is Ok || r == Err::<(), Bmi3Error>(
                Bmi3Error::ComFail,
            ),
            old(self).transport is None ==> final(self).bus_log@ == old(self).bus_log@,
            old(self).transport is Some ==> final(self).bus_log@ == old(self).bus_log@
                + spec_write_ops(
                spec_write_addr(BMI3_REG_INT_MAP1, old(self).intf),
                seq![
                    spec_word_lo(old(map_int).spec_word1()),
                    spec_word_hi(old(map_int).spec_word1()),
                    spec_word_lo(old(map_int).spec_word2()),
                    spec_word_hi(old(map_int).spec_word2()),
                ],
                r is Ok,
            ),
    {
        let (word1, word2) = map_int.encode();
        let (b0, b1) = word_to_le_bytes(word1);
        let (b2, b3) = word_to_le_bytes(word2);
        let mut reg_data: Vec<u8> = Vec::new();
        reg_data.push(b0);
        reg_data.push(b1);
        reg_data.push(b2);
        reg_data.push(b3);
        proof {
            assert(reg_data@ =~= seq![
                spec_word_lo(map_int.spec_word1()),
                spec_word_hi(map_int.spec_word1()),
                spec_word_lo(map_int.spec_word2()),
                spec_word_hi(map_int.spec_word2()),
            ]);
        }
        self.bmi3_set_regs(BMI3_REG_INT_MAP1, &reg_data)
    }

    /// Read a two-byte interrupt status register into `int_status`, low
    /// byte first.
    ///
    /// Fails with `NullPtr` exactly when no transport is attached, leaving
    /// `int_status` unchanged on every failure; on success exactly one
    /// two-byte read of `register` was handed to the transport.
    pub fn get_interrupt_status(&mut self, int_status: &mut u16, register: u8) -> (r: Bmi3Result<
        (),
    >)
        ensures
            final(self).settings_unchanged(*old(self)),
            final(self).transport is Some <==> old(self).transport is Some,
            r == Err::<(), Bmi3Error>(Bmi3Error::NullPtr) <==> old(self).transport is None,
            r matches Err(e) ==> (e == Bmi3Error::NullPtr || e == Bmi3Error::ComFail || e
                == Bmi3Error::InvalidInput) && *final(int_status) == *old(int_status),
            old(self).transport is None ==> final(self).bus_log@ == old(self).bus_log@,
            r is Ok ==> final(self).bus_log@ == old(self).bus_log@ + spec_read_ops(
                spec_read_addr(register, old(self).intf),
                (2 + old(self).dummy_byte) as nat,
                true,
            ),
    {
        let data_array = match self.bmi3_get_regs(register, 2) {
            Ok(v) => v,
            Err(e) => {
                return Err(e);
            },
        };
        *int_status = u16_from_le_pair(data_array[0], data_array[1]);
        Ok(())
    }
}

} // verus!
