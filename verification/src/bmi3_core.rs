//! The register transaction layer: wire-address decoration, dummy-byte
//! handling, the settle delay, and the boundary clamp.
//!
//! Every operation handed to the injected transport is recorded in the
//! handle's ghost transaction log, so the contracts below pin the wire
//! address, the payload bytes and the delays of each transaction.

use vstd::prelude::*;
use crate::bmi3_defs::BMI3_CMD_SOFT_RESET;
use crate::bmi3_defs::BMI3_ENABLE;
use crate::bmi3_defs::BMI3_FEATURE_ENGINE_ENABLE_MASK;
use crate::bmi3_defs::BMI3_MAX_LEN;
use crate::bmi3_defs::BMI3_REG_CHIP_ID;
use crate::bmi3_defs::BMI3_REG_CMD;
use crate::bmi3_defs::BMI3_REG_FEATURE_CTRL;
use crate::bmi3_defs::BMI3_REG_FEATURE_IO1;
use crate::bmi3_defs::BMI3_REG_FEATURE_IO2;
use crate::bmi3_defs::BMI3_REG_FEATURE_IO_STATUS;
use crate::bmi3_defs::BMI3_SOFT_RESET_DELAY;
use crate::bmi3_defs::BMI3_SPI_RD_MASK;
use crate::bmi3_defs::BMI3_SPI_WR_MASK;
use crate::bmi3_types::Bmi3Result;
use crate::bmi3dev::Bmi3Dev;
use crate::bmi3dev::Bmi3Transport;
use crate::bmi3dev::BusOp;
use crate::codec::spec_word_hi;
use crate::codec::spec_word_lo;
use crate::codec::word_to_le_bytes;
use crate::enums::Bmi3Error;
use crate::enums::Bmi3Intf;
use crate::interface::strip_dummy_bytes;
use crate::validation::spec_clamp_flags;
use crate::validation::spec_clamp_value;

verus! {

/// The wire address of a register read: SPI sets bit 7, the other
/// interfaces use the address as it is.
pub open spec fn spec_read_addr(reg_addr: u8, intf: Bmi3Intf) -> u8 {
    if intf == Bmi3Intf::Spi {
        reg_addr | BMI3_SPI_RD_MASK
    } else {
        reg_addr
    }
}

/// The wire address of a register write: SPI clears bit 7, the other
/// interfaces use the address as it is.
pub open spec fn spec_write_addr(reg_addr: u8, intf: Bmi3Intf) -> u8 {
    if intf == Bmi3Intf::Spi {
        reg_addr & BMI3_SPI_WR_MASK
    } else {
        reg_addr
    }
}

/// Decorate a register address for a read on the given interface.
pub fn wire_read_addr(reg_addr: u8, intf: Bmi3Intf) -> (r: u8)
    ensures
        r == spec_read_addr(reg_addr, intf),
{
    match intf {
        Bmi3Intf::Spi => reg_addr | BMI3_SPI_RD_MASK,
        _ => reg_addr,
    }
}

/// Decorate a register address for a write on the given interface.
pub fn wire_write_addr(reg_addr: u8, intf: Bmi3Intf) -> (r: u8)
    ensures
        r == spec_write_addr(reg_addr, intf),
{
    match intf {
        Bmi3Intf::Spi => reg_addr & BMI3_SPI_WR_MASK,
        _ => reg_addr,
    }
}

/// The transport operations of one register write: the write itself and,
/// when it succeeded, the two time-unit settle delay after it.
pub open spec fn spec_write_ops(addr: u8, data: Seq<u8>, settled: bool) -> Seq<BusOp> {
    if settled {
        seq![(BusOp::Write { addr, data }), (BusOp::DelayUs { period: 2 })]
    } else {
        seq![(BusOp::Write { addr, data })]
    }
}

/// The transport operations of one raw register read of `raw_len` bytes:
/// the read itself and, when it succeeded, the two time-unit settle delay
/// after it.
pub open spec fn spec_read_ops(addr: u8, raw_len: nat, settled: bool) -> Seq<BusOp> {
    if settled {
        seq![(BusOp::Read { addr, len: raw_len }), (BusOp::DelayUs { period: 2 })]
    } else {
        seq![(BusOp::Read { addr, len: raw_len })]
    }
}

/// The transport operations of `n` feature-engine polls: each poll is a
/// 100000 time-unit delay, the two-byte status read and its settle delay.
pub open spec fn spec_poll_ops(n: nat, addr: u8, raw_len: nat) -> Seq<BusOp>
    decreases n,
{
    if n == 0 {
        Seq::empty()
    } else {
        spec_poll_ops((n - 1) as nat, addr, raw_len) + seq![
            (BusOp::DelayUs { period: 100000 }),
            (BusOp::Read { addr, len: raw_len }),
            (BusOp::DelayUs { period: 2 }),
        ]
    }
}

/// The transport operations of the soft-reset sequence up to the polling
/// loop: the reset command word (low byte first) and its settle delay, the
/// reset-settle delay, on SPI one discarded two-byte chip-id read, and the
/// three feature-engine bring-up register writes.
pub open spec fn spec_reset_prefix_ops(intf: Bmi3Intf, dummy: u8) -> Seq<BusOp> {
    seq![
        (BusOp::Write {
            addr: spec_write_addr(BMI3_REG_CMD, intf),
            data: seq![spec_word_lo(BMI3_CMD_SOFT_RESET), spec_word_hi(BMI3_CMD_SOFT_RESET)],
        }),
        (BusOp::DelayUs { period: 2 }),
        (BusOp::DelayUs { period: BMI3_SOFT_RESET_DELAY as u32 }),
    ] + (if intf == Bmi3Intf::Spi {
        spec_read_ops(spec_read_addr(BMI3_REG_CHIP_ID, intf), (2 + dummy) as nat, true)
    } else {
        Seq::empty()
    }) + spec_write_ops(spec_write_addr(BMI3_REG_FEATURE_IO2, intf), seq![0x2Cu8, 0x01u8], true)
        + spec_write_ops(spec_write_addr(BMI3_REG_FEATURE_IO_STATUS, intf), seq![1u8, 0u8], true)
        + spec_write_ops(spec_write_addr(BMI3_REG_FEATURE_CTRL, intf), seq![1u8, 0u8], true)
}

impl<T: Bmi3Transport> Bmi3Dev<T> {
    /// Fail fast with `NullPtr` while no transport is attached.
    pub fn null_ptr_check(&self) -> (r: Bmi3Result<()>)
        ensures
            r is Ok <==> self.transport is Some,
            r matches Err(e) ==> e == Bmi3Error::NullPtr,
    {
        if self.transport.is_none() {
            Err(Bmi3Error::NullPtr)
        } else {
            Ok(())
        }
    }

    /// Write `data` to register `reg_addr`, decorating the address for SPI
    /// and settling for two time units afterwards.
    ///
    /// Fails with `NullPtr` exactly when no transport is attached and with
    /// `InvalidInput` exactly when the data is empty; otherwise exactly
    /// one write of `data` to the decorated address is handed to the
    /// transport, and it either succeeds (followed by the settle delay) or
    /// fails with `ComFail`.
    pub fn bmi3_set_regs(&mut self, reg_addr: u8, data: &Vec<u8>) -> (r: Bmi3Result<()>)
        ensures
            final(self).settings_unchanged(*old(self)),
            final(self).transport is Some <==> old(self).transport is Some,
            r == Err::<(), Bmi3Error>(Bmi3Error::NullPtr) <==> old(self).transport is None,
            r == Err::<(), Bmi3Error>(Bmi3Error::InvalidInput) <==> (old(self).transport is Some
                && data@.len() == 0),
            old(self).transport is Some && data@.len() > 0 ==> r is Ok || r == Err::<
                (),
                Bmi3Error,
            >(Bmi3Error::ComFail),
            old(self).transport is None || data@.len() == 0 ==> final(self).bus_log@ == old(
                self,
            ).bus_log@,
            old(self).transport is Some && data@.len() > 0 ==> final(self).bus_log@ == old(
                self,
            ).bus_log@ + spec_write_ops(
                spec_write_addr(reg_addr, old(self).intf),
                data@,
                r is Ok,
            ),
    {
        match self.null_ptr_check() {
            Ok(()) => {},
            Err(e) => {
                return Err(e);
            },
        }
        if data.len() == 0 {
            return Err(Bmi3Error::InvalidInput);
        }
        let adjusted_reg_addr = wire_write_addr(reg_addr, self.intf);
        match &mut self.transport {
            Some(t) => {
                match t.write(adjusted_reg_addr, data) {
                    Ok(()) => {
                        self.bus_log = Ghost(
                            self.bus_log@.push(
                                BusOp::Write { addr: adjusted_reg_addr, data: data@ },
                            ),
                        );
                    },
                    Err(_) => {
                        self.bus_log = Ghost(
                            self.bus_log@.push(
                                BusOp::Write { addr: adjusted_reg_addr, data: data@ },
                            ),
                        );
                        proof {
                            assert(self.bus_log@ =~= old(self).bus_log@ + spec_write_ops(
                                spec_write_addr(reg_addr, old(self).intf),
                                data@,
                                false,
                            ));
                        }
                        return Err(Bmi3Error::ComFail);
                    },
                }
            },
            None => {
                return Err(Bmi3Error::NullPtr);
            },
        }
        match &mut self.transport {
            Some(t) => t.delay_us(2),
            None => {},
        }
        self.bus_log = Ghost(self.bus_log@.push(BusOp::DelayUs { period: 2 }));
        proof {
            assert(self.bus_log@ =~= old(self).bus_log@ + spec_write_ops(
                spec_write_addr(reg_addr, old(self).intf),
                data@,
                true,
            ));
        }
        Ok(())
    }

    /// Read `len` register bytes starting at `reg_addr`: decorate the
    /// address for SPI, read `len` plus the dummy-byte count raw bytes,
    /// drop the dummy prefix and settle for two time units.
    ///
    /// Fails with `NullPtr` exactly when no transport is attached or `len`
    /// is zero, with `InvalidInput` exactly when `len` plus the dummy-byte
    /// count exceeds the largest supported transfer; otherwise exactly one
    /// raw read of `len` plus the dummy-byte count from the decorated
    /// address is handed to the transport, and it either yields the `len`
    /// payload bytes (followed by the settle delay) or fails with
    /// `ComFail`.
    pub fn bmi3_get_regs(&mut self, reg_addr: u8, len: u16) -> (r: Bmi3Result<Vec<u8>>)
        ensures
            final(self).settings_unchanged(*old(self)),
            final(self).transport is Some <==> old(self).transport is Some,
            r == Err::<Vec<u8>, Bmi3Error>(Bmi3Error::NullPtr) <==> (old(self).transport is None
                || len == 0),
            r == Err::<Vec<u8>, Bmi3Error>(Bmi3Error::InvalidInput) <==> (old(self).transport
                is Some && len > 0 && len as int + old(self).dummy_byte as int > BMI3_MAX_LEN
                as int),
            old(self).transport is Some && 0 < len && len as int + old(self).dummy_byte as int
                <= BMI3_MAX_LEN as int ==> (r matches Ok(v) && v@.len() == len as nat) || r
                == Err::<Vec<u8>, Bmi3Error>(Bmi3Error::ComFail),
            old(self).transport is None || len == 0 || len as int + old(self).dummy_byte as int
                > BMI3_MAX_LEN as int ==> final(self).bus_log@ == old(self).bus_log@,
            old(self).transport is Some && 0 < len && len as int + old(self).dummy_byte as int
                <= BMI3_MAX_LEN as int ==> final(self).bus_log@ == old(self).bus_log@
                + spec_read_ops(
                spec_read_addr(reg_addr, old(self).intf),
                (len + old(self).dummy_byte) as nat,
                r is Ok,
            ),
    {
        match self.null_ptr_check() {
            Ok(()) => {},
            Err(e) => {
                return Err(e);
            },
        }
        if len == 0 {
            return Err(Bmi3Error::NullPtr);
        }
        let dummy = self.dummy_byte as usize;
        let total = len as usize + dummy;
        if total > BMI3_MAX_LEN as usize {
            return Err(Bmi3Error::InvalidInput);
        }
        let adjusted_reg_addr = wire_read_addr(reg_addr, self.intf);
        let temp_data = match &mut self.transport {
            Some(t) => {
                match t.read(adjusted_reg_addr, total) {
                    Ok(v) => v,
                    Err(_) => {
                        self.bus_log = Ghost(
                            self.bus_log@.push(
                                BusOp::Read { addr: adjusted_reg_addr, len: total as nat },
                            ),
                        );
                        proof {
                            assert(self.bus_log@ =~= old(self).bus_log@ + spec_read_ops(
                                spec_read_addr(reg_addr, old(self).intf),
                                (len + old(self).dummy_byte) as nat,
                                false,
                            ));
                        }
                        return Err(Bmi3Error::ComFail);
                    },
                }
            },
            None => {
                return Err(Bmi3Error::NullPtr);
            },
        };
        self.bus_log = Ghost(
            self.bus_log@.push(BusOp::Read { addr: adjusted_reg_addr, len: total as nat }),
        );
        match &mut self.transport {
            Some(t) => t.delay_us(2),
            None => {},
        }
        self.bus_log = Ghost(self.bus_log@.push(BusOp::DelayUs { period: 2 }));
        proof {
            assert(self.bus_log@ =~= old(self).bus_log@ + spec_read_ops(
                spec_read_addr(reg_addr, old(self).intf),
                (len + old(self).dummy_byte) as nat,
                true,
            ));
        }
        Ok(strip_dummy_bytes(&temp_data, dummy, len as usize))
    }

    /// Write a 16-bit command word to the command register, low byte first.
    ///
    /// Fails with `NullPtr` exactly when no transport is attached;
    /// otherwise exactly one two-byte write of the command word, low byte
    /// first, to the command register is handed to the transport, and it
    /// either succeeds or fails with `ComFail`.
    pub fn bmi3_set_command_register(&mut self, command: u16) -> (r: Bmi3Result<()>)
        ensures
            final(self).settings_unchanged(*old(self)),
            final(self).transport is Some <==> old(self).transport is Some,
            r == Err::<(), Bmi3Error>(Bmi3Error::NullPtr) <==> old(self).transport is None,
            old(self).transport is Some ==> r is Ok || r == Err::<(), Bmi3Error>(
                Bmi3Error::ComFail,
            ),
            old(self).transport is None ==> final(self).bus_log@ == old(self).bus_log@,
            old(self).transport is Some ==> final(self).bus_log@ == old(self).bus_log@
                + spec_write_ops(
                spec_write_addr(BMI3_REG_CMD, old(self).intf),
                seq![spec_word_lo(command), spec_word_hi(command)],
                r is Ok,
            ),
    {
        let (lo, hi) = word_to_le_bytes(command);
        let mut reg_data: Vec<u8> = Vec::new();
        reg_data.push(lo);
        reg_data.push(hi);
        proof {
            assert(reg_data@ =~= seq![spec_word_lo(command), spec_word_hi(command)]);
        }
        self.bmi3_set_regs(BMI3_REG_CMD, &reg_data)
    }

    /// Run the soft-reset sequence: issue the reset command word, wait the
    /// reset-settle delay, discard the first SPI reply after reset, write
    /// the three feature-engine bring-up register pairs and poll up to ten
    /// times for the feature-engine enable bit, each poll preceded by a
    /// 100000 time-unit delay. Reaching the last poll without the bit set
    /// is not an error.
    ///
    /// Fails with `NullPtr` exactly when no transport is attached;
    /// otherwise, as long as the dummy-byte count leaves room for a two
    /// byte read, the sequence either completes — having handed the
    /// transport exactly the reset prefix and one to ten polls — or fails
    /// with `ComFail`.
    pub fn bmi3_soft_reset(&mut self) -> (r: Bmi3Result<()>)
        ensures
            final(self).settings_unchanged(*old(self)),
            final(self).transport is Some <==> old(self).transport is Some,
            r == Err::<(), Bmi3Error>(Bmi3Error::NullPtr) <==> old(self).transport is None,
            old(self).transport is Some && old(self).dummy_byte as int + 2 <= BMI3_MAX_LEN as int
                ==> r is Ok || r == Err::<(), Bmi3Error>(Bmi3Error::ComFail),
            old(self).transport is Some ==> r is Ok || r == Err::<(), Bmi3Error>(
                Bmi3Error::ComFail,
            ) || r == Err::<(), Bmi3Error>(Bmi3Error::InvalidInput),
            old(self).transport is None ==> final(self).bus_log@ == old(self).bus_log@,
            r is Ok && old(self).transport is Some ==> exists|n: nat|
                1 <= n <= 10 && final(self).bus_log@ == old(self).bus_log@
                    + spec_reset_prefix_ops(old(self).intf, old(self).dummy_byte)
                    + #[trigger] spec_poll_ops(
                    n,
                    spec_read_addr(BMI3_REG_FEATURE_IO1, old(self).intf),
                    (2 + old(self).dummy_byte) as nat,
                ),
    {
        match self.null_ptr_check() {
            Ok(()) => {},
            Err(e) => {
                return Err(e);
            },
        }
        match self.bmi3_set_command_register(BMI3_CMD_SOFT_RESET) {
            Ok(()) => {},
            Err(e) => {
                return Err(e);
            },
        }
        match &mut self.transport {
            Some(t) => t.delay_us(BMI3_SOFT_RESET_DELAY as u32),
            None => {},
        }
        self.bus_log = Ghost(
            self.bus_log@.push(BusOp::DelayUs { period: BMI3_SOFT_RESET_DELAY as u32 }),
        );
        if self.intf == Bmi3Intf::Spi {
            match self.bmi3_get_regs(BMI3_REG_CHIP_ID, 2) {
                Ok(_) => {},
                Err(e) => {
                    return Err(e);
                },
            }
        }
        let mut setup_data: Vec<u8> = Vec::new();
        setup_data.push(0x2C);
        setup_data.push(0x01);
        proof {
            assert(setup_data@ =~= seq![0x2Cu8, 0x01u8]);
        }
        match self.bmi3_set_regs(BMI3_REG_FEATURE_IO2, &setup_data) {
            Ok(()) => {},
            Err(e) => {
                return Err(e);
            },
        }
        let mut status_data: Vec<u8> = Vec::new();
        status_data.push(BMI3_ENABLE);
        status_data.push(0);
        proof {
            assert(status_data@ =~= seq![1u8, 0u8]);
        }
        match self.bmi3_set_regs(BMI3_REG_FEATURE_IO_STATUS, &status_data) {
            Ok(()) => {},
            Err(e) => {
                return Err(e);
            },
        }
        let mut ctrl_data: Vec<u8> = Vec::new();
        ctrl_data.push(BMI3_ENABLE);
        ctrl_data.push(0);
        proof {
            assert(ctrl_data@ =~= seq![1u8, 0u8]);
        }
        match self.bmi3_set_regs(BMI3_REG_FEATURE_CTRL, &ctrl_data) {
            Ok(()) => {},
            Err(e) => {
                return Err(e);
            },
        }
        proof {
            assert(self.bus_log@ =~= old(self).bus_log@ + spec_reset_prefix_ops(
                old(self).intf,
                old(self).dummy_byte,
            ));
        }
        let ghost poll_addr = spec_read_addr(BMI3_REG_FEATURE_IO1, old(self).intf);
        let ghost poll_len = (2 + old(self).dummy_byte) as nat;
        let mut loops: u8 = 1;
        while loops <= 10
            invariant_except_break
                self.bus_log@ == old(self).bus_log@ + spec_reset_prefix_ops(
                    old(self).intf,
                    old(self).dummy_byte,
                ) + spec_poll_ops((loops - 1) as nat, poll_addr, poll_len),
            invariant
                1 <= loops <= 11,
                self.settings_unchanged(*old(self)),
                self.transport is Some,
                old(self).transport is Some,
                poll_addr == spec_read_addr(BMI3_REG_FEATURE_IO1, old(self).intf),
                poll_len == (2 + old(self).dummy_byte) as nat,
            ensures
                self.settings_unchanged(*old(self)),
                self.transport is Some,
                exists|n: nat|
                    1 <= n <= 10 && self.bus_log@ == old(self).bus_log@ + spec_reset_prefix_ops(
                        old(self).intf,
                        old(self).dummy_byte,
                    ) + #[trigger] spec_poll_ops(n, poll_addr, poll_len),
            decreases 11 - loops,
        {
            match &mut self.transport {
                Some(t) => t.delay_us(100000),
                None => {},
            }
            self.bus_log = Ghost(self.bus_log@.push(BusOp::DelayUs { period: 100000 }));
            proof {
                assert(self.intf == old(self).intf && self.dummy_byte == old(self).dummy_byte);
                assert(self.bus_log@ == (old(self).bus_log@ + spec_reset_prefix_ops(
                    old(self).intf,
                    old(self).dummy_byte,
                ) + spec_poll_ops((loops - 1) as nat, poll_addr, poll_len)).push(
                    BusOp::DelayUs { period: 100000 },
                ));
            }
            let reg_data = match self.bmi3_get_regs(BMI3_REG_FEATURE_IO1, 2) {
                Ok(v) => v,
                Err(e) => {
                    return Err(e);
                },
            };
            proof {
                let b = old(self).bus_log@;
                let p = spec_reset_prefix_ops(old(self).intf, old(self).dummy_byte);
                let q = spec_poll_ops((loops - 1) as nat, poll_addr, poll_len);
                assert(spec_poll_ops(loops as nat, poll_addr, poll_len) == q + seq![
                    (BusOp::DelayUs { period: 100000 }),
                    (BusOp::Read { addr: poll_addr, len: poll_len }),
                    (BusOp::DelayUs { period: 2 }),
                ]);
                assert(self.bus_log@ == (b + p + q).push(BusOp::DelayUs { period: 100000 })
                    + spec_read_ops(poll_addr, poll_len, true));
                assert(self.bus_log@ =~~= b + p + spec_poll_ops(loops as nat, poll_addr,
                poll_len));
            }
            if reg_data[0] & BMI3_FEATURE_ENGINE_ENABLE_MASK != 0 {
                break ;
            }
            loops = loops + 1;
        }
        Ok(())
    }

    /// Clamp a configuration field to `[min, max]`, recording the clamp
    /// direction in the diagnostic bitmask. The clamp itself needs nothing
    /// from the transport.
    ///
    /// Fails with `NullPtr` exactly when no value is supplied; otherwise
    /// it returns the clamped value and ORs the clamp flags into the
    /// bitmask, touching nothing else.
    pub fn check_boundary_val(&mut self, val: Option<u8>, min: u8, max: u8) -> (r: Bmi3Result<u8>)
        ensures
            final(self).same_but_info(*old(self)),
            val is None ==> r == Err::<u8, Bmi3Error>(Bmi3Error::NullPtr) && final(self).info
                == old(self).info,
            val matches Some(v) ==> r == Ok::<u8, Bmi3Error>(spec_clamp_value(v, min, max))
                && final(self).info == (old(self).info | spec_clamp_flags(v, min, max)),
    {
        match val {
            Some(v) => {
                let mut value = v;
                if value < min {
                    value = min;
                    self.info = self.info | crate::validation::INFO_MIN_VALUE;
                }
                if value > max {
                    value = max;
                    self.info = self.info | crate::validation::INFO_MAX_VALUE;
                }
                proof {
                    assert(1u8 | 0u8 == 1u8 && 0u8 | 2u8 == 2u8 && 0u8 | 0u8 == 0u8 && 1u8 | 2u8
                        == 3u8) by (bit_vector);
                    assert(forall|x: u8| #![auto] x | 0u8 == x) by (bit_vector);
                    assert(forall|x: u8| #![auto] (x | 1u8) | 2u8 == x | 3u8) by (bit_vector);
                }
                Ok(value)
            },
            None => Err(Bmi3Error::NullPtr),
        }
    }
}

} // verus!
