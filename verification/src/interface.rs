//! Communication interfaces for the BMI323.
//!
//! The driver never owns the bus: the caller supplies a raw byte-level bus
//! capability (`I2cComm` or `SpiComm`) and a delay provider (`Delay`), and
//! the driver wraps the bus in an interface type that applies the BMI323
//! transaction shape: register-address prefix and dummy-byte handling.

use vstd::prelude::*;
use crate::types::Error;

verus! {

/// Raw I2C bus capability supplied by the caller.
///
/// `bus_write_read` must reply with exactly `read_len` bytes on success;
/// the driver relies on this to slice dummy prefixes out of read replies.
pub trait I2cComm {
    /// Error type of the underlying bus.
    type BusError;

    /// Write `bytes` to the device at 7-bit address `address`.
    fn bus_write(&mut self, address: u8, bytes: &Vec<u8>) -> Result<(), Self::BusError>;

    /// Write `bytes` to the device at `address`, then read `read_len` bytes
    /// back in the same transaction.
    fn bus_write_read(&mut self, address: u8, bytes: &Vec<u8>, read_len: usize) -> (r: Result<
        Vec<u8>,
        Self::BusError,
    >)
        ensures
            r matches Ok(v) ==> v@.len() == read_len,
    ;
}

/// Raw SPI bus capability supplied by the caller.
pub trait SpiComm {
    /// Error type of the underlying bus.
    type BusError;

    /// Write `bytes` to the selected device.
    fn bus_write(&mut self, bytes: &Vec<u8>) -> Result<(), Self::BusError>;
}

/// Blocking delay capability supplied by the caller.
pub trait Delay {
    /// Block the calling context for at least `us` microseconds.
    fn delay_us(&mut self, us: u32);
}

/// One operation the high-level driver handed to its communication
/// interface or delay provider, as recorded in its ghost transaction log.
pub enum IfaceOp {
    /// A multi-byte write; the first payload byte is the register address.
    WriteData { payload: Seq<u8> },
    /// A single-register read.
    ReadRegister { register: u8 },
    /// A read of `len` payload bytes starting at `register`.
    ReadData { register: u8, len: nat },
    /// A blocking delay of `us` microseconds.
    DelayUs { us: u32 },
}

/// I2C communication interface for BMI323
pub struct I2cInterface<I2C> {
    /// The raw I2C bus.
    pub i2c: I2C,
    /// The 7-bit device address.
    pub address: u8,
}

/// SPI communication interface for BMI323
pub struct SpiInterface<SPI> {
    /// The raw SPI bus.
    pub spi: SPI,
}

/// Trait for writing data to the BMI323
///
/// A failing write reports the bus failure: every error is `Comm`.
pub trait WriteData {
    /// Error type of the underlying bus.
    type CommError;

    /// Write a single byte to a register
    fn write_register(&mut self, register: u8, data: u8) -> (r: Result<(), Error<Self::CommError>>)
        ensures
            r matches Err(e) ==> e is Comm,
    ;

    /// Write multiple bytes of data; the first byte of `payload` is the
    /// register address, the rest the data.
    fn write_data(&mut self, payload: &Vec<u8>) -> (r: Result<(), Error<Self::CommError>>)
        ensures
            r matches Err(e) ==> e is Comm,
    ;
}

/// Trait for reading data from the BMI323
///
/// `read_data` must reply with exactly `len` payload bytes on success, the
/// interface-specific dummy prefix already removed; a failing read reports
/// the bus failure: every error is `Comm`.
pub trait ReadData {
    /// Error type of the underlying bus.
    type CommError;

    /// Read a single byte from a register
    fn read_register(&mut self, register: u8) -> (r: Result<u8, Error<Self::CommError>>)
        ensures
            r matches Err(e) ==> e is Comm,
    ;

    /// Read `len` payload bytes starting at `register`; at most `0xFFFF`
    /// bytes can be requested in one transaction.
    fn read_data(&mut self, register: u8, len: usize) -> (r: Result<
        Vec<u8>,
        Error<Self::CommError>,
    >)
        requires
            len <= 0xFFFF,
        ensures
            r matches Ok(v) ==> v@.len() == len,
            r matches Err(e) ==> e is Comm,
    ;
}

/// The bytes of a read reply that remain once the `dummy` leading bytes are
/// skipped and `len` payload bytes are kept.
pub open spec fn spec_payload_of_reply(reply: Seq<u8>, dummy: int, len: int) -> Seq<u8> {
    reply.subrange(dummy, dummy + len)
}

/// Copy `len` payload bytes out of a raw read reply, skipping a dummy-byte
/// prefix of length `dummy`.
pub fn strip_dummy_bytes(reply: &Vec<u8>, dummy: usize, len: usize) -> (out: Vec<u8>)
    requires
        dummy + len <= reply@.len(),
    ensures
        out@ == spec_payload_of_reply(reply@, dummy as int, len as int),
{
    let n: usize = reply.len();
    let mut out: Vec<u8> = Vec::new();
    let mut i: usize = 0;
    while i < len
        invariant
            i <= len,
            n == reply@.len(),
            dummy + len <= reply@.len(),
            out@ == reply@.subrange(dummy as int, dummy + i),
        decreases len - i,
    {
        out.push(reply[dummy + i]);
        assert(out@ =~= reply@.subrange(dummy as int, dummy + i + 1));
        i = i + 1;
    }
    out
}

/// Number of dummy bytes at the front of every I2C read reply.
pub const I2C_DUMMY_BYTES: usize = 2;

impl<I2C: I2cComm> WriteData for I2cInterface<I2C> {
    type CommError = I2C::BusError;

    fn write_register(&mut self, register: u8, data: u8) -> (r: Result<
        (),
        Error<I2C::BusError>,
    >) {
        let mut payload: Vec<u8> = Vec::new();
        payload.push(register);
        payload.push(data);
        match self.i2c.bus_write(self.address, &payload) {
            Ok(()) => Ok(()),
            Err(e) => Err(Error::Comm(e)),
        }
    }

    fn write_data(&mut self, payload: &Vec<u8>) -> (r: Result<(), Error<I2C::BusError>>) {
        match self.i2c.bus_write(self.address, payload) {
            Ok(()) => Ok(()),
            Err(e) => Err(Error::Comm(e)),
        }
    }
}

impl<I2C: I2cComm> ReadData for I2cInterface<I2C> {
    type CommError = I2C::BusError;

    fn read_register(&mut self, register: u8) -> (r: Result<u8, Error<I2C::BusError>>) {
        let mut reg_buf: Vec<u8> = Vec::new();
        reg_buf.push(register);
        match self.i2c.bus_write_read(self.address, &reg_buf, I2C_DUMMY_BYTES + 1) {
            Ok(reply) => Ok(reply[I2C_DUMMY_BYTES]),
            Err(e) => Err(Error::Comm(e)),
        }
    }

    fn read_data(&mut self, register: u8, len: usize) -> (r: Result<Vec<u8>, Error<I2C::BusError>>) {
        let mut reg_buf: Vec<u8> = Vec::new();
        reg_buf.push(register);
        match self.i2c.bus_write_read(self.address, &reg_buf, len + I2C_DUMMY_BYTES) {
            Ok(reply) => Ok(strip_dummy_bytes(&reply, I2C_DUMMY_BYTES, len)),
            Err(e) => Err(Error::Comm(e)),
        }
    }
}

impl<SPI: SpiComm> WriteData for SpiInterface<SPI> {
    type CommError = SPI::BusError;

    fn write_register(&mut self, register: u8, data: u8) -> (r: Result<
        (),
        Error<SPI::BusError>,
    >) {
        let mut payload: Vec<u8> = Vec::new();
        payload.push(register);
        payload.push(data);
        match self.spi.bus_write(&payload) {
            Ok(()) => Ok(()),
            Err(e) => Err(Error::Comm(e)),
        }
    }

    fn write_data(&mut self, payload: &Vec<u8>) -> (r: Result<(), Error<SPI::BusError>>) {
        match self.spi.bus_write(payload) {
            Ok(()) => Ok(()),
            Err(e) => Err(Error::Comm(e)),
        }
    }
}

} // verus!
