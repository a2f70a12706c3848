//! Result aliases and the generic communication error of the register-level
//! driver.

use vstd::prelude::*;
use crate::enums::Bmi3Error;
use crate::enums::I2cError;

verus! {

/// Result of a register-level driver operation.
pub type Bmi3Result<T> = Result<T, Bmi3Error>;

/// Result of a transport call.
pub type I2cResult<T> = Result<T, I2cError>;

/// All possible errors in this crate
#[derive(Debug)]
pub enum Error<CommE> {
    /// I²C / SPI communication error
    Comm(CommE),
    /// Invalid input data provided
    InvalidInputData,
}

} // verus!
