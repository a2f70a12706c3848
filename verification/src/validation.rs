//! Validation rules for sensor configurations.
//!
//! The low-power "skipped samples" rule: a sensor running in low-power mode
//! at output data rate `odr_hz` with an averaging count `avg` skips
//! `6400 / odr_hz - avg` samples per averaging window against the chip's
//! maximum rate of 6400 Hz; the margin must be positive. Low-power mode is
//! only defined for rate codes up to 400 Hz.
//!
//! The boundary clamp: a configuration field outside its legal `[min, max]`
//! range is forced to the nearest bound, and the clamp direction is recorded
//! in a diagnostic bitmask.

use vstd::prelude::*;

verus! {

/// Diagnostic flag recorded when a field was raised to its minimum.
pub const INFO_MIN_VALUE: u8 = 1;

/// Diagnostic flag recorded when a field was lowered to its maximum.
pub const INFO_MAX_VALUE: u8 = 2;

/// Output data rate in units of 1/128 Hz for the low-power-capable rate
/// codes (0.78125 Hz through 400 Hz); 0 for any other code.
pub open spec fn spec_odr_hz_x128(odr: u8) -> int {
    if odr == 1 {
        100
    } else if odr == 2 {
        200
    } else if odr == 3 {
        400
    } else if odr == 4 {
        800
    } else if odr == 5 {
        1600
    } else if odr == 6 {
        3200
    } else if odr == 7 {
        6400
    } else if odr == 8 {
        12800
    } else if odr == 9 {
        25600
    } else if odr == 10 {
        51200
    } else {
        0
    }
}

/// Number of averaged samples selected by an averaging code; 0 for any
/// code outside the legal range.
pub open spec fn spec_avg_count(avg: u8) -> int {
    if avg == 0 {
        1
    } else if avg == 1 {
        2
    } else if avg == 2 {
        4
    } else if avg == 3 {
        8
    } else if avg == 4 {
        16
    } else if avg == 5 {
        32
    } else if avg == 6 {
        64
    } else {
        0
    }
}

/// Whether `6400 / odr_hz - avg > 0` holds, stated over integers: both
/// sides of the inequality are multiplied by `128 * odr_hz`.
pub open spec fn spec_skipped_samples_positive(odr: u8, avg: u8) -> bool {
    6400 * 128 > spec_odr_hz_x128(odr) * spec_avg_count(avg)
}

/// Decide the skipped-samples rule for a low-power-capable rate code and a
/// legal averaging code.
pub fn check_skipped_samples(odr: u8, avg: u8) -> (r: bool)
    requires
        1 <= odr <= 10,
        avg <= 6,
    ensures
        r == spec_skipped_samples_positive(odr, avg),
{
    let hz_x128: u32 = match odr {
        1 => 100,
        2 => 200,
        3 => 400,
        4 => 800,
        5 => 1600,
        6 => 3200,
        7 => 6400,
        8 => 12800,
        9 => 25600,
        _ => 51200,
    };
    let avg_count: u32 = match avg {
        0 => 1,
        1 => 2,
        2 => 4,
        3 => 8,
        4 => 16,
        5 => 32,
        _ => 64,
    };
    819200 > hz_x128 * avg_count
}

/// The value a field takes after the boundary clamp: raised to `min` first,
/// then lowered to `max`.
pub open spec fn spec_clamp_value(v: u8, min: u8, max: u8) -> u8 {
    let raised = if v < min {
        min
    } else {
        v
    };
    if raised > max {
        max
    } else {
        raised
    }
}

/// The diagnostic flags the boundary clamp records for a field: the
/// min-flag when the value was below `min`, the max-flag when the raised
/// value was above `max`.
pub open spec fn spec_clamp_flags(v: u8, min: u8, max: u8) -> u8 {
    let raised = if v < min {
        min
    } else {
        v
    };
    (if v < min {
        INFO_MIN_VALUE
    } else {
        0
    }) | (if raised > max {
        INFO_MAX_VALUE
    } else {
        0
    })
}

/// For min <= value <= max the clamp keeps the value and records nothing;
/// below min it returns min and records exactly the min-flag; above max it
/// returns max and records exactly the max-flag. Stated for every ordered
/// bound pair.
pub proof fn lemma_clamp_cases(v: u8, min: u8, max: u8)
    requires
        min <= max,
    ensures
        v < min ==> spec_clamp_value(v, min, max) == min && spec_clamp_flags(v, min, max)
            == INFO_MIN_VALUE,
        v > max ==> spec_clamp_value(v, min, max) == max && spec_clamp_flags(v, min, max)
            == INFO_MAX_VALUE,
        min <= v <= max ==> spec_clamp_value(v, min, max) == v && spec_clamp_flags(v, min, max)
            == 0,
{
    assert(1u8 | 0u8 == 1u8 && 0u8 | 2u8 == 2u8 && 0u8 | 0u8 == 0u8) by (bit_vector);
}

} // verus!
