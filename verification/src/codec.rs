//! Bit-field codec for the 16-bit configuration and interrupt-map register
//! words.
//!
//! A sensor configuration word packs five sub-byte fields with fixed
//! mask/shift pairs: output data rate in bits 0..=3, range in bits 4..=6,
//! bandwidth in bit 7, averaging count in bits 8..=10 and power mode in
//! bits 12..=14. The decode functions are the exact inverse on every valid
//! field combination.

use vstd::prelude::*;

verus! {

/// The configuration register word packing the five sensor fields.
pub open spec fn spec_encode_sensor_conf(odr: u8, range: u8, bw: u8, avg: u8, mode: u8) -> u16 {
    ((odr & 0x0F) as u16) | (((range & 0x07) as u16) << 4) | (((bw & 0x01) as u16) << 7)
        | (((avg & 0x07) as u16) << 8) | (((mode & 0x07) as u16) << 12)
}

/// The output-data-rate field of a configuration word.
pub open spec fn spec_conf_odr(w: u16) -> u8 {
    (w & 0x000F) as u8
}

/// The range field of a configuration word.
pub open spec fn spec_conf_range(w: u16) -> u8 {
    ((w & 0x0070) >> 4) as u8
}

/// The bandwidth field of a configuration word.
pub open spec fn spec_conf_bw(w: u16) -> u8 {
    ((w & 0x0080) >> 7) as u8
}

/// The averaging field of a configuration word.
pub open spec fn spec_conf_avg(w: u16) -> u8 {
    ((w & 0x0700) >> 8) as u8
}

/// The power-mode field of a configuration word.
pub open spec fn spec_conf_mode(w: u16) -> u8 {
    ((w & 0x7000) >> 12) as u8
}

/// Low byte of a 16-bit register word.
pub open spec fn spec_word_lo(w: u16) -> u8 {
    (w & 0x00FF) as u8
}

/// High byte of a 16-bit register word.
pub open spec fn spec_word_hi(w: u16) -> u8 {
    ((w & 0xFF00) >> 8) as u8
}

/// Pack the five sensor configuration fields into one register word.
/// Bits of each field outside its mask are discarded.
pub fn encode_sensor_conf(odr: u8, range: u8, bw: u8, avg: u8, mode: u8) -> (w: u16)
    ensures
        w == spec_encode_sensor_conf(odr, range, bw, avg, mode),
{
    ((odr & 0x0F) as u16) | (((range & 0x07) as u16) << 4) | (((bw & 0x01) as u16) << 7)
        | (((avg & 0x07) as u16) << 8) | (((mode & 0x07) as u16) << 12)
}

/// Unpack the five sensor configuration fields of a register word, in the
/// order (odr, range, bw, avg, mode).
pub fn decode_sensor_conf(w: u16) -> (r: (u8, u8, u8, u8, u8))
    ensures
        r.0 == spec_conf_odr(w),
        r.1 == spec_conf_range(w),
        r.2 == spec_conf_bw(w),
        r.3 == spec_conf_avg(w),
        r.4 == spec_conf_mode(w),
        r.0 <= 15 && r.1 <= 7 && r.2 <= 1 && r.3 <= 7 && r.4 <= 7,
{
    proof {
        assert(w & 0x000F <= 15 && (w & 0x0070) >> 4 <= 7 && (w & 0x0080) >> 7 <= 1
            && (w & 0x0700) >> 8 <= 7 && (w & 0x7000) >> 12 <= 7) by (bit_vector);
    }
    (
        (w & 0x000F) as u8,
        ((w & 0x0070) >> 4) as u8,
        ((w & 0x0080) >> 7) as u8,
        ((w & 0x0700) >> 8) as u8,
        ((w & 0x7000) >> 12) as u8,
    )
}

/// Split a register word into its little-endian byte pair.
pub fn word_to_le_bytes(w: u16) -> (r: (u8, u8))
    ensures
        r.0 == spec_word_lo(w),
        r.1 == spec_word_hi(w),
{
    proof {
        assert(w & 0x00FF <= 0xFF && (w & 0xFF00) >> 8 <= 0xFF) by (bit_vector);
    }
    ((w & 0x00FF) as u8, ((w & 0xFF00) >> 8) as u8)
}

/// Decoding a configuration word recovers exactly the fields that were
/// encoded, for every valid combination of field values: output data rate
/// up to 15, range up to 7, bandwidth up to 1, averaging up to 7 and power
/// mode up to 7.
pub proof fn lemma_sensor_conf_roundtrip(odr: u8, range: u8, bw: u8, avg: u8, mode: u8)
    requires
        odr <= 15,
        range <= 7,
        bw <= 1,
        avg <= 7,
        mode <= 7,
    ensures
        spec_conf_odr(spec_encode_sensor_conf(odr, range, bw, avg, mode)) == odr,
        spec_conf_range(spec_encode_sensor_conf(odr, range, bw, avg, mode)) == range,
        spec_conf_bw(spec_encode_sensor_conf(odr, range, bw, avg, mode)) == bw,
        spec_conf_avg(spec_encode_sensor_conf(odr, range, bw, avg, mode)) == avg,
        spec_conf_mode(spec_encode_sensor_conf(odr, range, bw, avg, mode)) == mode,
{
    assert(odr <= 15 && range <= 7 && bw <= 1 && avg <= 7 && mode <= 7 ==> {
        let w = ((odr & 0x0F) as u16) | (((range & 0x07) as u16) << 4)
            | (((bw & 0x01) as u16) << 7) | (((avg & 0x07) as u16) << 8)
            | (((mode & 0x07) as u16) << 12);
        (w & 0x000F) as u8 == odr && ((w & 0x0070) >> 4) as u8 == range
            && ((w & 0x0080) >> 7) as u8 == bw && ((w & 0x0700) >> 8) as u8 == avg
            && ((w & 0x7000) >> 12) as u8 == mode
    }) by (bit_vector);
}

/// An interrupt-map register word packing eight two-bit output selector
/// fields, the first in bits 0..=1 and the last in bits 14..=15.
pub open spec fn spec_encode_int_map_word(
    f0: u8,
    f1: u8,
    f2: u8,
    f3: u8,
    f4: u8,
    f5: u8,
    f6: u8,
    f7: u8,
) -> u16 {
    ((f0 & 3) as u16) | (((f1 & 3) as u16) << 2) | (((f2 & 3) as u16) << 4)
        | (((f3 & 3) as u16) << 6) | (((f4 & 3) as u16) << 8) | (((f5 & 3) as u16) << 10)
        | (((f6 & 3) as u16) << 12) | (((f7 & 3) as u16) << 14)
}

/// Pack eight two-bit interrupt output selectors into one register word.
/// Bits of each selector outside its two-bit mask are discarded.
pub fn encode_int_map_word(
    f0: u8,
    f1: u8,
    f2: u8,
    f3: u8,
    f4: u8,
    f5: u8,
    f6: u8,
    f7: u8,
) -> (w: u16)
    ensures
        w == spec_encode_int_map_word(f0, f1, f2, f3, f4, f5, f6, f7),
{
    ((f0 & 3) as u16) | (((f1 & 3) as u16) << 2) | (((f2 & 3) as u16) << 4)
        | (((f3 & 3) as u16) << 6) | (((f4 & 3) as u16) << 8) | (((f5 & 3) as u16) << 10)
        | (((f6 & 3) as u16) << 12) | (((f7 & 3) as u16) << 14)
}

} // verus!
