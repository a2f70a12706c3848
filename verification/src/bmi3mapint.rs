//! Interrupt output mapping. Each field selects where one interrupt source
//! is routed: 0 disabled, 1 pin INT1, 2 pin INT2, 3 the I3C in-band
//! interrupt.

use vstd::prelude::*;
use crate::codec::encode_int_map_word;
use crate::codec::spec_encode_int_map_word;

verus! {

/// Routing of every interrupt source to an output pin.
#[derive(Debug, Clone, Copy, PartialEq, Eq, Structural)]
pub struct Bmi3MapInt {
    /// Maps no-motion output
    pub no_motion_out: u8,
    /// Maps any-motion output
    pub any_motion_out: u8,
    /// Maps flat output
    pub flat_out: u8,
    /// Maps orientation output
    pub orientation_out: u8,
    /// Maps step detector output
    pub step_detector_out: u8,
    /// Maps step counter output
    pub step_counter_out: u8,
    /// Maps significant motion output
    pub sig_motion_out: u8,
    /// Maps tilt output
    pub tilt_out: u8,
    /// Maps tap output
    pub tap_out: u8,
    /// Maps I3C output
    pub i3c_out: u8,
    /// Maps the feature engine's error or status change
    pub err_status: u8,
    /// Maps the temperature data ready interrupt
    pub temp_drdy_int: u8,
    /// Maps the gyroscope data ready interrupt
    pub gyr_drdy_int: u8,
    /// Maps the accelerometer data ready interrupt
    pub acc_drdy_int: u8,
    /// Maps the FIFO watermark interrupt
    pub fifo_watermark_int: u8,
    /// Maps the FIFO full interrupt
    pub fifo_full_int: u8,
}

impl Bmi3MapInt {
    /// A mapping with every source disabled.
    pub fn default() -> (r: Self)
        ensures
            r.no_motion_out == 0 && r.any_motion_out == 0 && r.flat_out == 0
                && r.orientation_out == 0 && r.step_detector_out == 0 && r.step_counter_out == 0
                && r.sig_motion_out == 0 && r.tilt_out == 0 && r.tap_out == 0 && r.i3c_out == 0
                && r.err_status == 0 && r.temp_drdy_int == 0 && r.gyr_drdy_int == 0
                && r.acc_drdy_int == 0 && r.fifo_watermark_int == 0 && r.fifo_full_int == 0,
    {
        Bmi3MapInt {
            no_motion_out: 0,
            any_motion_out: 0,
            flat_out: 0,
            orientation_out: 0,
            step_detector_out: 0,
            step_counter_out: 0,
            sig_motion_out: 0,
            tilt_out: 0,
            tap_out: 0,
            i3c_out: 0,
            err_status: 0,
            temp_drdy_int: 0,
            gyr_drdy_int: 0,
            acc_drdy_int: 0,
            fifo_watermark_int: 0,
            fifo_full_int: 0,
        }
    }

    /// The first interrupt-map register word: the feature interrupt
    /// sources, no-motion in its lowest two bits.
    pub open spec fn spec_word1(self) -> u16 {
        spec_encode_int_map_word(
            self.no_motion_out,
            self.any_motion_out,
            self.flat_out,
            self.orientation_out,
            self.step_detector_out,
            self.step_counter_out,
            self.sig_motion_out,
            self.tilt_out,
        )
    }

    /// The second interrupt-map register word: the data and FIFO interrupt
    /// sources, tap in its lowest two bits.
    pub open spec fn spec_word2(self) -> u16 {
        spec_encode_int_map_word(
            self.tap_out,
            self.i3c_out,
            self.err_status,
            self.temp_drdy_int,
            self.gyr_drdy_int,
            self.acc_drdy_int,
            self.fifo_watermark_int,
            self.fifo_full_int,
        )
    }

    /// Encode the mapping into the two 16-bit interrupt-map register
    /// words: the feature interrupt sources in the first, the data and
    /// FIFO interrupt sources in the second.
    pub fn encode(&self) -> (r: (u16, u16))
        ensures
            r.0 == self.spec_word1(),
            r.1 == self.spec_word2(),
    {
        let word1 = encode_int_map_word(
            self.no_motion_out,
            self.any_motion_out,
            self.flat_out,
            self.orientation_out,
            self.step_detector_out,
            self.step_counter_out,
            self.sig_motion_out,
            self.tilt_out,
        );
        let word2 = encode_int_map_word(
            self.tap_out,
            self.i3c_out,
            self.err_status,
            self.temp_drdy_int,
            self.gyr_drdy_int,
            self.acc_drdy_int,
            self.fifo_watermark_int,
            self.fifo_full_int,
        );
        (word1, word2)
    }
}

} // verus!
