//! Sensor configuration records and builders for the high-level driver.
//!
//! A configuration is a record of five enumerated fields. Each field type
//! carries its own hardware code, so every record is representable in the
//! configuration register; validity of the rate/averaging/mode combination
//! is checked separately when the record is written.

use vstd::prelude::*;
use crate::codec::spec_encode_sensor_conf;
use crate::codec::encode_sensor_conf;
use crate::codec::lemma_sensor_conf_roundtrip;
use crate::codec::spec_conf_avg;
use crate::codec::spec_conf_bw;
use crate::codec::spec_conf_mode;
use crate::codec::spec_conf_odr;
use crate::codec::spec_conf_range;
use crate::types::AccelerometerPowerMode;
use crate::types::AccelerometerRange;
use crate::types::AverageNum;
use crate::types::Bandwidth;
use crate::types::GyroscopePowerMode;
use crate::types::GyroscopeRange;
use crate::types::OutputDataRate;
use crate::validation::spec_skipped_samples_positive;

verus! {

/// Configuration for the accelerometer
#[derive(Debug, Clone, Copy, PartialEq, Eq, Structural)]
pub struct AccelConfig {
    /// Output data rate
    pub odr: OutputDataRate,
    /// Measurement range
    pub range: AccelerometerRange,
    /// Bandwidth
    pub bw: Bandwidth,
    /// Number of samples to average
    pub avg_num: AverageNum,
    /// Power mode
    pub mode: AccelerometerPowerMode,
}

impl AccelConfig {
    /// The register word this configuration encodes to.
    pub open spec fn spec_reg_value(self) -> u16 {
        spec_encode_sensor_conf(
            self.odr.spec_code(),
            self.range.spec_code(),
            self.bw.spec_code(),
            self.avg_num.spec_code(),
            self.mode.spec_code(),
        )
    }

    /// Whether the rate/averaging/mode combination is accepted: low-power
    /// mode asks for a rate code of at most 400 Hz and a positive
    /// skipped-samples margin; normal and high-performance mode are not
    /// defined in the band below 12.5 Hz.
    pub open spec fn spec_valid(self) -> bool {
        let odr = self.odr.spec_code();
        let avg = self.avg_num.spec_code();
        &&& self.mode == AccelerometerPowerMode::LowPower ==> odr <= 10
            && spec_skipped_samples_positive(odr, avg)
        &&& (self.mode == AccelerometerPowerMode::Normal || self.mode
            == AccelerometerPowerMode::HighPerf) ==> odr > 4
    }

    /// Create a new AccelConfigBuilder
    pub fn builder() -> (r: AccelConfigBuilder)
        ensures
            r == (AccelConfigBuilder {
                odr: None::<OutputDataRate>,
                range: None::<AccelerometerRange>,
                bw: None::<Bandwidth>,
                avg_num: None::<AverageNum>,
                mode: None::<AccelerometerPowerMode>,
            }),
    {
        AccelConfigBuilder::default()
    }

    /// Encode the configuration into its 16-bit register word.
    pub fn to_reg_value(self) -> (w: u16)
        ensures
            w == self.spec_reg_value(),
    {
        encode_sensor_conf(
            self.odr.code(),
            self.range.code(),
            self.bw.code(),
            self.avg_num.code(),
            self.mode.code(),
        )
    }
}

/// Decoding the register word of an accelerometer configuration recovers
/// exactly the five field codes that were encoded, for every
/// configuration.
pub proof fn lemma_accel_config_roundtrip(c: AccelConfig)
    ensures
        spec_conf_odr(c.spec_reg_value()) == c.odr.spec_code(),
        spec_conf_range(c.spec_reg_value()) == c.range.spec_code(),
        spec_conf_bw(c.spec_reg_value()) == c.bw.spec_code(),
        spec_conf_avg(c.spec_reg_value()) == c.avg_num.spec_code(),
        spec_conf_mode(c.spec_reg_value()) == c.mode.spec_code(),
{
    lemma_sensor_conf_roundtrip(
        c.odr.spec_code(),
        c.range.spec_code(),
        c.bw.spec_code(),
        c.avg_num.spec_code(),
        c.mode.spec_code(),
    );
}

/// Builder for AccelConfig
#[derive(Debug, Clone, Copy)]
pub struct AccelConfigBuilder {
    /// Output data rate, if chosen
    pub odr: Option<OutputDataRate>,
    /// Measurement range, if chosen
    pub range: Option<AccelerometerRange>,
    /// Bandwidth, if chosen
    pub bw: Option<Bandwidth>,
    /// Number of samples to average, if chosen
    pub avg_num: Option<AverageNum>,
    /// Power mode, if chosen
    pub mode: Option<AccelerometerPowerMode>,
}

impl Default for AccelConfigBuilder {
    /// A builder with no field chosen.
    fn default() -> (r: Self)
        ensures
            r == (AccelConfigBuilder {
                odr: None::<OutputDataRate>,
                range: None::<AccelerometerRange>,
                bw: None::<Bandwidth>,
                avg_num: None::<AverageNum>,
                mode: None::<AccelerometerPowerMode>,
            }),
    {
        Self { odr: None, range: None, bw: None, avg_num: None, mode: None }
    }
}

impl AccelConfigBuilder {
    /// Set the output data rate
    pub fn odr(self, odr: OutputDataRate) -> (r: Self)
        ensures
            r == (AccelConfigBuilder { odr: Some(odr), ..self }),
    {
        AccelConfigBuilder { odr: Some(odr), ..self }
    }

    /// Set the measurement range
    pub fn range(self, range: AccelerometerRange) -> (r: Self)
        ensures
            r == (AccelConfigBuilder { range: Some(range), ..self }),
    {
        AccelConfigBuilder { range: Some(range), ..self }
    }

    /// Set the bandwidth
    pub fn bw(self, bw: Bandwidth) -> (r: Self)
        ensures
            r == (AccelConfigBuilder { bw: Some(bw), ..self }),
    {
        AccelConfigBuilder { bw: Some(bw), ..self }
    }

    /// Set the number of samples to average
    pub fn avg_num(self, avg_num: AverageNum) -> (r: Self)
        ensures
            r == (AccelConfigBuilder { avg_num: Some(avg_num), ..self }),
    {
        AccelConfigBuilder { avg_num: Some(avg_num), ..self }
    }

    /// Set the power mode
    pub fn mode(self, mode: AccelerometerPowerMode) -> (r: Self)
        ensures
            r == (AccelConfigBuilder { mode: Some(mode), ..self }),
    {
        AccelConfigBuilder { mode: Some(mode), ..self }
    }

    /// Build the AccelConfig, filling every field that was not chosen with
    /// its default: 100 Hz, ±8 g, quarter-ODR bandwidth, no averaging,
    /// normal power mode.
    pub fn build(self) -> (r: AccelConfig)
        ensures
            r.odr == self.odr.unwrap_or(OutputDataRate::Odr100hz),
            r.range == self.range.unwrap_or(AccelerometerRange::G8),
            r.bw == self.bw.unwrap_or(Bandwidth::OdrQuarter),
            r.avg_num == self.avg_num.unwrap_or(AverageNum::Avg1),
            r.mode == self.mode.unwrap_or(AccelerometerPowerMode::Normal),
    {
        AccelConfig {
            odr: match self.odr {
                Some(v) => v,
                None => OutputDataRate::Odr100hz,
            },
            range: match self.range {
                Some(v) => v,
                None => AccelerometerRange::G8,
            },
            bw: match self.bw {
                Some(v) => v,
                None => Bandwidth::OdrQuarter,
            },
            avg_num: match self.avg_num {
                Some(v) => v,
                None => AverageNum::Avg1,
            },
            mode: match self.mode {
                Some(v) => v,
                None => AccelerometerPowerMode::Normal,
            },
        }
    }
}

/// Configuration for the gyroscope
#[derive(Debug, Clone, Copy, PartialEq, Eq, Structural)]
pub struct GyroConfig {
    /// Output data rate
    pub odr: OutputDataRate,
    /// Measurement range
    pub range: GyroscopeRange,
    /// Bandwidth
    pub bw: Bandwidth,
    /// Number of samples to average
    pub avg_num: AverageNum,
    /// Power mode
    pub mode: GyroscopePowerMode,
}

impl GyroConfig {
    /// The register word this configuration encodes to.
    pub open spec fn spec_reg_value(self) -> u16 {
        spec_encode_sensor_conf(
            self.odr.spec_code(),
            self.range.spec_code(),
            self.bw.spec_code(),
            self.avg_num.spec_code(),
            self.mode.spec_code(),
        )
    }

    /// Whether the rate/averaging/mode combination is accepted: low-power
    /// mode asks for a rate code of at most 400 Hz and a positive
    /// skipped-samples margin.
    pub open spec fn spec_valid(self) -> bool {
        let odr = self.odr.spec_code();
        let avg = self.avg_num.spec_code();
        self.mode == GyroscopePowerMode::LowPower ==> odr <= 10
            && spec_skipped_samples_positive(odr, avg)
    }

    /// Create a new GyroConfigBuilder
    pub fn builder() -> (r: GyroConfigBuilder)
        ensures
            r == (GyroConfigBuilder {
                odr: None::<OutputDataRate>,
                range: None::<GyroscopeRange>,
                bw: None::<Bandwidth>,
                avg_num: None::<AverageNum>,
                mode: None::<GyroscopePowerMode>,
            }),
    {
        GyroConfigBuilder::default()
    }

    /// Encode the configuration into its 16-bit register word.
    pub fn to_reg_value(self) -> (w: u16)
        ensures
            w == self.spec_reg_value(),
    {
        encode_sensor_conf(
            self.odr.code(),
            self.range.code(),
            self.bw.code(),
            self.avg_num.code(),
            self.mode.code(),
        )
    }
}

/// Decoding the register word of a gyroscope configuration recovers
/// exactly the five field codes that were encoded, for every
/// configuration.
pub proof fn lemma_gyro_config_roundtrip(c: GyroConfig)
    ensures
        spec_conf_odr(c.spec_reg_value()) == c.odr.spec_code(),
        spec_conf_range(c.spec_reg_value()) == c.range.spec_code(),
        spec_conf_bw(c.spec_reg_value()) == c.bw.spec_code(),
        spec_conf_avg(c.spec_reg_value()) == c.avg_num.spec_code(),
        spec_conf_mode(c.spec_reg_value()) == c.mode.spec_code(),
{
    lemma_sensor_conf_roundtrip(
        c.odr.spec_code(),
        c.range.spec_code(),
        c.bw.spec_code(),
        c.avg_num.spec_code(),
        c.mode.spec_code(),
    );
}

/// Builder for GyroConfig
#[derive(Debug, Clone, Copy)]
pub struct GyroConfigBuilder {
    /// Output data rate, if chosen
    pub odr: Option<OutputDataRate>,
    /// Measurement range, if chosen
    pub range: Option<GyroscopeRange>,
    /// Bandwidth, if chosen
    pub bw: Option<Bandwidth>,
    /// Number of samples to average, if chosen
    pub avg_num: Option<AverageNum>,
    /// Power mode, if chosen
    pub mode: Option<GyroscopePowerMode>,
}

impl Default for GyroConfigBuilder {
    /// A builder with no field chosen.
    fn default() -> (r: Self)
        ensures
            r == (GyroConfigBuilder {
                odr: None::<OutputDataRate>,
                range: None::<GyroscopeRange>,
                bw: None::<Bandwidth>,
                avg_num: None::<AverageNum>,
                mode: None::<GyroscopePowerMode>,
            }),
    {
        Self { odr: None, range: None, bw: None, avg_num: None, mode: None }
    }
}

impl GyroConfigBuilder {
    /// Set the output data rate
    pub fn odr(self, odr: OutputDataRate) -> (r: Self)
        ensures
            r == (GyroConfigBuilder { odr: Some(odr), ..self }),
    {
        GyroConfigBuilder { odr: Some(odr), ..self }
    }

    /// Set the measurement range
    pub fn range(self, range: GyroscopeRange) -> (r: Self)
        ensures
            r == (GyroConfigBuilder { range: Some(range), ..self }),
    {
        GyroConfigBuilder { range: Some(range), ..self }
    }

    /// Set the bandwidth
    pub fn bw(self, bw: Bandwidth) -> (r: Self)
        ensures
            r == (GyroConfigBuilder { bw: Some(bw), ..self }),
    {
        GyroConfigBuilder { bw: Some(bw), ..self }
    }

    /// Set the number of samples to average
    pub fn avg_num(self, avg_num: AverageNum) -> (r: Self)
        ensures
            r == (GyroConfigBuilder { avg_num: Some(avg_num), ..self }),
    {
        GyroConfigBuilder { avg_num: Some(avg_num), ..self }
    }

    /// Set the power mode
    pub fn mode(self, mode: GyroscopePowerMode) -> (r: Self)
        ensures
            r == (GyroConfigBuilder { mode: Some(mode), ..self }),
    {
        GyroConfigBuilder { mode: Some(mode), ..self }
    }

    /// Build the GyroConfig, filling every field that was not chosen with
    /// its default: 100 Hz, ±2000 °/s, half-ODR bandwidth, no averaging,
    /// normal power mode.
    pub fn build(self) -> (r: GyroConfig)
        ensures
            r.odr == self.odr.unwrap_or(OutputDataRate::Odr100hz),
            r.range == self.range.unwrap_or(GyroscopeRange::DPS2000),
            r.bw == self.bw.unwrap_or(Bandwidth::OdrHalf),
            r.avg_num == self.avg_num.unwrap_or(AverageNum::Avg1),
            r.mode == self.mode.unwrap_or(GyroscopePowerMode::Normal),
    {
        GyroConfig {
            odr: match self.odr {
                Some(v) => v,
                None => OutputDataRate::Odr100hz,
            },
            range: match self.range {
                Some(v) => v,
                None => GyroscopeRange::DPS2000,
            },
            bw: match self.bw {
                Some(v) => v,
                None => Bandwidth::OdrHalf,
            },
            avg_num: match self.avg_num {
                Some(v) => v,
                None => AverageNum::Avg1,
            },
            mode: match self.mode {
                Some(v) => v,
                None => GyroscopePowerMode::Normal,
            },
        }
    }
}

} // verus!
