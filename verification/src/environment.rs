//! Environmental sensor readings from pipeline infrastructure.

use crate::binary64::{lemma_encodes_integer, Binary64};
use crate::spatial::Position;
use vstd::arithmetic::power2::{lemma2_to64, lemma2_to64_rest};
use vstd::prelude::*;

verus! {

/// The bit pattern of 4000.0: the hydrogen concentration, in parts per
/// million, above which a reading is hazardous (a tenth of the lower
/// explosive limit).
pub const H2_LIMIT_BITS: u64 = 0x40AF_4000_0000_0000;

/// The bit pattern of 100.0: the pressure, in bar, above which a reading is
/// hazardous.
pub const PRESSURE_LIMIT_BITS: u64 = 0x4059_0000_0000_0000;

/// The bit pattern of 80.0: the temperature, in degrees Celsius, above which
/// a reading is hazardous.
pub const TEMPERATURE_LIMIT_BITS: u64 = 0x4054_0000_0000_0000;

/// One reading of the sensors of a pipeline section.
#[derive(Debug, PartialEq)]
pub struct PipeEnvironment {
    /// Unique identifier of the pipeline section.
    pub section_id: String,
    /// Internal pressure in bar.
    pub pressure: Binary64,
    /// Temperature in degrees Celsius.
    pub temperature: Binary64,
    /// Hydrogen concentration in parts per million.
    pub h2_concentration: Binary64,
    /// Wall thickness in millimetres.
    pub wall_thickness: Binary64,
    /// Flow rate in cubic metres per hour.
    pub flow_rate: Binary64,
    /// Humidity in percent.
    pub humidity: Binary64,
    /// Position of the reading along the pipeline.
    pub position: Position,
    /// Unix timestamp of the reading, in milliseconds.
    pub timestamp: u64,
}

impl PipeEnvironment {
    /// A reading is hazardous when the hydrogen concentration exceeds 4000
    /// ppm, or the pressure exceeds 100 bar, or the temperature exceeds 80
    /// degrees. A quantity that is not a number exceeds nothing.
    pub open spec fn spec_is_hazardous(self) -> bool {
        ||| self.h2_concentration.exceeds(4000)
        ||| self.pressure.exceeds(100)
        ||| self.temperature.exceeds(80)
    }

    /// Whether the reading indicates a potentially hazardous condition.
    pub fn is_hazardous(&self) -> (r: bool)
        ensures
            r == self.spec_is_hazardous(),
    {
        proof {
            lemma_limits_are_integers();
        }
        self.h2_concentration.gt(&Binary64::from_bits(H2_LIMIT_BITS)) || self.pressure.gt(
            &Binary64::from_bits(PRESSURE_LIMIT_BITS),
        ) || self.temperature.gt(&Binary64::from_bits(TEMPERATURE_LIMIT_BITS))
    }
}

/// The three limits encode the numbers 4000, 100 and 80: a number is larger
/// than a limit exactly when it exceeds that integer.
pub proof fn lemma_limits_are_integers()
    ensures
        forall|x: Binary64| x.spec_gt(Binary64 { bits: H2_LIMIT_BITS }) <==> x.exceeds(4000),
        forall|x: Binary64| x.spec_gt(Binary64 { bits: PRESSURE_LIMIT_BITS }) <==> x.exceeds(100),
        forall|x: Binary64| x.spec_gt(Binary64 { bits: TEMPERATURE_LIMIT_BITS }) <==> x.exceeds(80),
{
    lemma2_to64();
    lemma2_to64_rest();
    lemma_encodes_integer(H2_LIMIT_BITS, 4000, 0x001F_4000_0000_0000, 41);
    lemma_encodes_integer(PRESSURE_LIMIT_BITS, 100, 0x0019_0000_0000_0000, 46);
    lemma_encodes_integer(TEMPERATURE_LIMIT_BITS, 80, 0x0014_0000_0000_0000, 46);
}

impl Clone for PipeEnvironment {
    fn clone(&self) -> (r: PipeEnvironment)
        ensures
            r == *self,
    {
        PipeEnvironment {
            section_id: self.section_id.clone(),
            pressure: self.pressure,
            temperature: self.temperature,
            h2_concentration: self.h2_concentration,
            wall_thickness: self.wall_thickness,
            flow_rate: self.flow_rate,
            humidity: self.humidity,
            position: self.position,
            timestamp: self.timestamp,
        }
    }
}

} // verus!
