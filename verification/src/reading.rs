//! A reading as it is given, and its temperature in both scales.

use vstd::prelude::*;
use crate::single::Single;
use crate::unit::{InvalidUnit, Unit};

verus! {

/// What was measured: an air temperature in the scale of `unit`, and a
/// relative humidity in percent.
#[derive(Clone, Copy, Debug)]
pub struct InputReading {
    pub temperature: Single,
    pub relative_humidity: Single,
    pub unit: Unit,
}

/// One temperature in both scales.
#[derive(Clone, Copy, Debug)]
pub struct NormalizedTemperature {
    pub celsius: Single,
    pub fahrenheit: Single,
}

impl InputReading {
    /// A reading whose unit is given as text. It is there exactly when the
    /// text is one of the two tokens; no number is looked at or refused.
    pub fn new(temperature: Single, relative_humidity: Single, unit: &str) -> (r: Result<
        InputReading,
        InvalidUnit,
    >)
        ensures
            match r {
                Ok(reading) => {
                    &&& Unit::named_by(unit@) == Some(reading.unit)
                    &&& reading.temperature == temperature
                    &&& reading.relative_humidity == relative_humidity
                },
                Err(e) => Unit::named_by(unit@) is None && e.given@ == unit@,
            },
    {
        match Unit::parse(unit) {
            Ok(unit) => Ok(InputReading { temperature, relative_humidity, unit }),
            Err(e) => Err(e),
        }
    }
}

impl NormalizedTemperature {
    /// The temperature in the given scale.
    pub open spec fn spec_in_scale(self, unit: Unit) -> Single {
        match unit {
            Unit::Celsius => self.celsius,
            Unit::Fahrenheit => self.fahrenheit,
        }
    }

    /// The temperature in the given scale.
    #[verifier::when_used_as_spec(spec_in_scale)]
    pub fn in_scale(self, unit: Unit) -> (t: Single)
        ensures
            t == self.spec_in_scale(unit),
    {
        match unit {
            Unit::Celsius => self.celsius,
            Unit::Fahrenheit => self.fahrenheit,
        }
    }

    /// Both scales of a reading's temperature. In the reading's own scale
    /// it is the number that was given, untouched; `converted` is that
    /// number taken over into the other scale.
    pub fn from_reading(reading: &InputReading, converted: Single) -> (t: NormalizedTemperature)
        ensures
            t.spec_in_scale(reading.unit) == reading.temperature,
            t.spec_in_scale(reading.unit.spec_other()) == converted,
    {
        match reading.unit {
            Unit::Celsius => NormalizedTemperature {
                celsius: reading.temperature,
                fahrenheit: converted,
            },
            Unit::Fahrenheit => NormalizedTemperature {
                celsius: converted,
                fahrenheit: reading.temperature,
            },
        }
    }
}

} // verus!
