//! Which formula gives the heat index.

use vstd::prelude::*;
use vstd::arithmetic::power2::*;
use crate::single::{lemma_whole_quanta, whole, Single};

verus! {

/// The three ways in which the heat index is arrived at.
#[derive(Clone, Copy, Debug, PartialEq, Eq, Structural)]
pub enum HeatIndexFormula {
    /// The mean of the temperature and the simple estimate stands as it is.
    Baseline,
    /// The full regression takes the place of the mean.
    Rothfusz,
    /// The mean is raised by the correction for humid air.
    HumidityAdjusted,
}

/// The bits of 79: a mean above it calls for the regression.
pub const REGRESSION_FLOOR: u32 = 0x429e_0000;

/// The bits of 80, the lowest temperature that the correction applies to.
pub const ADJUSTED_FROM: u32 = 0x42a0_0000;

/// The bits of 85: the correction applies to a humidity above it.
pub const HUMID_ABOVE: u32 = 0x42aa_0000;

/// The bits of 87, the highest temperature that the correction applies to.
pub const ADJUSTED_UP_TO: u32 = 0x42ae_0000;

/// The four marks are the whole numbers 79, 80, 85 and 87.
pub proof fn lemma_marks()
    ensures
        !(Single { bits: REGRESSION_FLOOR }).spec_is_nan(),
        !(Single { bits: ADJUSTED_FROM }).spec_is_nan(),
        !(Single { bits: HUMID_ABOVE }).spec_is_nan(),
        !(Single { bits: ADJUSTED_UP_TO }).spec_is_nan(),
        (Single { bits: REGRESSION_FLOOR }).quanta() == whole(79),
        (Single { bits: ADJUSTED_FROM }).quanta() == whole(80),
        (Single { bits: HUMID_ABOVE }).quanta() == whole(85),
        (Single { bits: ADJUSTED_UP_TO }).quanta() == whole(87),
{
    lemma2_to64();
    lemma_whole_quanta(Single { bits: REGRESSION_FLOOR }, 79);
    lemma_whole_quanta(Single { bits: ADJUSTED_FROM }, 80);
    lemma_whole_quanta(Single { bits: HUMID_ABOVE }, 85);
    lemma_whole_quanta(Single { bits: ADJUSTED_UP_TO }, 87);
}

/// The formula for a temperature in degrees Fahrenheit, a relative humidity
/// in percent, and the mean of the temperature and the simple estimate.
/// The regression is asked for first and, where the mean is above 79,
/// replaces everything else. Only below that can the humid-air correction
/// apply: above 85 percent, from 80 to 87 degrees, both ends included.
pub open spec fn formula_for(mean: Single, temp_f: Single, humidity: Single) -> HeatIndexFormula {
    if mean.above(79) {
        HeatIndexFormula::Rothfusz
    } else if humidity.above(85) && temp_f.at_least(80) && temp_f.at_most(87) {
        HeatIndexFormula::HumidityAdjusted
    } else {
        HeatIndexFormula::Baseline
    }
}

/// Picks the formula for the heat index.
pub fn select_formula(mean: Single, temp_f: Single, humidity: Single) -> (formula:
    HeatIndexFormula)
    ensures
        formula == formula_for(mean, temp_f, humidity),
{
    proof {
        lemma_marks();
    }
    if mean.gt(Single::from_bits(REGRESSION_FLOOR)) {
        HeatIndexFormula::Rothfusz
    } else if humidity.gt(Single::from_bits(HUMID_ABOVE)) && temp_f.ge(
        Single::from_bits(ADJUSTED_FROM),
    ) && temp_f.le(Single::from_bits(ADJUSTED_UP_TO)) {
        HeatIndexFormula::HumidityAdjusted
    } else {
        HeatIndexFormula::Baseline
    }
}

} // verus!
