//! How severe a wet-bulb temperature is, and the colour that goes with it.

use vstd::prelude::*;
use vstd::arithmetic::power2::*;
use crate::single::{lemma_whole_quanta, whole, Single};

verus! {

/// The five levels of heat stress, mildest first.
#[derive(Clone, Copy, Debug, PartialEq, Eq, Structural)]
pub enum SeverityLevel {
    Calm,
    Caution,
    ExtremeCaution,
    Danger,
    ExtremeDanger,
}

/// The foreground colours in which a level is shown.
#[derive(Clone, Copy, Debug, PartialEq, Eq, Structural)]
pub enum Color {
    White,
    Green,
    Yellow,
    Red,
    Blue,
}

/// The bits of 80, the highest wet-bulb temperature that is calm.
pub const CALM_BOUND: u32 = 0x42a0_0000;

/// The bits of 85, the highest that calls for caution only.
pub const CAUTION_BOUND: u32 = 0x42aa_0000;

/// The bits of 88, the highest that calls for extreme caution only.
pub const EXTREME_CAUTION_BOUND: u32 = 0x42b0_0000;

/// The bits of 90, above which the danger is extreme.
pub const DANGER_BOUND: u32 = 0x42b4_0000;

/// The four bounds are the whole numbers 80, 85, 88 and 90.
pub proof fn lemma_bounds()
    ensures
        !(Single { bits: CALM_BOUND }).spec_is_nan(),
        !(Single { bits: CAUTION_BOUND }).spec_is_nan(),
        !(Single { bits: EXTREME_CAUTION_BOUND }).spec_is_nan(),
        !(Single { bits: DANGER_BOUND }).spec_is_nan(),
        (Single { bits: CALM_BOUND }).quanta() == whole(80),
        (Single { bits: CAUTION_BOUND }).quanta() == whole(85),
        (Single { bits: EXTREME_CAUTION_BOUND }).quanta() == whole(88),
        (Single { bits: DANGER_BOUND }).quanta() == whole(90),
{
    lemma2_to64();
    lemma_whole_quanta(Single { bits: CALM_BOUND }, 80);
    lemma_whole_quanta(Single { bits: CAUTION_BOUND }, 85);
    lemma_whole_quanta(Single { bits: EXTREME_CAUTION_BOUND }, 88);
    lemma_whole_quanta(Single { bits: DANGER_BOUND }, 90);
}

/// The level of a wet-bulb temperature in degrees Fahrenheit. The bounds
/// are tried from the lowest up and the first that holds decides; each
/// belongs to the level below it. A NaN meets none of them and has no level.
pub open spec fn severity_of(wet_bulb_f: Single) -> Option<SeverityLevel> {
    if wet_bulb_f.at_most(80) {
        Some(SeverityLevel::Calm)
    } else if wet_bulb_f.at_most(85) {
        Some(SeverityLevel::Caution)
    } else if wet_bulb_f.at_most(88) {
        Some(SeverityLevel::ExtremeCaution)
    } else if wet_bulb_f.at_most(90) {
        Some(SeverityLevel::Danger)
    } else if wet_bulb_f.above(90) {
        Some(SeverityLevel::ExtremeDanger)
    } else {
        None
    }
}

/// Classifies a wet-bulb temperature given in degrees Fahrenheit.
pub fn classify(wet_bulb_f: Single) -> (level: Option<SeverityLevel>)
    ensures
        level == severity_of(wet_bulb_f),
        level is None <==> wet_bulb_f.spec_is_nan(),
{
    proof {
        lemma_bounds();
    }
    if wet_bulb_f.le(Single::from_bits(CALM_BOUND)) {
        Some(SeverityLevel::Calm)
    } else if wet_bulb_f.le(Single::from_bits(CAUTION_BOUND)) {
        Some(SeverityLevel::Caution)
    } else if wet_bulb_f.le(Single::from_bits(EXTREME_CAUTION_BOUND)) {
        Some(SeverityLevel::ExtremeCaution)
    } else if wet_bulb_f.le(Single::from_bits(DANGER_BOUND)) {
        Some(SeverityLevel::Danger)
    } else if wet_bulb_f.gt(Single::from_bits(DANGER_BOUND)) {
        Some(SeverityLevel::ExtremeDanger)
    } else {
        None
    }
}

impl SeverityLevel {
    /// The colour of each level.
    pub open spec fn spec_color(self) -> Color {
        match self {
            SeverityLevel::Calm => Color::White,
            SeverityLevel::Caution => Color::Green,
            SeverityLevel::ExtremeCaution => Color::Yellow,
            SeverityLevel::Danger => Color::Red,
            SeverityLevel::ExtremeDanger => Color::Blue,
        }
    }

    /// The colour in which this level is shown.
    #[verifier::when_used_as_spec(spec_color)]
    pub fn color(self) -> (c: Color)
        ensures
            c == self.spec_color(),
    {
        match self {
            SeverityLevel::Calm => Color::White,
            SeverityLevel::Caution => Color::Green,
            SeverityLevel::ExtremeCaution => Color::Yellow,
            SeverityLevel::Danger => Color::Red,
            SeverityLevel::ExtremeDanger => Color::Blue,
        }
    }
}

} // verus!
