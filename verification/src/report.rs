//! The three lines of the report, and the level that colours them.

use vstd::prelude::*;
use vstd::string::*;
use crate::severity::{classify, severity_of, SeverityLevel};
use crate::single::Single;
use crate::unit::Unit;

verus! {

/// The three figures that are reported.
#[derive(Clone, Copy, Debug, PartialEq, Eq, Structural)]
pub enum Metric {
    WetBulb,
    HeatIndex,
    DewPoint,
}

/// The three figures, each in both scales.
#[derive(Clone, Copy, Debug)]
pub struct DerivedMetrics {
    pub wet_bulb_celsius: Single,
    pub wet_bulb_fahrenheit: Single,
    pub heat_index_fahrenheit: Single,
    pub heat_index_celsius: Single,
    pub dew_point_celsius: Single,
    pub dew_point_fahrenheit: Single,
}

/// What is printed: one line for each figure, and the level of the
/// wet-bulb temperature, if there is one.
#[derive(Clone, Debug)]
pub struct Report {
    pub wet_bulb: String,
    pub heat_index: String,
    pub dew_point: String,
    pub severity: Option<SeverityLevel>,
}

impl Metric {
    /// The words with which the line of this figure begins.
    pub open spec fn spec_label(self) -> Seq<char> {
        match self {
            Metric::WetBulb => "wet-bulb temperature"@,
            Metric::HeatIndex => "heat index"@,
            Metric::DewPoint => "dew point"@,
        }
    }

    /// The words with which the line of this figure begins.
    pub fn label(self) -> (text: &'static str)
        ensures
            text@ == self.spec_label(),
    {
        match self {
            Metric::WetBulb => "wet-bulb temperature",
            Metric::HeatIndex => "heat index",
            Metric::DewPoint => "dew point",
        }
    }
}

/// The line of a figure: its label, a colon, the figure in degrees Celsius
/// and then in degrees Fahrenheit, each with one digit after the point and
/// followed by the token of its scale.
pub open spec fn line_of(metric: Metric, celsius: Single, fahrenheit: Single) -> Seq<char> {
    metric.spec_label() + seq![':', ' '] + celsius.one_decimal() + Unit::Celsius.token() + seq![
        ',',
        ' ',
    ] + fahrenheit.one_decimal() + Unit::Fahrenheit.token()
}

/// Writes the line of a figure.
pub fn format_line(metric: Metric, celsius: Single, fahrenheit: Single) -> (text: String)
    ensures
        text@ == line_of(metric, celsius, fahrenheit),
{
    proof {
        reveal_strlit(": ");
        reveal_strlit("\u{ba}C, ");
        reveal_strlit("\u{ba}F");
    }
    let mut text = String::from_str(metric.label());
    text.append(": ");
    let in_celsius = celsius.to_one_decimal();
    text.append(in_celsius.as_str());
    text.append("\u{ba}C, ");
    let in_fahrenheit = fahrenheit.to_one_decimal();
    text.append(in_fahrenheit.as_str());
    text.append("\u{ba}F");
    assert(text@ =~= line_of(metric, celsius, fahrenheit));
    text
}

impl DerivedMetrics {
    /// Writes the report on these figures.
    pub fn report(&self) -> (r: Report)
        ensures
            r.wet_bulb@ == line_of(
                Metric::WetBulb,
                self.wet_bulb_celsius,
                self.wet_bulb_fahrenheit,
            ),
            r.heat_index@ == line_of(
                Metric::HeatIndex,
                self.heat_index_celsius,
                self.heat_index_fahrenheit,
            ),
            r.dew_point@ == line_of(
                Metric::DewPoint,
                self.dew_point_celsius,
                self.dew_point_fahrenheit,
            ),
            r.severity == severity_of(self.wet_bulb_fahrenheit),
    {
        Report {
            wet_bulb: format_line(
                Metric::WetBulb,
                self.wet_bulb_celsius,
                self.wet_bulb_fahrenheit,
            ),
            heat_index: format_line(
                Metric::HeatIndex,
                self.heat_index_celsius,
                self.heat_index_fahrenheit,
            ),
            dew_point: format_line(
                Metric::DewPoint,
                self.dew_point_celsius,
                self.dew_point_fahrenheit,
            ),
            severity: classify(self.wet_bulb_fahrenheit),
        }
    }
}

} // verus!
