//! Measurement systems and the unit labels shown beside values.

use vstd::prelude::*;

verus! {

/// The measurement system the weather service reports in.
#[derive(Clone, Copy, Debug, PartialEq, Eq, Structural)]
pub enum Units {
    Imperial,
    Metric,
}

impl Default for Units {
    fn default() -> (r: Units)
        ensures
            r == Units::Metric,
    {
        Units::Metric
    }
}

/// The name of a measurement system in a request.
pub open spec fn units_text(u: Units) -> Seq<char> {
    match u {
        Units::Imperial => "imperial"@,
        Units::Metric => "metric"@,
    }
}

impl Units {
    pub fn to_string(&self) -> (r: String)
        ensures
            r@ == units_text(*self),
    {
        match self {
            Units::Imperial => String::from_str("imperial"),
            Units::Metric => String::from_str("metric"),
        }
    }

    pub fn as_str(&self) -> (r: &'static str)
        ensures
            r@ == units_text(*self),
    {
        match self {
            Units::Imperial => "imperial",
            Units::Metric => "metric",
        }
    }
}

/// The kind of a displayed quantity.
#[derive(Clone, Copy, Debug, PartialEq, Eq, Structural)]
pub enum Variant {
    /// A temperature.
    Degrees,
    /// A wind speed.
    Speed,
}

/// The unit label of a quantity in a measurement system.
pub open spec fn unit_label(v: Variant, u: Units) -> Seq<char> {
    match v {
        Variant::Degrees => match u {
            Units::Imperial => "°F"@,
            Units::Metric => "°C"@,
        },
        Variant::Speed => match u {
            Units::Imperial => "km/h"@,
            Units::Metric => "m/s"@,
        },
    }
}

impl Variant {
    pub fn to_str(&self, units: Units) -> (r: &'static str)
        ensures
            r@ == unit_label(*self, units),
    {
        match self {
            Variant::Degrees => match units {
                Units::Imperial => "°F",
                Units::Metric => "°C",
            },
            Variant::Speed => match units {
                Units::Imperial => "km/h",
                Units::Metric => "m/s",
            },
        }
    }
}

} // verus!
