//! Settings of the kiosk.

use crate::geo::Location;
use vstd::prelude::*;

pub use crate::units::Units;

verus! {

/// Settings read at startup; every field has a usable default.
#[derive(Clone, Debug)]
pub struct Config {
    /// Fixed coordinates, used when location detection is off.
    pub coords: Option<Location>,
    pub units: Units,
    /// Key of the weather service.
    pub appid: String,
    /// Whether to find the location from the network address.
    pub autodetect_location: bool,
    /// City searched for when a location query is left empty.
    pub default_city: String,
}

impl Default for Config {
    fn default() -> (r: Config)
        ensures
            r.coords == Some(Location { lat: 56328700, lon: 44002000 }),
            r.units == Units::Metric,
            r.appid@ == "26896f0fe821b98790eeae3a316f3358"@,
            r.autodetect_location,
            r.default_city@ == "Нижний Новгород"@,
    {
        Config {
            coords: Some(Location { lat: 56328700, lon: 44002000 }),
            units: Units::Metric,
            appid: String::from_str("26896f0fe821b98790eeae3a316f3358"),
            autodetect_location: true,
            default_city: String::from_str("Нижний Новгород"),
        }
    }
}

} // verus!
