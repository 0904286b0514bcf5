//! The persisted configuration, as an external settings store hands it over.
//!
//! Coordinates arrive as optional strings and are parsed at the point of use;
//! a missing or unparseable coordinate silently yields no fetch — a
//! configuration error, not a fetch error.

use crate::coords::{
    parse_coordinate, spec_parse_coordinate, Coordinates, MAX_LATITUDE_MICRO, MAX_LONGITUDE_MICRO,
};
use crate::scheduler::RefreshPolicy;
use vstd::prelude::*;
use vstd::string::*;

verus! {

/// What the user configured: where to fetch for, the display units, and how
/// the periodic refresh behaves.
#[derive(Clone, Debug, PartialEq, Eq)]
pub struct Config {
    pub latitude: Option<String>,
    pub longitude: Option<String>,
    pub city: Option<String>,
    pub units: String,
    pub auto_update: bool,
    pub update_interval: u64,
}

impl Config {
    /// A fresh configuration for the given place: metric units, periodic
    /// refresh on, fifteen minutes between refreshes.
    pub fn new(lat: Option<String>, lon: Option<String>, city: Option<String>) -> (c: Self)
        ensures
            c.latitude == lat,
            c.longitude == lon,
            c.city == city,
            c.units@ == "metric"@,
            c.auto_update == true,
            c.update_interval == 15,
    {
        Config {
            latitude: lat,
            longitude: lon,
            city,
            units: String::from_str("metric"),
            auto_update: true,
            update_interval: 15,
        }
    }
}

impl Default for Config {
    /// An empty configuration: no place, empty units, periodic refresh off.
    fn default() -> (c: Self)
        ensures
            c.latitude is None,
            c.longitude is None,
            c.city is None,
            c.units@ == Seq::<char>::empty(),
            c.auto_update == false,
            c.update_interval == 0,
    {
        Config {
            latitude: None,
            longitude: None,
            city: None,
            units: String::new(),
            auto_update: false,
            update_interval: 0,
        }
    }
}

/// The coordinates a configuration denotes: both strings present, both
/// parsing as decimal degrees, both within the valid geographic ranges —
/// anything less denotes no coordinates, and no fetch is attempted.
pub open spec fn spec_configured_coordinates(c: Config) -> Option<Coordinates> {
    match (c.latitude, c.longitude) {
        (Option::Some(lat), Option::Some(lon)) => {
            match (
                spec_parse_coordinate(lat@, MAX_LATITUDE_MICRO as int),
                spec_parse_coordinate(lon@, MAX_LONGITUDE_MICRO as int),
            ) {
                (Option::Some(la), Option::Some(lo)) => Option::Some(
                    Coordinates { latitude_micro: la as i64, longitude_micro: lo as i64 },
                ),
                _ => Option::None,
            }
        },
        _ => Option::None,
    }
}

/// Parses the configured coordinate strings.
pub fn configured_coordinates(c: &Config) -> (r: Option<Coordinates>)
    ensures
        r == spec_configured_coordinates(*c),
{
    match (&c.latitude, &c.longitude) {
        (Some(lat), Some(lon)) => {
            let la = parse_coordinate(lat.as_str(), MAX_LATITUDE_MICRO);
            let lo = parse_coordinate(lon.as_str(), MAX_LONGITUDE_MICRO);
            match (la, lo) {
                (Some(la), Some(lo)) => Some(
                    Coordinates { latitude_micro: la, longitude_micro: lo },
                ),
                _ => None,
            }
        },
        _ => None,
    }
}

/// The refresh policy a configuration denotes.
pub fn refresh_policy_of(c: &Config) -> (p: RefreshPolicy)
    ensures
        p.auto_enabled == c.auto_update,
        p.interval_minutes == c.update_interval,
        p.coordinates == spec_configured_coordinates(*c),
{
    RefreshPolicy {
        auto_enabled: c.auto_update,
        interval_minutes: c.update_interval,
        coordinates: configured_coordinates(c),
    }
}

} // verus!
