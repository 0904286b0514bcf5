//! The provider's forecast schema and its normalization.
//!
//! The provider answers a forecast query with a geometry block, metadata, and
//! a time-ordered series of forecast entries. The engine keeps that shape,
//! with every quantity as a fixed-point integer: temperatures and other
//! physical readings in milli-units (one thousandth of the provider's unit),
//! coordinates in micro-degrees, and instants as text. Normalization selects
//! the first (current) entry and produces one immutable snapshot.

use crate::codes::{map_weather_code_to_description, map_weather_code_to_icon, spec_description_of, spec_icon_of};
use crate::coords::{coordinate_text, spec_coord_text, Coordinates};
use vstd::prelude::*;
use vstd::string::*;

verus! {

/// Measurement units, as the provider names them.
#[derive(Clone, Debug, PartialEq, Eq)]
pub struct Units {
    pub air_pressure_at_sea_level: Option<String>,
    pub air_temperature: Option<String>,
    pub air_temperature_max: Option<String>,
    pub air_temperature_min: Option<String>,
    pub cloud_area_fraction: Option<String>,
    pub precipitation_amount: Option<String>,
    pub relative_humidity: Option<String>,
    pub wind_from_direction: Option<String>,
    pub wind_speed: Option<String>,
}

/// Response metadata: when the forecast was computed, and its units.
#[derive(Clone, Debug, PartialEq, Eq)]
pub struct Meta {
    pub updated_at: String,
    pub units: Units,
}

/// Instantaneous readings, in milli-units; absent readings stay absent.
#[derive(Clone, Debug, PartialEq, Eq)]
pub struct Details {
    pub air_pressure_at_sea_level: Option<i64>,
    pub air_temperature: Option<i64>,
    pub air_temperature_max: Option<i64>,
    pub air_temperature_min: Option<i64>,
    pub cloud_area_fraction: Option<i64>,
    pub relative_humidity: Option<i64>,
    pub wind_from_direction: Option<i64>,
    pub wind_speed: Option<i64>,
}

/// The condition summary of a forecast period.
#[derive(Clone, Debug, PartialEq, Eq)]
pub struct Summary {
    pub symbol_code: String,
}

/// The next hour's forecast period.
#[derive(Clone, Debug, PartialEq, Eq)]
pub struct Next1Hour {
    pub summary: Summary,
    pub details: Option<Details>,
}

/// The instantaneous observation block of an entry.
#[derive(Clone, Debug, PartialEq, Eq)]
pub struct Instant {
    pub details: Details,
}

/// One entry's data: the instant observation and the next hour, if given.
#[derive(Clone, Debug, PartialEq, Eq)]
pub struct Data {
    pub instant: Instant,
    pub next_1_hours: Option<Next1Hour>,
}

/// One forecast entry: its instant and its data.
#[derive(Clone, Debug, PartialEq, Eq)]
pub struct Timeseries {
    pub time: String,
    pub data: Data,
}

/// The forecast proper: metadata and the time-ordered entries.
#[derive(Clone, Debug, PartialEq, Eq)]
pub struct Properties {
    pub meta: Meta,
    pub timeseries: Vec<Timeseries>,
}

/// The queried point, in micro-degrees; the provider may add an altitude.
#[derive(Clone, Debug, PartialEq, Eq)]
pub struct Geometry {
    pub geometry_type: String,
    pub coordinates: Vec<i64>,
}

/// A full provider response.
#[derive(Clone, Debug, PartialEq, Eq)]
pub struct MetWeatherResponse {
    pub response_type: String,
    pub geometry: Geometry,
    pub properties: Properties,
}

/// One normalized weather reading, immutable once constructed.
/// Temperatures are milli-degrees Celsius; `timestamp` is seconds since the
/// epoch, supplied by the caller when the fetch completed.
#[derive(Clone, Debug, PartialEq, Eq)]
pub struct WeatherData {
    pub temperature_milli: i64,
    pub feels_like_milli: i64,
    pub humidity: u8,
    pub condition_code: String,
    pub description: String,
    pub icon: String,
    pub location: String,
    pub timestamp: u64,
}

/// Why a response could not be normalized.
#[derive(Clone, Copy, Debug, PartialEq, Eq, Structural)]
pub enum NormalizeError {
    /// The response carried no forecast entry at all.
    Empty,
}

/// The condition code of an entry: the next hour's symbol when the provider
/// gives one, otherwise the clear-sky code, because the instant observation
/// block carries no condition code itself.
pub open spec fn spec_entry_code(e: Timeseries) -> Seq<char> {
    match e.data.next_1_hours {
        Option::Some(h) => h.summary.symbol_code@,
        Option::None => "clearsky_day"@,
    }
}

/// The temperature of an entry in milli-degrees; an absent reading falls
/// back to zero.
pub open spec fn spec_entry_temperature(e: Timeseries) -> i64 {
    match e.data.instant.details.air_temperature {
        Option::Some(t) => t,
        Option::None => 0,
    }
}

/// A milli-percent humidity reading brought into `0..=255`: negative
/// readings clamp to zero, oversized ones saturate, the rest truncate.
pub open spec fn spec_clamped_humidity(rh_milli: int) -> u8 {
    if rh_milli < 0 {
        0
    } else if rh_milli > 255_000 {
        255
    } else {
        (rh_milli / 1000) as u8
    }
}

/// The humidity of an entry; an absent reading falls back to zero.
pub open spec fn spec_entry_humidity(e: Timeseries) -> u8 {
    match e.data.instant.details.relative_humidity {
        Option::Some(h) => spec_clamped_humidity(h as int),
        Option::None => 0,
    }
}

/// The location label derived from the queried coordinates.
pub open spec fn spec_location_label(c: Coordinates) -> Seq<char> {
    "("@ + spec_coord_text(c.latitude_micro as int) + ", "@ + spec_coord_text(
        c.longitude_micro as int,
    ) + ")"@
}

/// A snapshot carries exactly the normalized content of the response's first
/// entry: the fallback temperature and humidity, the mapped description and
/// icon, the coordinate-derived label, and the caller's fetch instant.
pub open spec fn snapshot_matches(
    raw: MetWeatherResponse,
    c: Coordinates,
    fetched_at: u64,
    w: WeatherData,
) -> bool {
    let e = raw.properties.timeseries@[0];
    &&& w.temperature_milli == spec_entry_temperature(e)
    &&& w.feels_like_milli == spec_entry_temperature(e)
    &&& w.humidity == spec_entry_humidity(e)
    &&& w.condition_code@ == spec_entry_code(e)
    &&& w.description@ == spec_description_of(spec_entry_code(e))
    &&& w.icon@ == spec_icon_of(spec_entry_code(e))
    &&& w.location@ == spec_location_label(c)
    &&& w.timestamp == fetched_at
}

/// What `normalize` returns: the snapshot of the first entry when the
/// response has one, the emptiness error exactly when it has none.
pub open spec fn normalize_result_matches(
    raw: MetWeatherResponse,
    c: Coordinates,
    fetched_at: u64,
    r: Result<WeatherData, NormalizeError>,
) -> bool {
    match r {
        Result::Ok(w) => raw.properties.timeseries@.len() > 0 && snapshot_matches(
            raw,
            c,
            fetched_at,
            w,
        ),
        Result::Err(e) => raw.properties.timeseries@.len() == 0 && e == NormalizeError::Empty,
    }
}

fn clamp_humidity(rh_milli: i64) -> (r: u8)
    ensures
        r == spec_clamped_humidity(rh_milli as int),
{
    if rh_milli < 0 {
        0
    } else if rh_milli > 255_000 {
        255
    } else {
        ((rh_milli as u64) / 1000) as u8
    }
}

/// Builds the location label from the queried coordinates.
pub fn location_label(c: &Coordinates) -> (s: String)
    requires
        c.latitude_micro > i64::MIN,
        c.longitude_micro > i64::MIN,
    ensures
        s@ == spec_location_label(*c),
{
    let mut s = String::from_str("(");
    let lat = coordinate_text(c.latitude_micro);
    s.append(lat.as_str());
    s.append(", ");
    let lon = coordinate_text(c.longitude_micro);
    s.append(lon.as_str());
    s.append(")");
    s
}

/// Normalizes a provider response into one weather snapshot: selects the
/// first (current) entry, applies the documented fallbacks for absent
/// readings, maps the condition code through the two tables, and labels the
/// location with the queried coordinates. A response without entries is the
/// distinct, user-visible emptiness failure, never a default snapshot.
pub fn normalize(raw: &MetWeatherResponse, c: Coordinates, fetched_at: u64) -> (r: Result<
    WeatherData,
    NormalizeError,
>)
    requires
        c.latitude_micro > i64::MIN,
        c.longitude_micro > i64::MIN,
    ensures
        normalize_result_matches(*raw, c, fetched_at, r),
{
    if raw.properties.timeseries.len() == 0 {
        return Err(NormalizeError::Empty);
    }
    let entry = &raw.properties.timeseries[0];
    let temperature_milli = match entry.data.instant.details.air_temperature {
        Some(t) => t,
        None => 0,
    };
    let humidity = match entry.data.instant.details.relative_humidity {
        Some(h) => clamp_humidity(h),
        None => 0,
    };
    let condition_code = match &entry.data.next_1_hours {
        Some(h) => h.summary.symbol_code.clone(),
        None => String::from_str("clearsky_day"),
    };
    let description = map_weather_code_to_description(condition_code.as_str());
    let icon = map_weather_code_to_icon(condition_code.as_str());
    let location = location_label(&c);
    Ok(
        WeatherData {
            temperature_milli,
            feels_like_milli: temperature_milli,
            humidity,
            condition_code,
            description,
            icon,
            location,
            timestamp: fetched_at,
        },
    )
}

/// Two snapshots agree in every field a reader can observe.
pub open spec fn snapshots_agree(w1: WeatherData, w2: WeatherData) -> bool {
    &&& w1.temperature_milli == w2.temperature_milli
    &&& w1.feels_like_milli == w2.feels_like_milli
    &&& w1.humidity == w2.humidity
    &&& w1.condition_code@ == w2.condition_code@
    &&& w1.description@ == w2.description@
    &&& w1.icon@ == w2.icon@
    &&& w1.location@ == w2.location@
    &&& w1.timestamp == w2.timestamp
}

/// Normalization is deterministic: any two results for one response, one
/// coordinate pair and one fetch instant agree — repeating a fetch with an
/// identical payload reproduces the snapshot, field for field.
pub proof fn lemma_normalize_deterministic(
    raw: MetWeatherResponse,
    c: Coordinates,
    fetched_at: u64,
    r1: Result<WeatherData, NormalizeError>,
    r2: Result<WeatherData, NormalizeError>,
)
    requires
        normalize_result_matches(raw, c, fetched_at, r1),
        normalize_result_matches(raw, c, fetched_at, r2),
    ensures
        r1 is Ok <==> r2 is Ok,
        r1 matches Result::Ok(w1) ==> (r2 matches Result::Ok(w2) && snapshots_agree(w1, w2)),
        r1 matches Result::Err(e1) ==> (r2 matches Result::Err(e2) && e1 == e2),
{
}

} // verus!
