use cosmic_weather::coords::Coordinates;
use cosmic_weather::codes::{map_weather_code_to_description, map_weather_code_to_icon};
use cosmic_weather::weather::{
    Data, Details, Geometry, Instant, Meta, MetWeatherResponse, Next1Hour, NormalizeError,
    Properties, Summary, Timeseries, Units, normalize,
};

fn empty_units() -> Units {
    Units {
        air_pressure_at_sea_level: None,
        air_temperature: None,
        air_temperature_max: None,
        air_temperature_min: None,
        cloud_area_fraction: None,
        precipitation_amount: None,
        relative_humidity: None,
        wind_from_direction: None,
        wind_speed: None,
    }
}

fn empty_details() -> Details {
    Details {
        air_pressure_at_sea_level: None,
        air_temperature: None,
        air_temperature_max: None,
        air_temperature_min: None,
        cloud_area_fraction: None,
        relative_humidity: None,
        wind_from_direction: None,
        wind_speed: None,
    }
}

fn response_with(entries: Vec<Timeseries>) -> MetWeatherResponse {
    MetWeatherResponse {
        response_type: "Feature".to_string(),
        geometry: Geometry {
            geometry_type: "Point".to_string(),
            coordinates: vec![10_750_000, 59_910_000],
        },
        properties: Properties {
            meta: Meta {
                updated_at: "2024-01-01T00:00:00Z".to_string(),
                units: empty_units(),
            },
            timeseries: entries,
        },
    }
}

fn entry(temp_milli: Option<i64>, rh_milli: Option<i64>, symbol: Option<&str>) -> Timeseries {
    Timeseries {
        time: "2024-01-01T00:00:00Z".to_string(),
        data: Data {
            instant: Instant {
                details: Details {
                    air_temperature: temp_milli,
                    relative_humidity: rh_milli,
                    ..empty_details()
                },
            },
            next_1_hours: symbol.map(|s| Next1Hour {
                summary: Summary { symbol_code: s.to_string() },
                details: None,
            }),
        },
    }
}

fn oslo() -> Coordinates {
    Coordinates { latitude_micro: 59_910_000, longitude_micro: 10_750_000 }
}

#[test]
fn known_code_clearsky_day() {
    assert_eq!(map_weather_code_to_description("clearsky_day"), "Clear sky");
    assert_eq!(map_weather_code_to_icon("clearsky_day"), "01d");
}

#[test]
fn unknown_code_degrades_to_defaults() {
    assert_eq!(map_weather_code_to_description("xyz_unknown"), "Unknown");
    assert_eq!(map_weather_code_to_icon("xyz_unknown"), "01d");
}

#[test]
fn more_code_mappings() {
    assert_eq!(map_weather_code_to_description("lightrain"), "Light rain");
    assert_eq!(map_weather_code_to_icon("lightrain"), "10d");
    assert_eq!(map_weather_code_to_description("fair_night"), "Fair");
    assert_eq!(map_weather_code_to_icon("fair_night"), "02n");
    assert_eq!(map_weather_code_to_description("fog"), "Fog");
    assert_eq!(map_weather_code_to_icon("fog"), "50d");
    assert_eq!(map_weather_code_to_description("thunderstorm"), "Thunderstorm");
    assert_eq!(map_weather_code_to_icon("thunderstorm"), "11d");
    assert_eq!(map_weather_code_to_description("heavysnow"), "Snow");
    assert_eq!(map_weather_code_to_icon("heavysnow"), "13d");
    assert_eq!(map_weather_code_to_description("lightsleet"), "Light sleet");
    assert_eq!(map_weather_code_to_icon("lightsleet"), "09d");
    assert_eq!(map_weather_code_to_description("partlycloudy_polartwilight"), "Cloudy");
    assert_eq!(map_weather_code_to_description("lightrainshowers_day"), "Light rain showers");
}

#[test]
fn empty_timeseries_is_an_error_not_a_default_snapshot() {
    let raw = response_with(vec![]);
    let r = normalize(&raw, oslo(), 7);
    assert_eq!(r, Err(NormalizeError::Empty));
}

#[test]
fn absent_optional_fields_fall_back_to_defaults() {
    let raw = response_with(vec![entry(None, None, None)]);
    let w = normalize(&raw, oslo(), 42).expect("one entry is enough");
    assert_eq!(w.temperature_milli, 0);
    assert_eq!(w.feels_like_milli, 0);
    assert_eq!(w.humidity, 0);
    assert_eq!(w.condition_code, "clearsky_day");
    assert_eq!(w.description, "Clear sky");
    assert_eq!(w.icon, "01d");
    assert_eq!(w.timestamp, 42);
}

#[test]
fn end_to_end_oslo_light_rain() {
    let raw = response_with(vec![entry(Some(5_200), Some(80_000), Some("lightrain"))]);
    let w = normalize(&raw, oslo(), 1_700_000_000).expect("one entry is enough");
    assert_eq!(w.temperature_milli, 5_200);
    assert_eq!(w.feels_like_milli, 5_200);
    assert_eq!(w.humidity, 80);
    assert_eq!(w.condition_code, "lightrain");
    assert_eq!(w.description, "Light rain");
    assert_eq!(w.icon, "10d");
    assert_eq!(w.location, "(59.91, 10.75)");
    assert_eq!(w.timestamp, 1_700_000_000);
}

#[test]
fn normalize_selects_only_the_first_entry() {
    let raw = response_with(vec![
        entry(Some(1_000), Some(50_000), Some("fog")),
        entry(Some(9_000), Some(10_000), Some("thunderstorm")),
    ]);
    let w = normalize(&raw, oslo(), 0).expect("entries present");
    assert_eq!(w.temperature_milli, 1_000);
    assert_eq!(w.description, "Fog");
}

#[test]
fn normalize_is_deterministic_for_identical_payloads() {
    let raw = response_with(vec![entry(Some(-2_500), Some(93_400), Some("snow"))]);
    let first = normalize(&raw, oslo(), 555);
    let second = normalize(&raw, oslo(), 555);
    assert_eq!(first, second);
    let w = first.expect("entries present");
    assert_eq!(w.temperature_milli, -2_500);
    assert_eq!(w.humidity, 93);
    assert_eq!(w.description, "Snow");
}

#[test]
fn humidity_clamps_and_truncates() {
    let over = response_with(vec![entry(Some(0), Some(300_000), None)]);
    assert_eq!(normalize(&over, oslo(), 0).unwrap().humidity, 255);
    let negative = response_with(vec![entry(Some(0), Some(-500), None)]);
    assert_eq!(normalize(&negative, oslo(), 0).unwrap().humidity, 0);
    let fractional = response_with(vec![entry(Some(0), Some(80_499), None)]);
    assert_eq!(normalize(&fractional, oslo(), 0).unwrap().humidity, 80);
}
