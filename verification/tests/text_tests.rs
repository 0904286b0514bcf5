use cosmic_weather::client::{build_forecast_url, is_success_status, user_agent, FetchError};
use cosmic_weather::coords::{
    coordinate_text, parse_coordinate, Coordinates, MAX_LATITUDE_MICRO, MAX_LONGITUDE_MICRO,
};
use cosmic_weather::codes::symbolic_icon_name;
use cosmic_weather::display::{
    feels_like_text, humidity_text, parse_temperature_text, temperature_text, trunc_degrees,
};

#[test]
fn parse_plain_coordinates() {
    assert_eq!(parse_coordinate("59.91", MAX_LATITUDE_MICRO), Some(59_910_000));
    assert_eq!(parse_coordinate("10.75", MAX_LONGITUDE_MICRO), Some(10_750_000));
    assert_eq!(parse_coordinate("-33.5", MAX_LATITUDE_MICRO), Some(-33_500_000));
    assert_eq!(parse_coordinate("+45.000001", MAX_LATITUDE_MICRO), Some(45_000_001));
    assert_eq!(parse_coordinate("0", MAX_LATITUDE_MICRO), Some(0));
    assert_eq!(parse_coordinate("90", MAX_LATITUDE_MICRO), Some(90_000_000));
    assert_eq!(parse_coordinate("180", MAX_LONGITUDE_MICRO), Some(180_000_000));
}

#[test]
fn parse_rejects_out_of_range_coordinates() {
    assert_eq!(parse_coordinate("90.000001", MAX_LATITUDE_MICRO), None);
    assert_eq!(parse_coordinate("-91", MAX_LATITUDE_MICRO), None);
    assert_eq!(parse_coordinate("180.5", MAX_LONGITUDE_MICRO), None);
}

#[test]
fn parse_rejects_malformed_coordinates() {
    assert_eq!(parse_coordinate("", MAX_LATITUDE_MICRO), None);
    assert_eq!(parse_coordinate("abc", MAX_LATITUDE_MICRO), None);
    assert_eq!(parse_coordinate("59.", MAX_LATITUDE_MICRO), None);
    assert_eq!(parse_coordinate(".5", MAX_LATITUDE_MICRO), None);
    assert_eq!(parse_coordinate("-", MAX_LATITUDE_MICRO), None);
    assert_eq!(parse_coordinate("12.3.4", MAX_LATITUDE_MICRO), None);
    assert_eq!(parse_coordinate("12a.5", MAX_LATITUDE_MICRO), None);
    assert_eq!(parse_coordinate("0000000001", MAX_LATITUDE_MICRO), None);
}

#[test]
fn parse_truncates_fraction_digits_beyond_six() {
    assert_eq!(parse_coordinate("59.912345678", MAX_LATITUDE_MICRO), Some(59_912_345));
    assert_eq!(parse_coordinate("1.0000009", MAX_LATITUDE_MICRO), Some(1_000_000));
}

#[test]
fn render_coordinates_as_decimal_degrees() {
    assert_eq!(coordinate_text(59_910_000), "59.91");
    assert_eq!(coordinate_text(10_750_000), "10.75");
    assert_eq!(coordinate_text(-3_000_000), "-3");
    assert_eq!(coordinate_text(0), "0");
    assert_eq!(coordinate_text(45_000_001), "45.000001");
    assert_eq!(coordinate_text(-90_000_000), "-90");
}

#[test]
fn forecast_url_embeds_the_coordinates() {
    let c = Coordinates { latitude_micro: 59_910_000, longitude_micro: 10_750_000 };
    assert_eq!(
        build_forecast_url(&c),
        "https://api.met.no/weatherapi/locationforecast/2.0/compact?lat=59.91&lon=10.75"
    );
}

#[test]
fn client_header_identifies_the_product() {
    assert_eq!(user_agent(), "cosmic-weather/1.0.0");
}

#[test]
fn success_is_exactly_the_2xx_range() {
    assert!(is_success_status(200));
    assert!(is_success_status(204));
    assert!(is_success_status(299));
    assert!(!is_success_status(199));
    assert!(!is_success_status(300));
    assert!(!is_success_status(404));
    assert!(!is_success_status(500));
}

#[test]
fn fetch_error_messages() {
    assert_eq!(
        FetchError::HttpStatus(404).message(),
        "API request failed with status: 404"
    );
    assert_eq!(FetchError::Network("timed out".to_string()).message(), "timed out");
    assert_eq!(FetchError::Decode("bad json".to_string()).message(), "bad json");
}

#[test]
fn temperature_text_truncates_toward_zero() {
    assert_eq!(temperature_text(21_000), "21\u{b0}C");
    assert_eq!(temperature_text(21_999), "21\u{b0}C");
    assert_eq!(temperature_text(5_200), "5\u{b0}C");
    assert_eq!(temperature_text(-7_300), "-7\u{b0}C");
    assert_eq!(temperature_text(-500), "0\u{b0}C");
    assert_eq!(temperature_text(0), "0\u{b0}C");
}

#[test]
fn temperature_text_round_trip() {
    for milli in [21_000i64, 5_200, -7_300, -500, 0, 1_000_000, -40_000] {
        let text = temperature_text(milli);
        assert_eq!(parse_temperature_text(&text), Some(trunc_degrees(milli)));
    }
    assert_eq!(parse_temperature_text("21\u{b0}C"), Some(21));
    assert_eq!(parse_temperature_text("-7\u{b0}C"), Some(-7));
}

#[test]
fn symbolic_icon_names() {
    assert_eq!(symbolic_icon_name("01d"), "weather-clear-symbolic");
    assert_eq!(symbolic_icon_name("01n"), "weather-clear-symbolic");
    assert_eq!(symbolic_icon_name("02d"), "weather-few-clouds-symbolic");
    assert_eq!(symbolic_icon_name("10d"), "weather-showers-symbolic");
    assert_eq!(symbolic_icon_name("11d"), "weather-storm-symbolic");
    assert_eq!(symbolic_icon_name("13d"), "weather-snow-symbolic");
    assert_eq!(symbolic_icon_name("50d"), "weather-fog-symbolic");
    assert_eq!(symbolic_icon_name("99x"), "weather-severe-alert-symbolic");
}

#[test]
fn popup_text_lines() {
    assert_eq!(feels_like_text(5_200), "Feels like 5\u{b0}C");
    assert_eq!(feels_like_text(-12_000), "Feels like -12\u{b0}C");
    assert_eq!(humidity_text(80), "Humidity: 80%");
    assert_eq!(humidity_text(0), "Humidity: 0%");
}

#[test]
fn temperature_parse_rejects_malformed_text() {
    assert_eq!(parse_temperature_text(""), None);
    assert_eq!(parse_temperature_text("21"), None);
    assert_eq!(parse_temperature_text("\u{b0}C"), None);
    assert_eq!(parse_temperature_text("21C"), None);
    assert_eq!(parse_temperature_text("2a\u{b0}C"), None);
    assert_eq!(parse_temperature_text("21\u{b0}F"), None);
}
