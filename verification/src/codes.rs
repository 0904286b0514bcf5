//! Condition-code mapping tables.
//!
//! The provider reports weather conditions as symbol codes such as
//! `"clearsky_day"`. Two independent tables translate a code into a
//! human-readable description and into a normalized icon category. Codes the
//! tables do not know degrade to the documented defaults (`"Unknown"`
//! description, clear-sky icon) instead of failing the whole fetch.

use vstd::prelude::*;
use vstd::string::*;

verus! {

/// Compares two string slices character by character.
fn str_eq(a: &str, b: &str) -> (r: bool)
    ensures
        r == (a@ == b@),
{
    let n = a.unicode_len();
    if n != b.unicode_len() {
        return false;
    }
    let mut i: usize = 0;
    while i < n
        invariant
            n == a@.len(),
            n == b@.len(),
            0 <= i <= n,
            forall|j: int| 0 <= j < i ==> a@[j] == b@[j],
        decreases n - i,
    {
        if a.get_char(i) != b.get_char(i) {
            return false;
        }
        i += 1;
    }
    proof {
        assert(a@ =~= b@);
    }
    true
}

/// The normalized description for a provider symbol code; `"Unknown"` for a
/// code outside the table.
pub open spec fn spec_description_of(code: Seq<char>) -> Seq<char> {
    if code == "clearsky_day"@ || code == "clearsky_night"@ || code == "clearsky_polartwilight"@ {
        "Clear sky"@
    } else if code == "fair_day"@ || code == "fair_night"@ || code == "fair_polartwilight"@ {
        "Fair"@
    } else if code == "cloudy"@ || code == "partlycloudy_day"@ || code == "partlycloudy_night"@
        || code == "partlycloudy_polartwilight"@ {
        "Cloudy"@
    } else if code == "fog"@ {
        "Fog"@
    } else if code == "lightrain"@ || code == "rainshowers_day"@ || code == "rainshowers_night"@
        || code == "rainshowers_polartwilight"@ {
        "Light rain"@
    } else if code == "rain"@ || code == "heavyrain"@ {
        "Rain"@
    } else if code == "lightrainshowers_day"@ || code == "lightrainshowers_night"@
        || code == "lightrainshowers_polartwilight"@ {
        "Light rain showers"@
    } else if code == "lightsnow"@ {
        "Light snow"@
    } else if code == "sleet"@ {
        "Sleet"@
    } else if code == "lightsleet"@ {
        "Light sleet"@
    } else if code == "thunderstorm"@ {
        "Thunderstorm"@
    } else if code == "sleetshowers_day"@ || code == "sleetshowers_night"@
        || code == "sleetshowers_polartwilight"@ {
        "Sleet showers"@
    } else if code == "snowshowers_day"@ || code == "snowshowers_night"@
        || code == "snowshowers_polartwilight"@ {
        "Snow showers"@
    } else if code == "snow"@ || code == "heavysnow"@ {
        "Snow"@
    } else {
        "Unknown"@
    }
}

/// The normalized icon category for a provider symbol code; the clear-sky
/// icon `"01d"` for a code outside the table.
pub open spec fn spec_icon_of(code: Seq<char>) -> Seq<char> {
    if code == "clearsky_day"@ {
        "01d"@
    } else if code == "clearsky_night"@ {
        "01n"@
    } else if code == "fair_day"@ || code == "partlycloudy_day"@ {
        "02d"@
    } else if code == "fair_night"@ || code == "partlycloudy_night"@ {
        "02n"@
    } else if code == "cloudy"@ {
        "03d"@
    } else if code == "rain"@ || code == "lightrain"@ || code == "rainshowers_day"@
        || code == "rainshowers_night"@ || code == "rainshowers_polartwilight"@ {
        "10d"@
    } else if code == "snow"@ || code == "heavysnow"@ || code == "snowshowers_day"@
        || code == "snowshowers_night"@ || code == "snowshowers_polartwilight"@ {
        "13d"@
    } else if code == "fog"@ {
        "50d"@
    } else if code == "thunderstorm"@ {
        "11d"@
    } else if code == "sleet"@ || code == "lightsleet"@ {
        "09d"@
    } else {
        "01d"@
    }
}

/// Maps a provider symbol code to its normalized description.
pub fn map_weather_code_to_description(code: &str) -> (r: String)
    ensures
        r@ == spec_description_of(code@),
{
    if str_eq(code, "clearsky_day") || str_eq(code, "clearsky_night")
        || str_eq(code, "clearsky_polartwilight") {
        String::from_str("Clear sky")
    } else if str_eq(code, "fair_day") || str_eq(code, "fair_night")
        || str_eq(code, "fair_polartwilight") {
        String::from_str("Fair")
    } else if str_eq(code, "cloudy") || str_eq(code, "partlycloudy_day")
        || str_eq(code, "partlycloudy_night") || str_eq(code, "partlycloudy_polartwilight") {
        String::from_str("Cloudy")
    } else if str_eq(code, "fog") {
        String::from_str("Fog")
    } else if str_eq(code, "lightrain") || str_eq(code, "rainshowers_day")
        || str_eq(code, "rainshowers_night") || str_eq(code, "rainshowers_polartwilight") {
        String::from_str("Light rain")
    } else if str_eq(code, "rain") || str_eq(code, "heavyrain") {
        String::from_str("Rain")
    } else if str_eq(code, "lightrainshowers_day") || str_eq(code, "lightrainshowers_night")
        || str_eq(code, "lightrainshowers_polartwilight") {
        String::from_str("Light rain showers")
    } else if str_eq(code, "lightsnow") {
        String::from_str("Light snow")
    } else if str_eq(code, "sleet") {
        String::from_str("Sleet")
    } else if str_eq(code, "lightsleet") {
        String::from_str("Light sleet")
    } else if str_eq(code, "thunderstorm") {
        String::from_str("Thunderstorm")
    } else if str_eq(code, "sleetshowers_day") || str_eq(code, "sleetshowers_night")
        || str_eq(code, "sleetshowers_polartwilight") {
        String::from_str("Sleet showers")
    } else if str_eq(code, "snowshowers_day") || str_eq(code, "snowshowers_night")
        || str_eq(code, "snowshowers_polartwilight") {
        String::from_str("Snow showers")
    } else if str_eq(code, "snow") || str_eq(code, "heavysnow") {
        String::from_str("Snow")
    } else {
        String::from_str("Unknown")
    }
}

/// Maps a provider symbol code to its normalized icon category.
pub fn map_weather_code_to_icon(code: &str) -> (r: String)
    ensures
        r@ == spec_icon_of(code@),
{
    if str_eq(code, "clearsky_day") {
        String::from_str("01d")
    } else if str_eq(code, "clearsky_night") {
        String::from_str("01n")
    } else if str_eq(code, "fair_day") || str_eq(code, "partlycloudy_day") {
        String::from_str("02d")
    } else if str_eq(code, "fair_night") || str_eq(code, "partlycloudy_night") {
        String::from_str("02n")
    } else if str_eq(code, "cloudy") {
        String::from_str("03d")
    } else if str_eq(code, "rain") || str_eq(code, "lightrain") || str_eq(code, "rainshowers_day")
        || str_eq(code, "rainshowers_night") || str_eq(code, "rainshowers_polartwilight") {
        String::from_str("10d")
    } else if str_eq(code, "snow") || str_eq(code, "heavysnow") || str_eq(code, "snowshowers_day")
        || str_eq(code, "snowshowers_night") || str_eq(code, "snowshowers_polartwilight") {
        String::from_str("13d")
    } else if str_eq(code, "fog") {
        String::from_str("50d")
    } else if str_eq(code, "thunderstorm") {
        String::from_str("11d")
    } else if str_eq(code, "sleet") || str_eq(code, "lightsleet") {
        String::from_str("09d")
    } else {
        String::from_str("01d")
    }
}

/// The panel's symbolic icon name for a normalized icon category; categories
/// outside the table fall back to the alert icon.
pub open spec fn spec_symbolic_icon_of(icon: Seq<char>) -> Seq<char> {
    if icon == "01d"@ || icon == "01n"@ {
        "weather-clear-symbolic"@
    } else if icon == "02d"@ || icon == "02n"@ {
        "weather-few-clouds-symbolic"@
    } else if icon == "03d"@ || icon == "03n"@ {
        "weather-clouds-symbolic"@
    } else if icon == "04d"@ || icon == "04n"@ {
        "weather-overcast-symbolic"@
    } else if icon == "09d"@ || icon == "09n"@ || icon == "10d"@ || icon == "10n"@ {
        "weather-showers-symbolic"@
    } else if icon == "11d"@ || icon == "11n"@ {
        "weather-storm-symbolic"@
    } else if icon == "13d"@ || icon == "13n"@ {
        "weather-snow-symbolic"@
    } else if icon == "50d"@ || icon == "50n"@ {
        "weather-fog-symbolic"@
    } else {
        "weather-severe-alert-symbolic"@
    }
}

/// Maps a normalized icon category to the panel's symbolic icon name.
pub fn symbolic_icon_name(icon: &str) -> (r: String)
    ensures
        r@ == spec_symbolic_icon_of(icon@),
{
    if str_eq(icon, "01d") || str_eq(icon, "01n") {
        String::from_str("weather-clear-symbolic")
    } else if str_eq(icon, "02d") || str_eq(icon, "02n") {
        String::from_str("weather-few-clouds-symbolic")
    } else if str_eq(icon, "03d") || str_eq(icon, "03n") {
        String::from_str("weather-clouds-symbolic")
    } else if str_eq(icon, "04d") || str_eq(icon, "04n") {
        String::from_str("weather-overcast-symbolic")
    } else if str_eq(icon, "09d") || str_eq(icon, "09n") || str_eq(icon, "10d")
        || str_eq(icon, "10n") {
        String::from_str("weather-showers-symbolic")
    } else if str_eq(icon, "11d") || str_eq(icon, "11n") {
        String::from_str("weather-storm-symbolic")
    } else if str_eq(icon, "13d") || str_eq(icon, "13n") {
        String::from_str("weather-snow-symbolic")
    } else if str_eq(icon, "50d") || str_eq(icon, "50n") {
        String::from_str("weather-fog-symbolic")
    } else {
        String::from_str("weather-severe-alert-symbolic")
    }
}

} // verus!
