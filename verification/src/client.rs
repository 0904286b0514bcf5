//! The provider-facing request and failure model.
//!
//! The network transport itself lives outside the library; what stands here
//! is everything about a fetch that is pure computation: the forecast URL for
//! a coordinate pair, the identifying client header the provider demands, the
//! classification of a status code, and the failure taxonomy with its
//! user-visible messages.

use crate::coords::{spec_coord_text, coordinate_text, Coordinates};
use crate::numeric::{spec_u64_dec, u64_to_dec};
use vstd::prelude::*;
use vstd::string::*;

verus! {

/// Why a fetch attempt failed. Normalization emptiness is separate (see
/// `NormalizeError`); configuration problems never reach a fetch at all.
#[derive(Clone, Debug, PartialEq, Eq)]
pub enum FetchError {
    /// The transport failed (timeout, resolution, connection); the text is
    /// the transport's own message.
    Network(String),
    /// The provider answered with a status outside the success range.
    HttpStatus(u16),
    /// The body could not be decoded as the provider's schema; the text is
    /// the decoder's own message.
    Decode(String),
}

/// The forecast endpoint URL for a coordinate pair, with the coordinates in
/// decimal degrees.
pub open spec fn spec_forecast_url(c: Coordinates) -> Seq<char> {
    "https://api.met.no/weatherapi/locationforecast/2.0/compact?lat="@ + spec_coord_text(
        c.latitude_micro as int,
    ) + "&lon="@ + spec_coord_text(c.longitude_micro as int)
}

/// Builds the forecast endpoint URL for a coordinate pair.
pub fn build_forecast_url(c: &Coordinates) -> (s: String)
    requires
        c.latitude_micro > i64::MIN,
        c.longitude_micro > i64::MIN,
    ensures
        s@ == spec_forecast_url(*c),
{
    let mut s = String::from_str(
        "https://api.met.no/weatherapi/locationforecast/2.0/compact?lat=",
    );
    let lat = coordinate_text(c.latitude_micro);
    s.append(lat.as_str());
    s.append("&lon=");
    let lon = coordinate_text(c.longitude_micro);
    s.append(lon.as_str());
    s
}

/// The identifying client header value the provider requires of every
/// request: rejecting unidentified clients is the provider's stated policy.
pub fn user_agent() -> (s: String)
    ensures
        s@ == "cosmic-weather/1.0.0"@,
{
    String::from_str("cosmic-weather/1.0.0")
}

/// A status code counts as success exactly when it lies in the 2xx range.
pub open spec fn spec_is_success_status(code: u16) -> bool {
    200 <= code < 300
}

/// Classifies an HTTP status code.
pub fn is_success_status(code: u16) -> (r: bool)
    ensures
        r == spec_is_success_status(code),
{
    200 <= code && code < 300
}

/// The user-visible message of a fetch failure: transport and decoder
/// failures speak in their own words, a status failure names the code.
pub open spec fn spec_fetch_error_message(e: FetchError) -> Seq<char> {
    match e {
        FetchError::Network(msg) => msg@,
        FetchError::HttpStatus(code) => "API request failed with status: "@ + spec_u64_dec(
            code as nat,
        ),
        FetchError::Decode(msg) => msg@,
    }
}

impl FetchError {
    /// Renders the failure for the last-error display.
    pub fn message(&self) -> (s: String)
        ensures
            s@ == spec_fetch_error_message(*self),
    {
        match self {
            FetchError::Network(msg) => msg.clone(),
            FetchError::HttpStatus(code) => {
                let mut s = String::from_str("API request failed with status: ");
                let num = u64_to_dec(*code as u64);
                s.append(num.as_str());
                s
            },
            FetchError::Decode(msg) => msg.clone(),
        }
    }
}

} // verus!
