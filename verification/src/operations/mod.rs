//! The weather operations, and the checks they share.

pub mod alerts;
pub mod current;
pub mod forecast;
pub mod geocode;

use vstd::prelude::*;

use crate::coordinate::Coordinate;
use crate::error::{ErrorKind, WeatherError};
use crate::json::{str_eq, Json, JsonV, str_or, str_member_or};
use crate::text::push_str;

verus! {

/// The detail of the error for an out-of-range latitude.
pub open spec fn latitude_detail(text: Seq<char>) -> Seq<char> {
    "Latitude "@ + text + " is out of range [-90, 90]"@
}

/// The detail of the error for an out-of-range longitude.
pub open spec fn longitude_detail(text: Seq<char>) -> Seq<char> {
    "Longitude "@ + text + " is out of range [-180, 180]"@
}

/// What validating a pair of coordinates gives: nothing when both are in
/// range, else the error for the first one that is not.
pub open spec fn coordinates_outcome(latitude: Coordinate, longitude: Coordinate) -> Option<(ErrorKind, Seq<char>)> {
    if !latitude.is_latitude() {
        Some((ErrorKind::InvalidCoordinates, latitude_detail(latitude.text@)))
    } else if !longitude.is_longitude() {
        Some((ErrorKind::InvalidCoordinates, longitude_detail(longitude.text@)))
    } else {
        None
    }
}

/// Validate that latitude is in [-90, 90] and longitude is in [-180, 180].
pub fn validate_coordinates(latitude: &Coordinate, longitude: &Coordinate) -> (r: Result<(), WeatherError>)
    ensures
        r is Ok <==> coordinates_outcome(*latitude, *longitude) is None,
        r matches Err(e) ==> Some(e@) == coordinates_outcome(*latitude, *longitude),
{
    if !crate::coordinate::magnitude_within(latitude.bits, 90) {
        let mut d = "Latitude ".to_owned();
        push_str(&mut d, latitude.text.as_str());
        push_str(&mut d, " is out of range [-90, 90]");
        return Err(WeatherError::InvalidCoordinates(d));
    }
    if !crate::coordinate::magnitude_within(longitude.bits, 180) {
        let mut d = "Longitude ".to_owned();
        push_str(&mut d, longitude.text.as_str());
        push_str(&mut d, " is out of range [-180, 180]");
        return Err(WeatherError::InvalidCoordinates(d));
    }
    Ok(())
}

/// The temperature units the forecast API understands.
pub open spec fn is_temperature_unit(unit: Seq<char>) -> bool {
    unit == "celsius"@ || unit == "fahrenheit"@
}

/// The wind-speed units the forecast API understands.
pub open spec fn is_wind_speed_unit(unit: Seq<char>) -> bool {
    unit == "kmh"@ || unit == "ms"@ || unit == "mph"@ || unit == "kn"@
}

/// The detail of the error for an unsupported temperature unit.
pub open spec fn temperature_unit_detail(unit: Seq<char>) -> Seq<char> {
    "Invalid temperature_unit '"@ + unit + "'. Use 'celsius' or 'fahrenheit'."@
}

/// The detail of the error for an unsupported wind-speed unit.
pub open spec fn wind_speed_unit_detail(unit: Seq<char>) -> Seq<char> {
    "Invalid wind_speed_unit '"@ + unit + "'. Use 'kmh', 'ms', 'mph', or 'kn'."@
}

/// Validate that the temperature unit is one of the supported values.
pub fn validate_temperature_unit(unit: &str) -> (r: Result<(), WeatherError>)
    ensures
        r is Ok <==> is_temperature_unit(unit@),
        r matches Err(e) ==> e@ == (ErrorKind::InvalidParameters, temperature_unit_detail(unit@)),
{
    if str_eq(unit, "celsius") || str_eq(unit, "fahrenheit") {
        Ok(())
    } else {
        let mut d = "Invalid temperature_unit '".to_owned();
        push_str(&mut d, unit);
        push_str(&mut d, "'. Use 'celsius' or 'fahrenheit'.");
        Err(WeatherError::InvalidParameters(d))
    }
}

/// Validate that the wind speed unit is one of the supported values.
pub fn validate_wind_speed_unit(unit: &str) -> (r: Result<(), WeatherError>)
    ensures
        r is Ok <==> is_wind_speed_unit(unit@),
        r matches Err(e) ==> e@ == (ErrorKind::InvalidParameters, wind_speed_unit_detail(unit@)),
{
    if str_eq(unit, "kmh") || str_eq(unit, "ms") || str_eq(unit, "mph") || str_eq(unit, "kn") {
        Ok(())
    } else {
        let mut d = "Invalid wind_speed_unit '".to_owned();
        push_str(&mut d, unit);
        push_str(&mut d, "'. Use 'kmh', 'ms', 'mph', or 'kn'.");
        Err(WeatherError::InvalidParameters(d))
    }
}

/// The detail of the error an upstream answer signals with an `error` member:
/// the member's flag (`true` unless it is the boolean `false`), then the
/// answer's `reason` text (or `unknown error`).
pub open spec fn api_error_detail(resp: JsonV) -> Option<Seq<char>> {
    match resp.get("error"@) {
        Some(err) => Some(
            (if err.as_bool() == Some(false) { "false"@ } else { "true"@ }) + ": "@ + str_or(
                resp.get("reason"@),
                "unknown error"@,
            ),
        ),
        None => None,
    }
}

/// Fail with an API error when the upstream answer signals one.
pub fn check_api_error(resp: &Json) -> (r: Result<(), WeatherError>)
    ensures
        r is Ok <==> api_error_detail(resp@) is None,
        r matches Err(e) ==> Some(e@.1) == api_error_detail(resp@) && e@.0 == ErrorKind::ApiError,
{
    match resp.get("error") {
        Some(err) => {
            let reason = str_member_or(Some(resp), "reason", "unknown error");
            let flag = match err.as_bool() {
                Some(false) => "false",
                _ => "true",
            };
            let mut d = flag.to_owned();
            push_str(&mut d, ": ");
            push_str(&mut d, reason);
            Err(WeatherError::ApiError(d))
        },
        None => Ok(()),
    }
}

} // verus!
