//! Current weather conditions from the Open-Meteo forecast API.

use vstd::prelude::*;

use crate::coordinate::Coordinate;
use crate::error::{ErrorKind, WeatherError};
use crate::json::{
    Json, JsonV, field, field_of, get_in, member, members_view, outcome_view, str_eq, str_member_or,
    str_or, string,
};
use crate::operations::{
    api_error_detail, check_api_error, coordinates_outcome, is_temperature_unit, is_wind_speed_unit,
    temperature_unit_detail, validate_coordinates, validate_temperature_unit, validate_wind_speed_unit,
    wind_speed_unit_detail,
};
use crate::text::push_str;

verus! {

/// The description of a WMO weather interpretation code.
pub open spec fn wmo_text(code: u32) -> Seq<char> {
    match code {
        0 => "Clear sky"@,
        1 => "Mainly clear"@,
        2 => "Partly cloudy"@,
        3 => "Overcast"@,
        45 => "Foggy"@,
        48 => "Depositing rime fog"@,
        51 => "Light drizzle"@,
        53 => "Moderate drizzle"@,
        55 => "Dense drizzle"@,
        56 => "Light freezing drizzle"@,
        57 => "Heavy freezing drizzle"@,
        61 => "Slight rain"@,
        63 => "Moderate rain"@,
        65 => "Heavy rain"@,
        66 => "Light freezing rain"@,
        67 => "Heavy freezing rain"@,
        71 => "Slight snowfall"@,
        73 => "Moderate snowfall"@,
        75 => "Heavy snowfall"@,
        77 => "Snow grains"@,
        80 => "Slight rain showers"@,
        81 => "Moderate rain showers"@,
        82 => "Violent rain showers"@,
        85 => "Slight snow showers"@,
        86 => "Heavy snow showers"@,
        95 => "Thunderstorm"@,
        96 => "Thunderstorm with slight hail"@,
        99 => "Thunderstorm with heavy hail"@,
        _ => "Unknown"@,
    }
}

/// Map WMO weather interpretation code to a human-readable description.
pub fn wmo_code_description(code: u32) -> (r: &'static str)
    ensures
        r@ == wmo_text(code),
{
    match code {
        0 => "Clear sky",
        1 => "Mainly clear",
        2 => "Partly cloudy",
        3 => "Overcast",
        45 => "Foggy",
        48 => "Depositing rime fog",
        51 => "Light drizzle",
        53 => "Moderate drizzle",
        55 => "Dense drizzle",
        56 => "Light freezing drizzle",
        57 => "Heavy freezing drizzle",
        61 => "Slight rain",
        63 => "Moderate rain",
        65 => "Heavy rain",
        66 => "Light freezing rain",
        67 => "Heavy freezing rain",
        71 => "Slight snowfall",
        73 => "Moderate snowfall",
        75 => "Heavy snowfall",
        77 => "Snow grains",
        80 => "Slight rain showers",
        81 => "Moderate rain showers",
        82 => "Violent rain showers",
        85 => "Slight snow showers",
        86 => "Heavy snow showers",
        95 => "Thunderstorm",
        96 => "Thunderstorm with slight hail",
        99 => "Thunderstorm with heavy hail",
        _ => "Unknown",
    }
}

/// The code a weather-code value stands for: the number when it is a
/// non-negative integer (cut to 32 bits), else 0.
pub open spec fn code_of(v: Option<JsonV>) -> u32 {
    match v {
        Some(j) => match j.as_u64() {
            Some(n) => n as u32,
            None => 0,
        },
        None => 0,
    }
}

/// The weather variables asked of the API for current conditions.
pub const CURRENT_VARIABLES: &'static str = "temperature_2m,relative_humidity_2m,apparent_temperature,is_day,precipitation,rain,showers,snowfall,weather_code,cloud_cover,pressure_msl,surface_pressure,wind_speed_10m,wind_direction_10m,wind_gusts_10m";

/// The URL of a current-conditions request.
pub open spec fn current_url(
    base_url: Seq<char>,
    latitude: Seq<char>,
    longitude: Seq<char>,
    temperature_unit: Seq<char>,
    wind_speed_unit: Seq<char>,
) -> Seq<char> {
    base_url + "/v1/forecast?latitude="@ + latitude + "&longitude="@ + longitude + "&current="@
        + CURRENT_VARIABLES@ + "&temperature_unit="@ + temperature_unit + "&wind_speed_unit="@
        + wind_speed_unit + "&timezone=auto"@
}

/// A unit as given, or its default when none is.
pub open spec fn unit_or(unit: Option<&str>, default: Seq<char>) -> Seq<char> {
    match unit {
        Some(u) => u@,
        None => default,
    }
}

/// Why a request with these parameters is refused before it is made, if it is:
/// the coordinates are checked first, then the temperature unit, then the
/// wind-speed unit.
pub open spec fn parameters_outcome(
    latitude: Coordinate,
    longitude: Coordinate,
    temperature_unit: Seq<char>,
    wind_speed_unit: Seq<char>,
) -> Option<(ErrorKind, Seq<char>)> {
    if coordinates_outcome(latitude, longitude) is Some {
        coordinates_outcome(latitude, longitude)
    } else if !is_temperature_unit(temperature_unit) {
        Some((ErrorKind::InvalidParameters, temperature_unit_detail(temperature_unit)))
    } else if !is_wind_speed_unit(wind_speed_unit) {
        Some((ErrorKind::InvalidParameters, wind_speed_unit_detail(wind_speed_unit)))
    } else {
        None
    }
}

/// A current-conditions request ready to be sent.
#[derive(Debug)]
pub struct CurrentRequest {
    pub url: String,
    pub temperature_unit: String,
    pub wind_speed_unit: String,
}

/// The checked request for the current weather at the given coordinates.
///
/// The units default to `celsius` and `kmh`.
pub fn current_request(
    base_url: &str,
    latitude: &Coordinate,
    longitude: &Coordinate,
    temperature_unit: Option<&str>,
    wind_speed_unit: Option<&str>,
) -> (r: Result<CurrentRequest, WeatherError>)
    ensures
        ({
            let t = unit_or(temperature_unit, "celsius"@);
            let w = unit_or(wind_speed_unit, "kmh"@);
            match r {
                Ok(req) => {
                    &&& parameters_outcome(*latitude, *longitude, t, w) is None
                    &&& req.url@ == current_url(base_url@, latitude.text@, longitude.text@, t, w)
                    &&& req.temperature_unit@ == t
                    &&& req.wind_speed_unit@ == w
                },
                Err(e) => parameters_outcome(*latitude, *longitude, t, w) == Some(e@),
            }
        }),
{
    validate_coordinates(latitude, longitude)?;
    let temp_unit = match temperature_unit {
        Some(u) => u,
        None => "celsius",
    };
    let wind_unit = match wind_speed_unit {
        Some(u) => u,
        None => "kmh",
    };
    validate_temperature_unit(temp_unit)?;
    validate_wind_speed_unit(wind_unit)?;
    let mut url = base_url.to_owned();
    push_str(&mut url, "/v1/forecast?latitude=");
    push_str(&mut url, latitude.text.as_str());
    push_str(&mut url, "&longitude=");
    push_str(&mut url, longitude.text.as_str());
    push_str(&mut url, "&current=");
    push_str(&mut url, CURRENT_VARIABLES);
    push_str(&mut url, "&temperature_unit=");
    push_str(&mut url, temp_unit);
    push_str(&mut url, "&wind_speed_unit=");
    push_str(&mut url, wind_unit);
    push_str(&mut url, "&timezone=auto");
    Ok(CurrentRequest { url, temperature_unit: temp_unit.to_owned(), wind_speed_unit: wind_unit.to_owned() })
}

/// The label of a temperature unit.
pub open spec fn temperature_label(unit: Seq<char>) -> Seq<char> {
    if unit == "fahrenheit"@ {
        "°F"@
    } else {
        "°C"@
    }
}

/// The label of a temperature unit.
pub fn temperature_unit_label(unit: &str) -> (r: &'static str)
    ensures
        r@ == temperature_label(unit@),
{
    if str_eq(unit, "fahrenheit") {
        "°F"
    } else {
        "°C"
    }
}

/// What `true`-ness a numeric `is_day` flag has: 1 is day, another
/// non-negative integer is night, anything else is unknown.
pub open spec fn day_flag(v: Option<JsonV>) -> JsonV {
    match v {
        Some(j) => match j.as_u64() {
            Some(n) => JsonV::Bool(n == 1),
            None => JsonV::Null,
        },
        None => JsonV::Null,
    }
}

/// The report of current conditions built from an upstream answer `resp`
/// whose `current` member is `current`.
pub open spec fn current_report(resp: JsonV, current: JsonV, temperature_unit: Seq<char>, wind_speed_unit: Seq<char>) -> JsonV {
    let units = resp.get("current_units"@);
    JsonV::Object(
        seq![
            ("apparent_temperature"@, field(current, "apparent_temperature"@)),
            ("cloud_cover_pct"@, field(current, "cloud_cover"@)),
            ("elevation_m"@, field(resp, "elevation"@)),
            ("is_day"@, day_flag(current.get("is_day"@))),
            ("latitude"@, field(resp, "latitude"@)),
            ("longitude"@, field(resp, "longitude"@)),
            ("precipitation"@, field(current, "precipitation"@)),
            ("pressure_msl_hpa"@, field(current, "pressure_msl"@)),
            ("rain"@, field(current, "rain"@)),
            ("relative_humidity_pct"@, field(current, "relative_humidity_2m"@)),
            ("showers"@, field(current, "showers"@)),
            ("snowfall"@, field(current, "snowfall"@)),
            ("surface_pressure_hpa"@, field(current, "surface_pressure"@)),
            ("temperature"@, field(current, "temperature_2m"@)),
            ("time"@, field(current, "time"@)),
            ("timezone"@, field(resp, "timezone"@)),
            ("timezone_abbreviation"@, field(resp, "timezone_abbreviation"@)),
            ("units"@, JsonV::Object(seq![
                ("precipitation"@, JsonV::Str(str_or(get_in(units, "precipitation"@), "mm"@))),
                ("temperature"@, JsonV::Str(str_or(get_in(units, "temperature_2m"@), temperature_label(temperature_unit)))),
                ("wind_speed"@, JsonV::Str(str_or(get_in(units, "wind_speed_10m"@), wind_speed_unit))),
            ])),
            ("weather_code"@, field(current, "weather_code"@)),
            ("weather_description"@, JsonV::Str(wmo_text(code_of(current.get("weather_code"@))))),
            ("wind_direction_deg"@, field(current, "wind_direction_10m"@)),
            ("wind_gusts"@, field(current, "wind_gusts_10m"@)),
            ("wind_speed"@, field(current, "wind_speed_10m"@)),
        ],
    )
}

/// What an upstream answer to a current-conditions request comes to: the
/// API's own error when it signals one, an error when it carries no current
/// data, else the report.
pub open spec fn current_outcome(resp: JsonV, temperature_unit: Seq<char>, wind_speed_unit: Seq<char>) -> Result<JsonV, (ErrorKind, Seq<char>)> {
    match api_error_detail(resp) {
        Some(d) => Err((ErrorKind::ApiError, d)),
        None => match resp.get("current"@) {
            None => Err((ErrorKind::ForecastUnavailable, "No current data in response"@)),
            Some(current) => Ok(current_report(resp, current, temperature_unit, wind_speed_unit)),
        },
    }
}

/// Shape the upstream answer to a current-conditions request into the report.
pub fn current_from_response(resp: &Json, temperature_unit: &str, wind_speed_unit: &str) -> (r: Result<Json, WeatherError>)
    ensures
        outcome_view(r) == current_outcome(resp@, temperature_unit@, wind_speed_unit@),
{
    check_api_error(resp)?;
    let current = match resp.get("current") {
        Some(c) => c,
        None => {
            return Err(WeatherError::ForecastUnavailable("No current data in response".to_owned()));
        },
    };
    let units = resp.get("current_units");
    let code = match current.get("weather_code") {
        Some(j) => match j.as_u64() {
            Some(n) => n as u32,
            None => 0,
        },
        None => 0,
    };
    let is_day = match current.get("is_day") {
        Some(j) => match j.as_u64() {
            Some(n) => Json::Bool(n == 1),
            None => Json::Null,
        },
        None => Json::Null,
    };
    let unit_members = vec![
        member("precipitation", string(str_member_or(units, "precipitation", "mm"))),
        member("temperature", string(str_member_or(units, "temperature_2m", temperature_unit_label(temperature_unit)))),
        member("wind_speed", string(str_member_or(units, "wind_speed_10m", wind_speed_unit))),
    ];
    let ghost units_v = resp@.get("current_units"@);
    assert(members_view(unit_members) =~= seq![
        ("precipitation"@, JsonV::Str(str_or(get_in(units_v, "precipitation"@), "mm"@))),
        ("temperature"@, JsonV::Str(str_or(get_in(units_v, "temperature_2m"@), temperature_label(temperature_unit@)))),
        ("wind_speed"@, JsonV::Str(str_or(get_in(units_v, "wind_speed_10m"@), wind_speed_unit@))),
    ]);
    let members = vec![
        member("apparent_temperature", field_of(current, "apparent_temperature")),
        member("cloud_cover_pct", field_of(current, "cloud_cover")),
        member("elevation_m", field_of(resp, "elevation")),
        member("is_day", is_day),
        member("latitude", field_of(resp, "latitude")),
        member("longitude", field_of(resp, "longitude")),
        member("precipitation", field_of(current, "precipitation")),
        member("pressure_msl_hpa", field_of(current, "pressure_msl")),
        member("rain", field_of(current, "rain")),
        member("relative_humidity_pct", field_of(current, "relative_humidity_2m")),
        member("showers", field_of(current, "showers")),
        member("snowfall", field_of(current, "snowfall")),
        member("surface_pressure_hpa", field_of(current, "surface_pressure")),
        member("temperature", field_of(current, "temperature_2m")),
        member("time", field_of(current, "time")),
        member("timezone", field_of(resp, "timezone")),
        member("timezone_abbreviation", field_of(resp, "timezone_abbreviation")),
        member("units", Json::Object(unit_members)),
        member("weather_code", field_of(current, "weather_code")),
        member("weather_description", string(wmo_code_description(code))),
        member("wind_direction_deg", field_of(current, "wind_direction_10m")),
        member("wind_gusts", field_of(current, "wind_gusts_10m")),
        member("wind_speed", field_of(current, "wind_speed_10m")),
    ];
    let out = Json::Object(members);
    assert(members_view(members) =~= match current_report(resp@, current@, temperature_unit@, wind_speed_unit@) {
        JsonV::Object(m) => m,
        _ => Seq::empty(),
    });
    Ok(out)
}

} // verus!
