//! Daily and hourly forecasts from the Open-Meteo forecast API.

use vstd::prelude::*;

use crate::coordinate::Coordinate;
use crate::error::{ErrorKind, WeatherError};
use crate::json::{
    Json, JsonV, array_member, array_or_empty, element_or_null, element_or_null_of, elements_view,
    elements_view_slice, field, field_of, member, members_view, outcome_view, string,
};
use crate::operations::current::{
    code_of, parameters_outcome, temperature_label, temperature_unit_label, unit_or, wmo_code_description, wmo_text,
};
use crate::operations::{api_error_detail, check_api_error, validate_coordinates, validate_temperature_unit, validate_wind_speed_unit};
use crate::text::{decimal, push_decimal, push_str};

verus! {

/// Forecast resolution type
#[derive(Debug, Clone, Copy, PartialEq, Eq, Structural)]
pub enum ForecastType {
    Daily,
    Hourly,
}

/// The daily weather variables asked of the API.
pub const DAILY_VARIABLES: &'static str = "weather_code,temperature_2m_max,temperature_2m_min,apparent_temperature_max,apparent_temperature_min,sunrise,sunset,daylight_duration,sunshine_duration,precipitation_sum,rain_sum,snowfall_sum,precipitation_hours,precipitation_probability_max,wind_speed_10m_max,wind_gusts_10m_max,wind_direction_10m_dominant";

/// The hourly weather variables asked of the API.
pub const HOURLY_VARIABLES: &'static str = "temperature_2m,relative_humidity_2m,apparent_temperature,precipitation_probability,precipitation,rain,showers,snowfall,weather_code,cloud_cover,visibility,wind_speed_10m,wind_direction_10m,wind_gusts_10m";

/// The number of forecast days asked for: the requested number, clamped to 1..=16.
pub open spec fn clamp_days(days: u32) -> u32 {
    if days < 1 {
        1
    } else if days > 16 {
        16
    } else {
        days
    }
}

/// The URL of a forecast request.
pub open spec fn forecast_url(
    base_url: Seq<char>,
    latitude: Seq<char>,
    longitude: Seq<char>,
    forecast_type: ForecastType,
    temperature_unit: Seq<char>,
    wind_speed_unit: Seq<char>,
    days: u32,
) -> Seq<char> {
    base_url + "/v1/forecast?latitude="@ + latitude + "&longitude="@ + longitude + match forecast_type {
        ForecastType::Daily => "&daily="@ + DAILY_VARIABLES@,
        ForecastType::Hourly => "&hourly="@ + HOURLY_VARIABLES@,
    } + "&temperature_unit="@ + temperature_unit + "&wind_speed_unit="@ + wind_speed_unit
        + "&timezone=auto&forecast_days="@ + decimal(days as nat)
}

/// A forecast request ready to be sent.
#[derive(Debug)]
pub struct ForecastRequest {
    pub url: String,
    pub forecast_type: ForecastType,
    pub temperature_unit: String,
    pub wind_speed_unit: String,
}

/// The checked request for a forecast at the given coordinates.
///
/// The units default to `celsius` and `kmh`; the number of days is clamped to 1..=16.
pub fn forecast_request(
    base_url: &str,
    latitude: &Coordinate,
    longitude: &Coordinate,
    forecast_type: ForecastType,
    days: u32,
    temperature_unit: Option<&str>,
    wind_speed_unit: Option<&str>,
) -> (r: Result<ForecastRequest, WeatherError>)
    ensures
        ({
            let t = unit_or(temperature_unit, "celsius"@);
            let w = unit_or(wind_speed_unit, "kmh"@);
            match r {
                Ok(req) => {
                    &&& parameters_outcome(*latitude, *longitude, t, w) is None
                    &&& req.url@ == forecast_url(
                        base_url@,
                        latitude.text@,
                        longitude.text@,
                        forecast_type,
                        t,
                        w,
                        clamp_days(days),
                    )
                    &&& req.forecast_type == forecast_type
                    &&& req.temperature_unit@ == t
                    &&& req.wind_speed_unit@ == w
                },
                Err(e) => parameters_outcome(*latitude, *longitude, t, w) == Some(e@),
            }
        }),
{
    validate_coordinates(latitude, longitude)?;
    let temp_unit = match temperature_unit {
        Some(u) => u,
        None => "celsius",
    };
    let wind_unit = match wind_speed_unit {
        Some(u) => u,
        None => "kmh",
    };
    validate_temperature_unit(temp_unit)?;
    validate_wind_speed_unit(wind_unit)?;
    let days = if days < 1 {
        1
    } else if days > 16 {
        16
    } else {
        days
    };
    let mut url = base_url.to_owned();
    push_str(&mut url, "/v1/forecast?latitude=");
    push_str(&mut url, latitude.text.as_str());
    push_str(&mut url, "&longitude=");
    push_str(&mut url, longitude.text.as_str());
    match forecast_type {
        ForecastType::Daily => {
            push_str(&mut url, "&daily=");
            push_str(&mut url, DAILY_VARIABLES);
        },
        ForecastType::Hourly => {
            push_str(&mut url, "&hourly=");
            push_str(&mut url, HOURLY_VARIABLES);
        },
    }
    push_str(&mut url, "&temperature_unit=");
    push_str(&mut url, temp_unit);
    push_str(&mut url, "&wind_speed_unit=");
    push_str(&mut url, wind_unit);
    push_str(&mut url, "&timezone=auto&forecast_days=");
    push_decimal(&mut url, days as u64);
    assert(url@ =~= forecast_url(
        base_url@,
        latitude.text@,
        longitude.text@,
        forecast_type,
        temp_unit@,
        wind_unit@,
        clamp_days(days),
    ));
    Ok(ForecastRequest {
        url,
        forecast_type,
        temperature_unit: temp_unit.to_owned(),
        wind_speed_unit: wind_unit.to_owned(),
    })
}

/// The code at `i` of a series of weather codes (0 past its end or when not a
/// non-negative integer).
pub open spec fn code_at(codes: Seq<JsonV>, i: int) -> u32 {
    code_of(if 0 <= i < codes.len() { Some(codes[i]) } else { None })
}

/// The array member `key` of the data block `block`, or no elements.
pub open spec fn series(block: JsonV, key: Seq<char>) -> Seq<JsonV> {
    array_or_empty(block.get(key))
}

/// The units block of a forecast.
pub open spec fn forecast_units(temperature_unit: Seq<char>, wind_speed_unit: Seq<char>) -> JsonV {
    JsonV::Object(
        seq![
            ("precipitation"@, JsonV::Str("mm"@)),
            ("temperature"@, JsonV::Str(temperature_label(temperature_unit))),
            ("wind_speed"@, JsonV::Str(wind_speed_unit)),
        ],
    )
}

/// The entry for day `i` of a `daily` data block.
pub open spec fn day_entry(daily: JsonV, i: int) -> JsonV {
    let code = code_at(series(daily, "weather_code"@), i);
    JsonV::Object(
        seq![
            ("date"@, element_or_null(series(daily, "time"@), i)),
            ("precipitation_probability_max_pct"@, element_or_null(series(daily, "precipitation_probability_max"@), i)),
            ("precipitation_sum"@, element_or_null(series(daily, "precipitation_sum"@), i)),
            ("sunrise"@, element_or_null(series(daily, "sunrise"@), i)),
            ("sunset"@, element_or_null(series(daily, "sunset"@), i)),
            ("temperature_max"@, element_or_null(series(daily, "temperature_2m_max"@), i)),
            ("temperature_min"@, element_or_null(series(daily, "temperature_2m_min"@), i)),
            ("weather_code"@, JsonV::PosInt(code as u64)),
            ("weather_description"@, JsonV::Str(wmo_text(code))),
            ("wind_speed_max"@, element_or_null(series(daily, "wind_speed_10m_max"@), i)),
        ],
    )
}

/// The daily forecast built from an upstream answer `resp` whose `daily`
/// member is `daily`: one entry per element of the `time` series.
pub open spec fn daily_report(resp: JsonV, daily: JsonV, temperature_unit: Seq<char>, wind_speed_unit: Seq<char>) -> JsonV {
    JsonV::Object(
        seq![
            ("days"@, JsonV::Array(Seq::new(series(daily, "time"@).len(), |i: int| day_entry(daily, i)))),
            ("elevation_m"@, field(resp, "elevation"@)),
            ("forecast_type"@, JsonV::Str("daily"@)),
            ("latitude"@, field(resp, "latitude"@)),
            ("longitude"@, field(resp, "longitude"@)),
            ("timezone"@, field(resp, "timezone"@)),
            ("timezone_abbreviation"@, field(resp, "timezone_abbreviation"@)),
            ("units"@, forecast_units(temperature_unit, wind_speed_unit)),
        ],
    )
}

/// The entry for hour `i` of an `hourly` data block.
pub open spec fn hour_entry(hourly: JsonV, i: int) -> JsonV {
    let code = code_at(series(hourly, "weather_code"@), i);
    JsonV::Object(
        seq![
            ("precipitation"@, element_or_null(series(hourly, "precipitation"@), i)),
            ("precipitation_probability_pct"@, element_or_null(series(hourly, "precipitation_probability"@), i)),
            ("relative_humidity_pct"@, element_or_null(series(hourly, "relative_humidity_2m"@), i)),
            ("temperature"@, element_or_null(series(hourly, "temperature_2m"@), i)),
            ("time"@, element_or_null(series(hourly, "time"@), i)),
            ("visibility_m"@, element_or_null(series(hourly, "visibility"@), i)),
            ("weather_code"@, JsonV::PosInt(code as u64)),
            ("weather_description"@, JsonV::Str(wmo_text(code))),
            ("wind_speed"@, element_or_null(series(hourly, "wind_speed_10m"@), i)),
        ],
    )
}

/// The hourly forecast built from an upstream answer `resp` whose `hourly`
/// member is `hourly`: one entry per element of the `time` series.
pub open spec fn hourly_report(resp: JsonV, hourly: JsonV, temperature_unit: Seq<char>, wind_speed_unit: Seq<char>) -> JsonV {
    JsonV::Object(
        seq![
            ("elevation_m"@, field(resp, "elevation"@)),
            ("forecast_type"@, JsonV::Str("hourly"@)),
            ("hours"@, JsonV::Array(Seq::new(series(hourly, "time"@).len(), |i: int| hour_entry(hourly, i)))),
            ("latitude"@, field(resp, "latitude"@)),
            ("longitude"@, field(resp, "longitude"@)),
            ("timezone"@, field(resp, "timezone"@)),
            ("timezone_abbreviation"@, field(resp, "timezone_abbreviation"@)),
            ("units"@, forecast_units(temperature_unit, wind_speed_unit)),
        ],
    )
}

/// What the daily builder makes of an upstream answer.
pub open spec fn daily_outcome(resp: JsonV, temperature_unit: Seq<char>, wind_speed_unit: Seq<char>) -> Result<JsonV, (ErrorKind, Seq<char>)> {
    match resp.get("daily"@) {
        None => Err((ErrorKind::ForecastUnavailable, "No daily data in response"@)),
        Some(daily) => Ok(daily_report(resp, daily, temperature_unit, wind_speed_unit)),
    }
}

/// What the hourly builder makes of an upstream answer.
pub open spec fn hourly_outcome(resp: JsonV, temperature_unit: Seq<char>, wind_speed_unit: Seq<char>) -> Result<JsonV, (ErrorKind, Seq<char>)> {
    match resp.get("hourly"@) {
        None => Err((ErrorKind::ForecastUnavailable, "No hourly data in response"@)),
        Some(hourly) => Ok(hourly_report(resp, hourly, temperature_unit, wind_speed_unit)),
    }
}

/// What an upstream answer to a forecast request comes to: the API's own
/// error when it signals one, else the report of the requested resolution.
pub open spec fn forecast_outcome(
    resp: JsonV,
    forecast_type: ForecastType,
    temperature_unit: Seq<char>,
    wind_speed_unit: Seq<char>,
) -> Result<JsonV, (ErrorKind, Seq<char>)> {
    match api_error_detail(resp) {
        Some(d) => Err((ErrorKind::ApiError, d)),
        None => match forecast_type {
            ForecastType::Daily => daily_outcome(resp, temperature_unit, wind_speed_unit),
            ForecastType::Hourly => hourly_outcome(resp, temperature_unit, wind_speed_unit),
        },
    }
}

/// The units block of a forecast.
fn units_block(temperature_unit: &str, wind_speed_unit: &str) -> (r: Json)
    ensures
        r@ == forecast_units(temperature_unit@, wind_speed_unit@),
{
    let m = vec![
        member("precipitation", string("mm")),
        member("temperature", string(temperature_unit_label(temperature_unit))),
        member("wind_speed", string(wind_speed_unit)),
    ];
    assert(members_view(m) =~= seq![
        ("precipitation"@, JsonV::Str("mm"@)),
        ("temperature"@, JsonV::Str(temperature_label(temperature_unit@))),
        ("wind_speed"@, JsonV::Str(wind_speed_unit@)),
    ]);
    Json::Object(m)
}

/// The code at `i` of a series of weather codes.
fn code_in(codes: &[Json], i: usize) -> (c: u32)
    ensures
        c == code_at(elements_view_slice(codes), i as int),
{
    if i < codes.len() {
        match codes[i].as_u64() {
            Some(n) => n as u32,
            None => 0,
        }
    } else {
        0
    }
}

/// Build the daily forecast reply from an upstream answer.
pub fn build_daily_response(resp: &Json, temp_unit: &str, wind_unit: &str) -> (r: Result<Json, WeatherError>)
    ensures
        outcome_view(r) == daily_outcome(resp@, temp_unit@, wind_unit@),
{
    let daily = match resp.get("daily") {
        Some(d) => d,
        None => {
            return Err(WeatherError::ForecastUnavailable("No daily data in response".to_owned()));
        },
    };
    let times = array_member(daily, "time");
    let codes = array_member(daily, "weather_code");
    let t_max = array_member(daily, "temperature_2m_max");
    let t_min = array_member(daily, "temperature_2m_min");
    let precip_sum = array_member(daily, "precipitation_sum");
    let precip_prob = array_member(daily, "precipitation_probability_max");
    let wind_max = array_member(daily, "wind_speed_10m_max");
    let sunrise = array_member(daily, "sunrise");
    let sunset = array_member(daily, "sunset");
    let ghost dv = daily@;
    let mut days: Vec<Json> = Vec::new();
    let mut i: usize = 0;
    while i < times.len()
        invariant
            i <= times.len(),
            days.len() == i,
            elements_view_slice(times) == series(dv, "time"@),
            elements_view_slice(codes) == series(dv, "weather_code"@),
            elements_view_slice(t_max) == series(dv, "temperature_2m_max"@),
            elements_view_slice(t_min) == series(dv, "temperature_2m_min"@),
            elements_view_slice(precip_sum) == series(dv, "precipitation_sum"@),
            elements_view_slice(precip_prob) == series(dv, "precipitation_probability_max"@),
            elements_view_slice(wind_max) == series(dv, "wind_speed_10m_max"@),
            elements_view_slice(sunrise) == series(dv, "sunrise"@),
            elements_view_slice(sunset) == series(dv, "sunset"@),
            forall|j: int| 0 <= j < i ==> (#[trigger] days[j])@ == day_entry(dv, j),
        decreases times.len() - i,
    {
        let code = code_in(codes, i);
        let m = vec![
            member("date", element_or_null_of(times, i)),
            member("precipitation_probability_max_pct", element_or_null_of(precip_prob, i)),
            member("precipitation_sum", element_or_null_of(precip_sum, i)),
            member("sunrise", element_or_null_of(sunrise, i)),
            member("sunset", element_or_null_of(sunset, i)),
            member("temperature_max", element_or_null_of(t_max, i)),
            member("temperature_min", element_or_null_of(t_min, i)),
            member("weather_code", Json::PosInt(code as u64)),
            member("weather_description", string(wmo_code_description(code))),
            member("wind_speed_max", element_or_null_of(wind_max, i)),
        ];
        assert(members_view(m) =~= match day_entry(dv, i as int) {
            JsonV::Object(s) => s,
            _ => Seq::empty(),
        });
        days.push(Json::Object(m));
        i = i + 1;
    }
    assert(elements_view(days) =~= Seq::new(series(dv, "time"@).len(), |j: int| day_entry(dv, j)));
    let members = vec![
        member("days", Json::Array(days)),
        member("elevation_m", field_of(resp, "elevation")),
        member("forecast_type", string("daily")),
        member("latitude", field_of(resp, "latitude")),
        member("longitude", field_of(resp, "longitude")),
        member("timezone", field_of(resp, "timezone")),
        member("timezone_abbreviation", field_of(resp, "timezone_abbreviation")),
        member("units", units_block(temp_unit, wind_unit)),
    ];
    assert(members_view(members) =~= match daily_report(resp@, dv, temp_unit@, wind_unit@) {
        JsonV::Object(s) => s,
        _ => Seq::empty(),
    });
    Ok(Json::Object(members))
}

/// Build the hourly forecast reply from an upstream answer.
pub fn build_hourly_response(resp: &Json, temp_unit: &str, wind_unit: &str) -> (r: Result<Json, WeatherError>)
    ensures
        outcome_view(r) == hourly_outcome(resp@, temp_unit@, wind_unit@),
{
    let hourly = match resp.get("hourly") {
        Some(h) => h,
        None => {
            return Err(WeatherError::ForecastUnavailable("No hourly data in response".to_owned()));
        },
    };
    let times = array_member(hourly, "time");
    let codes = array_member(hourly, "weather_code");
    let temps = array_member(hourly, "temperature_2m");
    let humidity = array_member(hourly, "relative_humidity_2m");
    let precip_prob = array_member(hourly, "precipitation_probability");
    let precip = array_member(hourly, "precipitation");
    let wind_speed = array_member(hourly, "wind_speed_10m");
    let visibility = array_member(hourly, "visibility");
    let ghost hv = hourly@;
    let mut hours: Vec<Json> = Vec::new();
    let mut i: usize = 0;
    while i < times.len()
        invariant
            i <= times.len(),
            hours.len() == i,
            elements_view_slice(times) == series(hv, "time"@),
            elements_view_slice(codes) == series(hv, "weather_code"@),
            elements_view_slice(temps) == series(hv, "temperature_2m"@),
            elements_view_slice(humidity) == series(hv, "relative_humidity_2m"@),
            elements_view_slice(precip_prob) == series(hv, "precipitation_probability"@),
            elements_view_slice(precip) == series(hv, "precipitation"@),
            elements_view_slice(wind_speed) == series(hv, "wind_speed_10m"@),
            elements_view_slice(visibility) == series(hv, "visibility"@),
            forall|j: int| 0 <= j < i ==> (#[trigger] hours[j])@ == hour_entry(hv, j),
        decreases times.len() - i,
    {
        let code = code_in(codes, i);
        let m = vec![
            member("precipitation", element_or_null_of(precip, i)),
            member("precipitation_probability_pct", element_or_null_of(precip_prob, i)),
            member("relative_humidity_pct", element_or_null_of(humidity, i)),
            member("temperature", element_or_null_of(temps, i)),
            member("time", element_or_null_of(times, i)),
            member("visibility_m", element_or_null_of(visibility, i)),
            member("weather_code", Json::PosInt(code as u64)),
            member("weather_description", string(wmo_code_description(code))),
            member("wind_speed", element_or_null_of(wind_speed, i)),
        ];
        assert(members_view(m) =~= match hour_entry(hv, i as int) {
            JsonV::Object(s) => s,
            _ => Seq::empty(),
        });
        hours.push(Json::Object(m));
        i = i + 1;
    }
    assert(elements_view(hours) =~= Seq::new(series(hv, "time"@).len(), |j: int| hour_entry(hv, j)));
    let members = vec![
        member("elevation_m", field_of(resp, "elevation")),
        member("forecast_type", string("hourly")),
        member("hours", Json::Array(hours)),
        member("latitude", field_of(resp, "latitude")),
        member("longitude", field_of(resp, "longitude")),
        member("timezone", field_of(resp, "timezone")),
        member("timezone_abbreviation", field_of(resp, "timezone_abbreviation")),
        member("units", units_block(temp_unit, wind_unit)),
    ];
    assert(members_view(members) =~= match hourly_report(resp@, hv, temp_unit@, wind_unit@) {
        JsonV::Object(s) => s,
        _ => Seq::empty(),
    });
    Ok(Json::Object(members))
}

/// Shape the upstream answer to a forecast request into the reply.
pub fn forecast_from_response(resp: &Json, forecast_type: ForecastType, temp_unit: &str, wind_unit: &str) -> (r: Result<Json, WeatherError>)
    ensures
        outcome_view(r) == forecast_outcome(resp@, forecast_type, temp_unit@, wind_unit@),
{
    check_api_error(resp)?;
    match forecast_type {
        ForecastType::Daily => build_daily_response(resp, temp_unit, wind_unit),
        ForecastType::Hourly => build_hourly_response(resp, temp_unit, wind_unit),
    }
}

} // verus!
