//! What each reply carries, key by key: every member of a report is read
//! from the upstream member of the matching name, stated against the
//! upstream keys themselves.

use vstd::prelude::*;

use crate::error::ErrorKind;
use crate::json::{JsonV, array_or_empty, element_or_null, field, get_in, lookup, str_or};
use crate::operations::current::{current_outcome, wmo_text};
use crate::operations::alerts::{ALERTS_NOTE, alerts_outcome};
use crate::operations::forecast::{ForecastType, daily_outcome, forecast_outcome, hourly_outcome};
use crate::operations::{api_error_detail, coordinates_outcome};
use crate::coordinate::Coordinate;
use crate::service::failure_reason;
use crate::operations::geocode::{GeocodingResult, locations_outcome};
use crate::coordinate::double_view;

verus! {

/// Element `i` of the upstream series `key` of a data block, or `null` when
/// the series is absent, is not an array, or is shorter.
pub open spec fn series_at(block: JsonV, key: Seq<char>, i: int) -> JsonV {
    element_or_null(array_or_empty(block.get(key)), i)
}

/// The weather code a value stands for: a non-negative integer cut to 32
/// bits, anything else 0.
pub open spec fn code_value(v: JsonV) -> u32 {
    match v {
        JsonV::PosInt(n) => n as u32,
        _ => 0,
    }
}

/// The elements of the array member `key` of an optional reply.
pub open spec fn items(r: JsonV, key: Seq<char>) -> Seq<JsonV> {
    array_or_empty(r.get(key))
}

/// The label of a temperature unit: degrees Fahrenheit for `fahrenheit`,
/// degrees Celsius otherwise.
pub open spec fn degrees(temperature_unit: Seq<char>) -> Seq<char> {
    if temperature_unit == "fahrenheit"@ {
        "°F"@
    } else {
        "°C"@
    }
}

/// Whether a forecast's units block names the requested units: precipitation
/// in millimetres, the temperature unit's label, the wind-speed unit as given.
pub open spec fn units_are(units: JsonV, temperature_unit: Seq<char>, wind_speed_unit: Seq<char>) -> bool {
    &&& units.get("precipitation"@) == Some(JsonV::Str("mm"@))
    &&& units.get("temperature"@) == Some(JsonV::Str(degrees(temperature_unit)))
    &&& units.get("wind_speed"@) == Some(JsonV::Str(wind_speed_unit))
}

/// The string literals that name reply members, with their lengths, and the
/// characters that tell apart those of equal length.
proof fn lemma_member_names()
    ensures
        "days"@.len() == 4,
        "elevation_m"@.len() == 11,
        "forecast_type"@.len() == 13,
        "latitude"@.len() == 8,
        "longitude"@.len() == 9,
        "timezone"@.len() == 8,
        "timezone_abbreviation"@.len() == 21,
        "units"@.len() == 5,
        "hours"@.len() == 5,
        "date"@.len() == 4,
        "precipitation_probability_max_pct"@.len() == 33,
        "precipitation_sum"@.len() == 17,
        "sunrise"@.len() == 7,
        "sunset"@.len() == 6,
        "temperature_max"@.len() == 15,
        "temperature_min"@.len() == 15,
        "weather_code"@.len() == 12,
        "weather_description"@.len() == 19,
        "wind_speed_max"@.len() == 14,
        "precipitation"@.len() == 13,
        "precipitation_probability_pct"@.len() == 29,
        "relative_humidity_pct"@.len() == 21,
        "temperature"@.len() == 11,
        "time"@.len() == 4,
        "visibility_m"@.len() == 12,
        "wind_speed"@.len() == 10,
        "latitude"@ != "timezone"@,
        "temperature_max"@ != "temperature_min"@,
        "hours"@ != "units"@,
        "visibility_m"@ != "weather_code"@,
        "relative_humidity_pct"@ != "timezone_abbreviation"@,
        "apparent_temperature"@.len() == 20,
        "cloud_cover_pct"@.len() == 15,
        "is_day"@.len() == 6,
        "pressure_msl_hpa"@.len() == 16,
        "rain"@.len() == 4,
        "showers"@.len() == 7,
        "snowfall"@.len() == 8,
        "surface_pressure_hpa"@.len() == 20,
        "wind_direction_deg"@.len() == 18,
        "wind_gusts"@.len() == 10,
        "apparent_temperature"@ != "surface_pressure_hpa"@,
        "elevation_m"@ != "temperature"@,
        "latitude"@ != "snowfall"@,
        "snowfall"@ != "timezone"@,
        "rain"@ != "time"@,
        "wind_gusts"@ != "wind_speed"@,
        "country"@.len() == 7,
        "name"@.len() == 4,
        "region"@.len() == 6,
        "alerts"@.len() == 6,
        "note"@.len() == 4,
{
    reveal_strlit("days");
    reveal_strlit("elevation_m");
    reveal_strlit("forecast_type");
    reveal_strlit("latitude");
    reveal_strlit("longitude");
    reveal_strlit("timezone");
    reveal_strlit("timezone_abbreviation");
    reveal_strlit("units");
    reveal_strlit("hours");
    reveal_strlit("date");
    reveal_strlit("precipitation_probability_max_pct");
    reveal_strlit("precipitation_sum");
    reveal_strlit("sunrise");
    reveal_strlit("sunset");
    reveal_strlit("temperature_max");
    reveal_strlit("temperature_min");
    reveal_strlit("weather_code");
    reveal_strlit("weather_description");
    reveal_strlit("wind_speed_max");
    reveal_strlit("precipitation");
    reveal_strlit("precipitation_probability_pct");
    reveal_strlit("relative_humidity_pct");
    reveal_strlit("temperature");
    reveal_strlit("time");
    reveal_strlit("visibility_m");
    reveal_strlit("wind_speed");
    reveal_strlit("apparent_temperature");
    reveal_strlit("cloud_cover_pct");
    reveal_strlit("is_day");
    reveal_strlit("pressure_msl_hpa");
    reveal_strlit("rain");
    reveal_strlit("showers");
    reveal_strlit("snowfall");
    reveal_strlit("surface_pressure_hpa");
    reveal_strlit("wind_direction_deg");
    reveal_strlit("wind_gusts");
    reveal_strlit("country");
    reveal_strlit("name");
    reveal_strlit("region");
    reveal_strlit("alerts");
    reveal_strlit("note");
    assert("apparent_temperature"@[0] != "surface_pressure_hpa"@[0]);
    assert("elevation_m"@[0] != "temperature"@[0]);
    assert("latitude"@[0] != "snowfall"@[0]);
    assert("snowfall"@[0] != "timezone"@[0]);
    assert("rain"@[0] != "time"@[0]);
    assert("wind_gusts"@[5] != "wind_speed"@[5]);
    assert("latitude"@[0] != "timezone"@[0]);
    assert("temperature_max"@[13] != "temperature_min"@[13]);
    assert("hours"@[0] != "units"@[0]);
    assert("visibility_m"@[0] != "weather_code"@[0]);
    assert("relative_humidity_pct"@[0] != "timezone_abbreviation"@[0]);
}

/// A daily forecast has one entry per element of the upstream `time` series,
/// and each member of day `i` is element `i` of the upstream daily series it
/// is named after: the date from `time`, the high from `temperature_2m_max`,
/// the low from `temperature_2m_min`, and so on; the weather code is the
/// upstream code (0 when there is none) with its WMO description. The
/// forecast fails exactly when the upstream answer has no `daily` block.
pub proof fn law_daily_entries_read_their_own_series(
    resp: JsonV,
    temperature_unit: Seq<char>,
    wind_speed_unit: Seq<char>,
    i: int,
)
    ensures
        daily_outcome(resp, temperature_unit, wind_speed_unit) is Ok <==> resp.get("daily"@) is Some,
        daily_outcome(resp, temperature_unit, wind_speed_unit) matches Ok(r) ==> {
            let daily = resp.get("daily"@)->0;
            let days = items(r, "days"@);
            let code = code_value(series_at(daily, "weather_code"@, i));
            &&& r.get("forecast_type"@) == Some(JsonV::Str("daily"@))
            &&& r.get("latitude"@) == Some(field(resp, "latitude"@))
            &&& r.get("longitude"@) == Some(field(resp, "longitude"@))
            &&& r.get("timezone"@) == Some(field(resp, "timezone"@))
            &&& r.get("elevation_m"@) == Some(field(resp, "elevation"@))
            &&& r.get("timezone_abbreviation"@) == Some(field(resp, "timezone_abbreviation"@))
            &&& units_are(field(r, "units"@), temperature_unit, wind_speed_unit)
            &&& days.len() == array_or_empty(daily.get("time"@)).len()
            &&& 0 <= i < days.len() ==> {
                &&& days[i].get("date"@) == Some(series_at(daily, "time"@, i))
                &&& days[i].get("temperature_max"@) == Some(series_at(daily, "temperature_2m_max"@, i))
                &&& days[i].get("temperature_min"@) == Some(series_at(daily, "temperature_2m_min"@, i))
                &&& days[i].get("precipitation_sum"@) == Some(series_at(daily, "precipitation_sum"@, i))
                &&& days[i].get("precipitation_probability_max_pct"@) == Some(
                    series_at(daily, "precipitation_probability_max"@, i),
                )
                &&& days[i].get("wind_speed_max"@) == Some(series_at(daily, "wind_speed_10m_max"@, i))
                &&& days[i].get("sunrise"@) == Some(series_at(daily, "sunrise"@, i))
                &&& days[i].get("sunset"@) == Some(series_at(daily, "sunset"@, i))
                &&& days[i].get("weather_code"@) == Some(JsonV::PosInt(code as u64))
                &&& days[i].get("weather_description"@) == Some(JsonV::Str(wmo_text(code)))
            }
        },
{
    lemma_member_names();
    reveal_with_fuel(lookup, 11);
    if resp.get("daily"@) is Some {
        let daily = resp.get("daily"@)->0;
        if 0 <= i < array_or_empty(daily.get("time"@)).len() {
            let e = crate::operations::forecast::day_entry(daily, i);
            if let Ok(r) = daily_outcome(resp, temperature_unit, wind_speed_unit) {
                assert(items(r, "days"@)[i] == e);
            }
            assert(code_value(series_at(daily, "weather_code"@, i)) == crate::operations::forecast::code_at(
                crate::operations::forecast::series(daily, "weather_code"@),
                i,
            ));
        }
    }
}

/// An hourly forecast has one entry per element of the upstream `time`
/// series, and each member of hour `i` is element `i` of the upstream hourly
/// series it is named after: the wind speed from `wind_speed_10m`, the
/// temperature from `temperature_2m`, and so on; the weather code is the
/// upstream code (0 when there is none) with its WMO description. The
/// forecast fails exactly when the upstream answer has no `hourly` block.
pub proof fn law_hourly_entries_read_their_own_series(
    resp: JsonV,
    temperature_unit: Seq<char>,
    wind_speed_unit: Seq<char>,
    i: int,
)
    ensures
        hourly_outcome(resp, temperature_unit, wind_speed_unit) is Ok <==> resp.get("hourly"@) is Some,
        hourly_outcome(resp, temperature_unit, wind_speed_unit) matches Ok(r) ==> {
            let hourly = resp.get("hourly"@)->0;
            let hours = items(r, "hours"@);
            let code = code_value(series_at(hourly, "weather_code"@, i));
            &&& r.get("forecast_type"@) == Some(JsonV::Str("hourly"@))
            &&& r.get("latitude"@) == Some(field(resp, "latitude"@))
            &&& r.get("longitude"@) == Some(field(resp, "longitude"@))
            &&& r.get("timezone"@) == Some(field(resp, "timezone"@))
            &&& r.get("timezone_abbreviation"@) == Some(field(resp, "timezone_abbreviation"@))
            &&& r.get("elevation_m"@) == Some(field(resp, "elevation"@))
            &&& units_are(field(r, "units"@), temperature_unit, wind_speed_unit)
            &&& hours.len() == array_or_empty(hourly.get("time"@)).len()
            &&& 0 <= i < hours.len() ==> {
                &&& hours[i].get("time"@) == Some(series_at(hourly, "time"@, i))
                &&& hours[i].get("temperature"@) == Some(series_at(hourly, "temperature_2m"@, i))
                &&& hours[i].get("relative_humidity_pct"@) == Some(series_at(hourly, "relative_humidity_2m"@, i))
                &&& hours[i].get("precipitation_probability_pct"@) == Some(
                    series_at(hourly, "precipitation_probability"@, i),
                )
                &&& hours[i].get("precipitation"@) == Some(series_at(hourly, "precipitation"@, i))
                &&& hours[i].get("wind_speed"@) == Some(series_at(hourly, "wind_speed_10m"@, i))
                &&& hours[i].get("visibility_m"@) == Some(series_at(hourly, "visibility"@, i))
                &&& hours[i].get("weather_code"@) == Some(JsonV::PosInt(code as u64))
                &&& hours[i].get("weather_description"@) == Some(JsonV::Str(wmo_text(code)))
            }
        },
{
    lemma_member_names();
    reveal_with_fuel(lookup, 10);
    if resp.get("hourly"@) is Some {
        let hourly = resp.get("hourly"@)->0;
        if 0 <= i < array_or_empty(hourly.get("time"@)).len() {
            let e = crate::operations::forecast::hour_entry(hourly, i);
            if let Ok(r) = hourly_outcome(resp, temperature_unit, wind_speed_unit) {
                assert(items(r, "hours"@)[i] == e);
            }
            assert(code_value(series_at(hourly, "weather_code"@, i)) == crate::operations::forecast::code_at(
                crate::operations::forecast::series(hourly, "weather_code"@),
                i,
            ));
        }
    }
}

/// What a numeric `is_day` flag says: 1 is day, another non-negative integer
/// night, anything else (or nothing) unknown.
pub open spec fn daylight(v: Option<JsonV>) -> JsonV {
    match v {
        Some(JsonV::PosInt(n)) => JsonV::Bool(n == 1),
        _ => JsonV::Null,
    }
}

/// A current-conditions report reads each member from the upstream member it
/// is named after: the temperature from `current.temperature_2m`, the
/// feels-like temperature from `current.apparent_temperature`, the humidity
/// from `current.relative_humidity_2m`, and so on (`null` when the upstream
/// member is absent), the place from the answer itself, and the units from
/// `current_units` with the requested units as fallback. It fails with the
/// API's error when the answer carries an `error` member, and as unavailable
/// when it has no `current` block; otherwise it succeeds.
pub proof fn law_current_report_reads_its_own_members(
    resp: JsonV,
    temperature_unit: Seq<char>,
    wind_speed_unit: Seq<char>,
)
    ensures
        current_outcome(resp, temperature_unit, wind_speed_unit) is Ok <==> resp.get("error"@) is None && resp.get(
            "current"@,
        ) is Some,
        resp.get("error"@) is Some ==> (current_outcome(resp, temperature_unit, wind_speed_unit) matches Err(e)
            && e.0 == ErrorKind::ApiError),
        resp.get("error"@) is None && resp.get("current"@) is None ==> (current_outcome(
            resp,
            temperature_unit,
            wind_speed_unit,
        ) matches Err(e) && e.0 == ErrorKind::ForecastUnavailable),
        current_outcome(resp, temperature_unit, wind_speed_unit) matches Ok(r) ==> {
            let current = resp.get("current"@)->0;
            let units = field(r, "units"@);
            let upstream_units = resp.get("current_units"@);
            &&& r.get("temperature"@) == Some(field(current, "temperature_2m"@))
            &&& r.get("apparent_temperature"@) == Some(field(current, "apparent_temperature"@))
            &&& r.get("relative_humidity_pct"@) == Some(field(current, "relative_humidity_2m"@))
            &&& r.get("precipitation"@) == Some(field(current, "precipitation"@))
            &&& r.get("rain"@) == Some(field(current, "rain"@))
            &&& r.get("showers"@) == Some(field(current, "showers"@))
            &&& r.get("snowfall"@) == Some(field(current, "snowfall"@))
            &&& r.get("cloud_cover_pct"@) == Some(field(current, "cloud_cover"@))
            &&& r.get("pressure_msl_hpa"@) == Some(field(current, "pressure_msl"@))
            &&& r.get("surface_pressure_hpa"@) == Some(field(current, "surface_pressure"@))
            &&& r.get("wind_speed"@) == Some(field(current, "wind_speed_10m"@))
            &&& r.get("wind_direction_deg"@) == Some(field(current, "wind_direction_10m"@))
            &&& r.get("wind_gusts"@) == Some(field(current, "wind_gusts_10m"@))
            &&& r.get("time"@) == Some(field(current, "time"@))
            &&& r.get("weather_code"@) == Some(field(current, "weather_code"@))
            &&& r.get("weather_description"@) == Some(
                JsonV::Str(wmo_text(code_value(field(current, "weather_code"@)))),
            )
            &&& r.get("is_day"@) == Some(daylight(current.get("is_day"@)))
            &&& r.get("latitude"@) == Some(field(resp, "latitude"@))
            &&& r.get("longitude"@) == Some(field(resp, "longitude"@))
            &&& r.get("timezone"@) == Some(field(resp, "timezone"@))
            &&& r.get("timezone_abbreviation"@) == Some(field(resp, "timezone_abbreviation"@))
            &&& r.get("elevation_m"@) == Some(field(resp, "elevation"@))
            &&& units.get("precipitation"@) == Some(JsonV::Str(str_or(get_in(upstream_units, "precipitation"@), "mm"@)))
            &&& units.get("temperature"@) == Some(
                JsonV::Str(str_or(get_in(upstream_units, "temperature_2m"@), degrees(temperature_unit))),
            )
            &&& units.get("wind_speed"@) == Some(
                JsonV::Str(str_or(get_in(upstream_units, "wind_speed_10m"@), wind_speed_unit)),
            )
        },
{
    lemma_member_names();
    reveal_with_fuel(lookup, 24);
    if resp.get("current"@) is Some {
        let current = resp.get("current"@)->0;
        assert(code_value(field(current, "weather_code"@)) == crate::operations::current::code_of(
            current.get("weather_code"@),
        ));
        assert(daylight(current.get("is_day"@)) == crate::operations::current::day_flag(current.get("is_day"@)));
    }
}

/// The matches a geocoder returned: none when it returned no list.
pub open spec fn matches_of(results: Option<Vec<GeocodingResult>>) -> Seq<GeocodingResult> {
    match results {
        Some(v) => v@,
        None => Seq::empty(),
    }
}

/// A geocoding reply keeps every match the geocoder returned, in its order:
/// entry `i` is match `i`, with its name, coordinates, country, region (the
/// match's `admin1`) and elevation (`null` where the match has none, and a
/// coordinate that is not a finite number is `null` too). With no match at
/// all the search fails as "location not found", naming what was searched.
pub proof fn law_every_match_becomes_one_location(results: Option<Vec<GeocodingResult>>, name: Seq<char>, i: int)
    ensures
        locations_outcome(results, name) is Ok <==> matches_of(results).len() > 0,
        matches_of(results).len() == 0 ==> locations_outcome(results, name) == Err::<JsonV, (ErrorKind, Seq<char>)>(
            (ErrorKind::LocationNotFound, "No locations found for: "@ + name),
        ),
        locations_outcome(results, name) matches Ok(v) ==> {
            let rs = matches_of(results);
            &&& v matches JsonV::Array(a) && a.len() == rs.len()
            &&& 0 <= i < rs.len() ==> {
                let entry = v->Array_0[i];
                let m = rs[i];
                &&& entry.get("name"@) == Some(JsonV::Str(m.name@))
                &&& entry.get("latitude"@) == Some(double_view(m.latitude))
                &&& entry.get("longitude"@) == Some(double_view(m.longitude))
                &&& entry.get("country"@) == Some(
                    match m.country {
                        Some(c) => JsonV::Str(c@),
                        None => JsonV::Null,
                    },
                )
                &&& entry.get("region"@) == Some(
                    match m.admin1 {
                        Some(r) => JsonV::Str(r@),
                        None => JsonV::Null,
                    },
                )
                &&& entry.get("elevation_m"@) == Some(
                    match m.elevation {
                        Some(e) => double_view(e),
                        None => JsonV::Null,
                    },
                )
            }
        },
{
    lemma_member_names();
    reveal_with_fuel(lookup, 7);
}

/// Whether the WMO weather interpretation table lists `code`.
pub open spec fn is_wmo_code(code: u32) -> bool {
    code == 0 || code == 1 || code == 2 || code == 3 || code == 45 || code == 48 || code == 51
        || code == 53 || code == 55 || code == 56 || code == 57 || code == 61 || code == 63 || code == 65
        || code == 66 || code == 67 || code == 71 || code == 73 || code == 75 || code == 77 || code == 80
        || code == 81 || code == 82 || code == 85 || code == 86 || code == 95 || code == 96 || code == 99
}

/// The WMO weather interpretation table: each code the table lists has its
/// own description, and every other code is "Unknown".
pub proof fn law_wmo_descriptions_follow_the_table(code: u32)
    ensures
        wmo_text(0) == "Clear sky"@,
        wmo_text(1) == "Mainly clear"@,
        wmo_text(2) == "Partly cloudy"@,
        wmo_text(3) == "Overcast"@,
        wmo_text(45) == "Foggy"@,
        wmo_text(48) == "Depositing rime fog"@,
        wmo_text(51) == "Light drizzle"@,
        wmo_text(53) == "Moderate drizzle"@,
        wmo_text(55) == "Dense drizzle"@,
        wmo_text(56) == "Light freezing drizzle"@,
        wmo_text(57) == "Heavy freezing drizzle"@,
        wmo_text(61) == "Slight rain"@,
        wmo_text(63) == "Moderate rain"@,
        wmo_text(65) == "Heavy rain"@,
        wmo_text(66) == "Light freezing rain"@,
        wmo_text(67) == "Heavy freezing rain"@,
        wmo_text(71) == "Slight snowfall"@,
        wmo_text(73) == "Moderate snowfall"@,
        wmo_text(75) == "Heavy snowfall"@,
        wmo_text(77) == "Snow grains"@,
        wmo_text(80) == "Slight rain showers"@,
        wmo_text(81) == "Moderate rain showers"@,
        wmo_text(82) == "Violent rain showers"@,
        wmo_text(85) == "Slight snow showers"@,
        wmo_text(86) == "Heavy snow showers"@,
        wmo_text(95) == "Thunderstorm"@,
        wmo_text(96) == "Thunderstorm with slight hail"@,
        wmo_text(99) == "Thunderstorm with heavy hail"@,
        !is_wmo_code(code)
            ==> wmo_text(code) == "Unknown"@,
{
}

/// A forecast of each resolution is the report of that resolution: the daily
/// report for a daily forecast, the hourly one for an hourly forecast, unless
/// the upstream answer signals an API error, which then is the outcome.
pub proof fn law_forecast_resolution_picks_its_report(
    resp: JsonV,
    temperature_unit: Seq<char>,
    wind_speed_unit: Seq<char>,
)
    ensures
        resp.get("error"@) is None ==> forecast_outcome(resp, ForecastType::Daily, temperature_unit, wind_speed_unit)
            == daily_outcome(resp, temperature_unit, wind_speed_unit),
        resp.get("error"@) is None ==> forecast_outcome(resp, ForecastType::Hourly, temperature_unit, wind_speed_unit)
            == hourly_outcome(resp, temperature_unit, wind_speed_unit),
        resp.get("error"@) is Some ==> (forecast_outcome(resp, ForecastType::Daily, temperature_unit, wind_speed_unit) matches Err(e)
            && e.0 == ErrorKind::ApiError),
        resp.get("error"@) is Some ==> (forecast_outcome(resp, ForecastType::Hourly, temperature_unit, wind_speed_unit) matches Err(e)
            && e.0 == ErrorKind::ApiError),
{
    assert(resp.get("error"@) is None <==> api_error_detail(resp) is None);
}

/// An alerts reply names the place it was asked for, latitude as latitude and
/// longitude as longitude, lists no alerts and carries the note; it is refused
/// exactly when a coordinate is out of range.
pub proof fn law_alerts_report_names_its_place(latitude: Coordinate, longitude: Coordinate)
    ensures
        alerts_outcome(latitude, longitude) is Ok <==> latitude.is_latitude() && longitude.is_longitude(),
        alerts_outcome(latitude, longitude) matches Err(e) ==> Some(e) == coordinates_outcome(latitude, longitude),
        alerts_outcome(latitude, longitude) matches Ok(r) ==> {
            &&& r.get("latitude"@) == Some(double_view(latitude.bits))
            &&& r.get("longitude"@) == Some(double_view(longitude.bits))
            &&& r.get("alerts"@) == Some(JsonV::Array(Seq::empty()))
            &&& r.get("note"@) == Some(JsonV::Str(ALERTS_NOTE@))
        },
{
    lemma_member_names();
    reveal_with_fuel(lookup, 5);
}

/// How each error is counted: a transport failure as `network`, an API error
/// as `api_error`, an answer missing its data as `malformed_response`; a
/// place not found and a refused coordinate or parameter are not counted.
pub proof fn law_faults_are_classified_by_kind()
    ensures
        failure_reason(ErrorKind::Http) == Some("network"@),
        failure_reason(ErrorKind::ApiError) == Some("api_error"@),
        failure_reason(ErrorKind::ForecastUnavailable) == Some("malformed_response"@),
        failure_reason(ErrorKind::LocationNotFound) is None,
        failure_reason(ErrorKind::InvalidCoordinates) is None,
        failure_reason(ErrorKind::InvalidParameters) is None,
{
}

} // verus!
