use weather_forecast_mcp::coordinate::{magnitude_within, Coordinate};
use weather_forecast_mcp::error::WeatherError;
use weather_forecast_mcp::json::Json;
use weather_forecast_mcp::operations::alerts::{get_alerts, ALERTS_NOTE};
use weather_forecast_mcp::operations::current::{
    current_from_response, current_request, wmo_code_description,
};
use weather_forecast_mcp::operations::forecast::{
    build_daily_response, build_hourly_response, forecast_from_response, forecast_request,
    ForecastType,
};
use weather_forecast_mcp::operations::geocode::{
    geocode_locations, geocode_url_for, urlencoding, GeocodingResult,
};
use weather_forecast_mcp::operations::{
    check_api_error, validate_coordinates, validate_temperature_unit, validate_wind_speed_unit,
};

fn s(text: &str) -> Json {
    Json::Str(text.to_string())
}

fn num(x: f64) -> Json {
    Json::Float(x.to_bits())
}

fn uint(n: u64) -> Json {
    Json::PosInt(n)
}

fn arr(items: Vec<Json>) -> Json {
    Json::Array(items)
}

fn obj(members: Vec<(&str, Json)>) -> Json {
    Json::Object(members.into_iter().map(|(k, v)| (k.to_string(), v)).collect())
}

fn coord(x: f64) -> Coordinate {
    Coordinate { bits: x.to_bits(), text: x.to_string() }
}

fn text_of(j: Option<&Json>) -> Option<&str> {
    j.and_then(|v| v.as_str())
}

fn message(e: &WeatherError) -> String {
    e.message()
}

// ── validation ──────────────────────────────────────────────────────────────

#[test]
fn temperature_units_are_celsius_or_fahrenheit() {
    assert!(validate_temperature_unit("celsius").is_ok());
    assert!(validate_temperature_unit("fahrenheit").is_ok());
    for bad in ["kelvin", "Celsius", "", "rankine"] {
        let err = validate_temperature_unit(bad).expect_err("unsupported unit");
        assert!(matches!(err, WeatherError::InvalidParameters(_)));
        assert_eq!(
            message(&err),
            format!("Invalid parameters: Invalid temperature_unit '{bad}'. Use 'celsius' or 'fahrenheit'.")
        );
    }
}

#[test]
fn wind_speed_units_are_the_four_supported_ones() {
    for good in ["kmh", "ms", "mph", "kn"] {
        assert!(validate_wind_speed_unit(good).is_ok());
    }
    let err = validate_wind_speed_unit("furlongs_per_fortnight").expect_err("unsupported unit");
    assert_eq!(
        message(&err),
        "Invalid parameters: Invalid wind_speed_unit 'furlongs_per_fortnight'. Use 'kmh', 'ms', 'mph', or 'kn'."
    );
}

#[test]
fn coordinates_at_the_edges_are_accepted() {
    for (lat, lon) in [(90.0, 180.0), (-90.0, -180.0), (0.0, 0.0), (-0.0, -0.0), (51.5, -0.1)] {
        assert!(validate_coordinates(&coord(lat), &coord(lon)).is_ok(), "{lat} {lon}");
    }
    assert!(validate_coordinates(&coord(5e-324), &coord(-5e-324)).is_ok());
}

#[test]
fn coordinates_out_of_range_are_refused_latitude_first() {
    let err = validate_coordinates(&coord(999.0), &coord(999.0)).expect_err("latitude");
    assert!(matches!(err, WeatherError::InvalidCoordinates(_)));
    assert_eq!(message(&err), "Invalid coordinates: Latitude 999 is out of range [-90, 90]");

    let err = validate_coordinates(&coord(0.0), &coord(180.5)).expect_err("longitude");
    assert_eq!(message(&err), "Invalid coordinates: Longitude 180.5 is out of range [-180, 180]");

    let just_over = f64::from_bits(90.0f64.to_bits() + 1);
    assert!(validate_coordinates(&coord(just_over), &coord(0.0)).is_err());
    assert!(validate_coordinates(&coord(-just_over), &coord(0.0)).is_err());
    assert!(validate_coordinates(&coord(f64::NAN), &coord(0.0)).is_err());
    assert!(validate_coordinates(&coord(0.0), &coord(f64::INFINITY)).is_err());
    assert!(validate_coordinates(&coord(1e300), &coord(0.0)).is_err());
}

#[test]
fn magnitude_check_agrees_with_float_comparison() {
    let samples = [
        0.0, -0.0, 1.0, 63.999, 64.0, 89.99999999999999, 90.0, 90.00000000000001, 100.0, 179.9,
        180.0, 180.00000000000003, 255.0, 1e-310, 1e10, f64::MAX, f64::MIN_POSITIVE, f64::NAN,
        f64::INFINITY, f64::NEG_INFINITY,
    ];
    for x in samples {
        for bound in [64u64, 90, 180, 255] {
            let expected = (-(bound as f64)..=(bound as f64)).contains(&x);
            assert_eq!(magnitude_within(x.to_bits(), bound), expected, "{x} within {bound}");
            assert_eq!(magnitude_within((-x).to_bits(), bound), expected, "-{x} within {bound}");
        }
    }
}

// ── WMO codes ───────────────────────────────────────────────────────────────

#[test]
fn wmo_codes_have_their_descriptions() {
    assert_eq!(wmo_code_description(0), "Clear sky");
    assert_eq!(wmo_code_description(3), "Overcast");
    assert_eq!(wmo_code_description(45), "Foggy");
    assert_eq!(wmo_code_description(61), "Slight rain");
    assert_eq!(wmo_code_description(82), "Violent rain showers");
    assert_eq!(wmo_code_description(99), "Thunderstorm with heavy hail");
    for unknown in [4, 44, 100, 98, u32::MAX] {
        assert_eq!(wmo_code_description(unknown), "Unknown");
    }
}

// ── current conditions ──────────────────────────────────────────────────────

#[test]
fn current_request_defaults_units_and_builds_the_url() {
    let req = current_request("http://mock", &coord(51.5), &coord(-0.1), None, None).expect("valid");
    assert_eq!(req.temperature_unit, "celsius");
    assert_eq!(req.wind_speed_unit, "kmh");
    assert_eq!(
        req.url,
        "http://mock/v1/forecast?latitude=51.5&longitude=-0.1&current=temperature_2m,relative_humidity_2m,apparent_temperature,is_day,precipitation,rain,showers,snowfall,weather_code,cloud_cover,pressure_msl,surface_pressure,wind_speed_10m,wind_direction_10m,wind_gusts_10m&temperature_unit=celsius&wind_speed_unit=kmh&timezone=auto"
    );
}

#[test]
fn current_request_checks_coordinates_before_units() {
    let err = current_request("http://mock", &coord(100.0), &coord(0.0), Some("kelvin"), None)
        .expect_err("refused");
    assert!(matches!(err, WeatherError::InvalidCoordinates(_)));
    let err = current_request("http://mock", &coord(10.0), &coord(0.0), Some("kelvin"), Some("x"))
        .expect_err("refused");
    assert!(message(&err).contains("temperature_unit"));
    let err = current_request("http://mock", &coord(10.0), &coord(0.0), None, Some("x"))
        .expect_err("refused");
    assert!(message(&err).contains("wind_speed_unit"));
}

fn forecast_fixture() -> Json {
    obj(vec![
        ("latitude", num(12.34)),
        ("longitude", num(56.78)),
        ("timezone", s("Etc/UTC")),
        ("timezone_abbreviation", s("UTC")),
        ("elevation", num(100.0)),
        (
            "current_units",
            obj(vec![
                ("temperature_2m", s("degC")),
                ("wind_speed_10m", s("km/h")),
                ("precipitation", s("mm")),
            ]),
        ),
        (
            "current",
            obj(vec![
                ("time", s("2026-01-01T00:00")),
                ("temperature_2m", num(20.0)),
                ("apparent_temperature", num(19.0)),
                ("relative_humidity_2m", uint(50)),
                ("precipitation", num(0.0)),
                ("rain", num(0.0)),
                ("showers", num(0.0)),
                ("snowfall", num(0.0)),
                ("weather_code", uint(0)),
                ("cloud_cover", uint(10)),
                ("pressure_msl", num(1013.0)),
                ("surface_pressure", num(1010.0)),
                ("wind_speed_10m", num(5.0)),
                ("wind_direction_10m", uint(180)),
                ("wind_gusts_10m", num(10.0)),
                ("is_day", uint(1)),
            ]),
        ),
        (
            "daily",
            obj(vec![
                ("time", arr(vec![s("2026-01-01"), s("2026-01-02")])),
                ("weather_code", arr(vec![uint(0), uint(63)])),
                ("temperature_2m_max", arr(vec![num(22.0), num(18.5)])),
                ("temperature_2m_min", arr(vec![num(15.0), num(11.0)])),
                ("precipitation_sum", arr(vec![num(0.0), num(4.2)])),
                ("precipitation_probability_max", arr(vec![uint(0), uint(80)])),
                ("wind_speed_10m_max", arr(vec![num(8.0)])),
                ("sunrise", arr(vec![s("2026-01-01T06:00"), s("2026-01-02T06:01")])),
                ("sunset", arr(vec![s("2026-01-01T20:00"), s("2026-01-02T20:01")])),
            ]),
        ),
    ])
}

#[test]
fn current_report_carries_the_current_block_and_units() {
    let out = current_from_response(&forecast_fixture(), "celsius", "kmh").expect("report");
    assert_eq!(out.get("temperature"), Some(&num(20.0)));
    assert_eq!(out.get("relative_humidity_pct"), Some(&uint(50)));
    assert_eq!(out.get("wind_direction_deg"), Some(&uint(180)));
    assert_eq!(out.get("latitude"), Some(&num(12.34)));
    assert_eq!(out.get("elevation_m"), Some(&num(100.0)));
    assert_eq!(text_of(out.get("weather_description")), Some("Clear sky"));
    assert_eq!(out.get("is_day"), Some(&Json::Bool(true)));
    let units = out.get("units").expect("units");
    assert_eq!(text_of(units.get("temperature")), Some("degC"));
    assert_eq!(text_of(units.get("wind_speed")), Some("km/h"));
    assert_eq!(text_of(units.get("precipitation")), Some("mm"));
}

#[test]
fn current_report_falls_back_to_requested_unit_labels() {
    let resp = obj(vec![("current", obj(vec![("weather_code", uint(95)), ("is_day", uint(0))]))]);
    let out = current_from_response(&resp, "fahrenheit", "mph").expect("report");
    let units = out.get("units").expect("units");
    assert_eq!(text_of(units.get("temperature")), Some("°F"));
    assert_eq!(text_of(units.get("wind_speed")), Some("mph"));
    assert_eq!(text_of(units.get("precipitation")), Some("mm"));
    assert_eq!(text_of(out.get("weather_description")), Some("Thunderstorm"));
    assert_eq!(out.get("is_day"), Some(&Json::Bool(false)));
    assert_eq!(out.get("latitude"), Some(&Json::Null));
    assert_eq!(out.get("temperature"), Some(&Json::Null));

    let out = current_from_response(&resp, "celsius", "kmh").expect("report");
    assert_eq!(text_of(out.get("units").and_then(|u| u.get("temperature"))), Some("°C"));
}

#[test]
fn current_report_refuses_an_answer_without_current_data() {
    let err = current_from_response(&obj(vec![("latitude", num(1.0))]), "celsius", "kmh")
        .expect_err("no current");
    assert!(matches!(err, WeatherError::ForecastUnavailable(_)));
    assert_eq!(message(&err), "Forecast unavailable: No current data in response");
}

#[test]
fn an_error_body_becomes_an_api_error() {
    let rate_limited = obj(vec![
        ("error", Json::Bool(true)),
        ("reason", s("Minutely API request limit exceeded")),
    ]);
    let err = current_from_response(&rate_limited, "celsius", "kmh").expect_err("api error");
    assert!(matches!(err, WeatherError::ApiError(_)));
    assert_eq!(message(&err), "API error: true: Minutely API request limit exceeded");

    let err = check_api_error(&obj(vec![("error", Json::Bool(false))])).expect_err("api error");
    assert_eq!(message(&err), "API error: false: unknown error");
    let err = check_api_error(&obj(vec![("error", s("yes")), ("reason", uint(3))])).expect_err("api");
    assert_eq!(message(&err), "API error: true: unknown error");
    assert!(check_api_error(&forecast_fixture()).is_ok());
}

// ── forecasts ───────────────────────────────────────────────────────────────

#[test]
fn forecast_request_clamps_days_and_picks_the_variables() {
    let daily = forecast_request("http://mock", &coord(35.5), &coord(139.5), ForecastType::Daily, 0, None, None)
        .expect("valid");
    assert_eq!(
        daily.url,
        "http://mock/v1/forecast?latitude=35.5&longitude=139.5&daily=weather_code,temperature_2m_max,temperature_2m_min,apparent_temperature_max,apparent_temperature_min,sunrise,sunset,daylight_duration,sunshine_duration,precipitation_sum,rain_sum,snowfall_sum,precipitation_hours,precipitation_probability_max,wind_speed_10m_max,wind_gusts_10m_max,wind_direction_10m_dominant&temperature_unit=celsius&wind_speed_unit=kmh&timezone=auto&forecast_days=1"
    );
    let hourly = forecast_request(
        "http://mock",
        &coord(48.8566),
        &coord(2.3522),
        ForecastType::Hourly,
        40,
        Some("fahrenheit"),
        Some("kn"),
    )
    .expect("valid");
    assert_eq!(
        hourly.url,
        "http://mock/v1/forecast?latitude=48.8566&longitude=2.3522&hourly=temperature_2m,relative_humidity_2m,apparent_temperature,precipitation_probability,precipitation,rain,showers,snowfall,weather_code,cloud_cover,visibility,wind_speed_10m,wind_direction_10m,wind_gusts_10m&temperature_unit=fahrenheit&wind_speed_unit=kn&timezone=auto&forecast_days=16"
    );
    assert_eq!(hourly.forecast_type, ForecastType::Hourly);
    let five = forecast_request("b", &coord(1.0), &coord(2.0), ForecastType::Daily, 5, None, None).expect("ok");
    assert!(five.url.ends_with("&forecast_days=5"));
    let err = forecast_request("b", &coord(1.0), &coord(2.0), ForecastType::Daily, 5, Some("rankine"), None)
        .expect_err("bad unit");
    assert!(message(&err).contains("temperature_unit"));
}

#[test]
fn daily_report_has_one_entry_per_day() {
    let out = build_daily_response(&forecast_fixture(), "celsius", "kmh").expect("report");
    assert_eq!(text_of(out.get("forecast_type")), Some("daily"));
    let days = out.get("days").and_then(|d| d.as_array()).expect("days");
    assert_eq!(days.len(), 2);
    assert_eq!(text_of(days[0].get("date")), Some("2026-01-01"));
    assert_eq!(days[0].get("weather_code"), Some(&uint(0)));
    assert_eq!(text_of(days[0].get("weather_description")), Some("Clear sky"));
    assert_eq!(days[0].get("temperature_max"), Some(&num(22.0)));
    assert_eq!(days[1].get("weather_code"), Some(&uint(63)));
    assert_eq!(text_of(days[1].get("weather_description")), Some("Moderate rain"));
    assert_eq!(days[1].get("precipitation_probability_max_pct"), Some(&uint(80)));
    assert_eq!(days[1].get("wind_speed_max"), Some(&Json::Null));
    let units = out.get("units").expect("units");
    assert_eq!(text_of(units.get("temperature")), Some("°C"));
    assert_eq!(text_of(units.get("wind_speed")), Some("kmh"));
    assert_eq!(text_of(units.get("precipitation")), Some("mm"));
}

#[test]
fn daily_report_needs_daily_data() {
    let err = build_daily_response(&obj(vec![("timezone", s("Etc/UTC"))]), "celsius", "kmh")
        .expect_err("no daily data");
    assert_eq!(message(&err), "Forecast unavailable: No daily data in response");
    let out = build_daily_response(&obj(vec![("daily", Json::Null)]), "celsius", "kmh").expect("empty");
    assert_eq!(out.get("days"), Some(&arr(vec![])));
}

#[test]
fn hourly_report_has_one_entry_per_hour() {
    let resp = obj(vec![(
        "hourly",
        obj(vec![
            ("time", arr(vec![s("T00"), s("T01"), s("T02")])),
            ("weather_code", arr(vec![uint(2), s("x")])),
            ("temperature_2m", arr(vec![num(1.5), num(2.5), num(3.5)])),
            ("visibility", arr(vec![uint(24000)])),
        ]),
    )]);
    let out = build_hourly_response(&resp, "fahrenheit", "ms").expect("report");
    assert_eq!(text_of(out.get("forecast_type")), Some("hourly"));
    let hours = out.get("hours").and_then(|h| h.as_array()).expect("hours");
    assert_eq!(hours.len(), 3);
    assert_eq!(text_of(hours[0].get("weather_description")), Some("Partly cloudy"));
    assert_eq!(hours[1].get("weather_code"), Some(&uint(0)));
    assert_eq!(text_of(hours[2].get("weather_description")), Some("Clear sky"));
    assert_eq!(hours[2].get("temperature"), Some(&num(3.5)));
    assert_eq!(hours[0].get("visibility_m"), Some(&uint(24000)));
    assert_eq!(hours[1].get("visibility_m"), Some(&Json::Null));
    assert_eq!(text_of(out.get("units").and_then(|u| u.get("temperature"))), Some("°F"));

    let err = build_hourly_response(&forecast_fixture(), "celsius", "kmh").expect_err("no hourly");
    assert_eq!(message(&err), "Forecast unavailable: No hourly data in response");
}

#[test]
fn forecast_answer_checks_the_error_body_first() {
    let err = forecast_from_response(
        &obj(vec![("error", Json::Bool(true)), ("reason", s("bad"))]),
        ForecastType::Daily,
        "celsius",
        "kmh",
    )
    .expect_err("api error");
    assert!(matches!(err, WeatherError::ApiError(_)));
    assert!(forecast_from_response(&forecast_fixture(), ForecastType::Daily, "celsius", "kmh").is_ok());
}

// ── geocoding ───────────────────────────────────────────────────────────────

#[test]
fn url_encoding_keeps_unreserved_characters_only() {
    assert_eq!(urlencoding("London"), "London");
    assert_eq!(urlencoding("New York"), "New%20York");
    assert_eq!(urlencoding("a-b_c.d~e"), "a-b_c.d~e");
    assert_eq!(urlencoding("São Paulo"), "S%E3o%20Paulo");
    assert_eq!(urlencoding("東京"), "%6771%4EAC");
    assert_eq!(urlencoding("a&b=c\n"), "a%26b%3Dc%0A");
    assert_eq!(urlencoding(""), "");
}

#[test]
fn geocode_url_clamps_the_count_and_defaults_the_language() {
    assert_eq!(
        geocode_url_for("http://mock", "New York", 0, None),
        "http://mock/v1/search?name=New%20York&count=1&language=en&format=json"
    );
    assert_eq!(
        geocode_url_for("http://mock", "Berlin", 50, Some("de")),
        "http://mock/v1/search?name=Berlin&count=10&language=de&format=json"
    );
    assert_eq!(
        geocode_url_for("http://mock", "Tokyo", 3, Some("fr")),
        "http://mock/v1/search?name=Tokyo&count=3&language=fr&format=json"
    );
}

#[test]
fn geocode_matches_become_locations() {
    let results = vec![GeocodingResult {
        name: "Fictitious Springs".to_string(),
        latitude: 12.34f64.to_bits(),
        longitude: 56.78f64.to_bits(),
        country: Some("Testland".to_string()),
        admin1: None,
        elevation: Some(100.0f64.to_bits()),
    }];
    let out = geocode_locations(Some(results), "Fictitious Springs").expect("locations");
    let list = out.as_array().expect("array");
    assert_eq!(list.len(), 1);
    assert_eq!(text_of(list[0].get("name")), Some("Fictitious Springs"));
    assert_eq!(list[0].get("latitude"), Some(&num(12.34)));
    assert_eq!(list[0].get("longitude"), Some(&num(56.78)));
    assert_eq!(text_of(list[0].get("country")), Some("Testland"));
    assert_eq!(list[0].get("region"), Some(&Json::Null));
    assert_eq!(list[0].get("elevation_m"), Some(&num(100.0)));
}

#[test]
fn no_geocode_match_is_location_not_found() {
    let err = geocode_locations(Some(Vec::new()), "xyzzy").expect_err("none");
    assert!(matches!(err, WeatherError::LocationNotFound(_)));
    assert_eq!(message(&err), "Location not found: No locations found for: xyzzy");
    assert!(geocode_locations(None, "xyzzy").is_err());
}

// ── alerts ──────────────────────────────────────────────────────────────────

#[test]
fn alerts_are_an_empty_list_with_a_note() {
    let out = get_alerts(&coord(37.7749), &coord(-122.4194)).expect("alerts");
    assert_eq!(out.get("latitude"), Some(&num(37.7749)));
    assert_eq!(out.get("longitude"), Some(&num(-122.4194)));
    assert_eq!(out.get("alerts"), Some(&arr(vec![])));
    assert_eq!(text_of(out.get("note")), Some(ALERTS_NOTE));
}

#[test]
fn alerts_refuse_an_out_of_range_latitude() {
    let err = get_alerts(&coord(999999.0), &coord(65.432109)).expect_err("refused");
    assert_eq!(message(&err), "Invalid coordinates: Latitude 999999 is out of range [-90, 90]");
}

/// Percent-decoding as a query-string reader does it.
fn percent_decode(t: &str) -> String {
    let chars: Vec<char> = t.chars().collect();
    let mut out = String::new();
    let mut i = 0;
    while i < chars.len() {
        let is_hex = |c: char| c.is_ascii_digit() || ('A'..='F').contains(&c);
        if chars[i] == '%' && i + 2 < chars.len() && is_hex(chars[i + 1]) && is_hex(chars[i + 2]) {
            let code = u32::from_str_radix(&chars[i + 1..i + 3].iter().collect::<String>(), 16).unwrap();
            out.push(char::from_u32(code).unwrap());
            i += 3;
        } else {
            out.push(chars[i]);
            i += 1;
        }
    }
    out
}

#[test]
fn every_percent_opens_a_two_digit_escape() {
    for input in ["New York", "a&b=c\n", "São Paulo", "東京", "%%", "\u{1}\u{7f}", "x y#z?"] {
        let out: Vec<char> = urlencoding(input).chars().collect();
        for (i, c) in out.iter().enumerate() {
            if *c == '%' {
                assert!(i + 2 < out.len(), "{input:?}");
                for d in &out[i + 1..i + 3] {
                    assert!(d.is_ascii_digit() || ('A'..='F').contains(d), "{input:?}");
                }
            }
        }
    }
}

#[test]
fn decoding_the_encoding_of_ascii_text_gives_it_back() {
    let all_ascii: String = (0u8..128).map(char::from).collect();
    for input in ["", "London", "New York", "a&b=c\n", "%41", "100% sure", all_ascii.as_str()] {
        assert_eq!(percent_decode(&urlencoding(input)), input);
    }
}
