use weather_forecast_mcp::coordinate::Coordinate;
use weather_forecast_mcp::error::WeatherError;
use weather_forecast_mcp::json::Json;
use weather_forecast_mcp::operations::forecast::ForecastType;
use weather_forecast_mcp::operations::geocode::GeocodingResult;
use weather_forecast_mcp::operations::{validate_temperature_unit, validate_wind_speed_unit};
use weather_forecast_mcp::service::{
    finish_current, finish_forecast, finish_geocode, value_as_u64, CallPlan, Upstream,
    WeatherService,
};
use weather_forecast_mcp::{build_service, server_config};

fn s(text: &str) -> Json {
    Json::Str(text.to_string())
}

fn num(x: f64) -> Json {
    Json::Float(x.to_bits())
}

fn uint(n: u64) -> Json {
    Json::PosInt(n)
}

fn arr(items: Vec<Json>) -> Json {
    Json::Array(items)
}

fn obj(members: Vec<(&str, Json)>) -> Json {
    Json::Object(members.into_iter().map(|(k, v)| (k.to_string(), v)).collect())
}

/// The coordinate an argument carries: a number, or a string that reads as one.
fn coordinate_of(args: &Json, key: &str) -> Option<Coordinate> {
    let value = match args.get(key)? {
        Json::Float(bits) => f64::from_bits(*bits),
        Json::PosInt(n) => *n as f64,
        Json::NegInt(n) => *n as f64,
        Json::Str(text) => text.parse::<f64>().ok()?,
        _ => return None,
    };
    Some(Coordinate { bits: value.to_bits(), text: value.to_string() })
}

fn as_f64(j: &Json) -> Option<f64> {
    match j {
        Json::Float(bits) => Some(f64::from_bits(*bits)),
        Json::PosInt(n) => Some(*n as f64),
        Json::NegInt(n) => Some(*n as f64),
        _ => None,
    }
}

fn plan(name: &str, args: &Json) -> CallPlan {
    let svc = WeatherService::with_base_urls("http://mock".to_string(), "http://mock".to_string());
    svc.plan_call(name, args, &coordinate_of(args, "latitude"), &coordinate_of(args, "longitude"))
}

/// The reply a call gets when the upstream answers with `answer` (JSON for
/// the forecast API, matches for the geocoder).
fn tool_call(name: &str, args: Json, json_answer: Option<Json>, matches: Option<Vec<GeocodingResult>>) -> Result<Json, String> {
    let outcome: Result<Json, WeatherError> = match plan(name, &args) {
        CallPlan::Reject(m) => return Err(m),
        CallPlan::Done(r) => r,
        CallPlan::Fetch(Upstream::Geocode { name, .. }) => finish_geocode(&name, Ok(matches)),
        CallPlan::Fetch(Upstream::Current(req)) => finish_current(&req, json_answer.ok_or("no answer".to_string())),
        CallPlan::Fetch(Upstream::Forecast(req)) => finish_forecast(&req, json_answer.ok_or("no answer".to_string())),
    };
    outcome.map_err(|e| e.message())
}

fn expect_err_contains(res: Result<Json, String>, needle: &str) {
    match res {
        Ok(_) => panic!("expected error containing '{needle}', but call succeeded"),
        Err(e) => {
            let lower = e.to_lowercase();
            assert!(
                lower.contains(&needle.to_lowercase()),
                "expected error containing '{needle}', got: {e}"
            );
        }
    }
}

fn tool_names() -> Vec<String> {
    build_service().tools().into_iter().map(|t| t.name).collect()
}

// ── server metadata ─────────────────────────────────────────────────────────

/// The server must advertise a non-empty `instructions` blurb so the daemon
/// can use it as the server's searchable description for tool discovery.
#[test]
fn test_server_config_has_non_empty_instructions() {
    let config = server_config();
    let instructions = config
        .instructions
        .as_deref()
        .expect("server_config must set instructions");
    assert!(
        !instructions.trim().is_empty(),
        "instructions blurb must not be blank"
    );
}

/// The instructions must name the tools and reflect the geocode-first
/// discovery pattern.
#[test]
fn test_server_config_instructions_mentions_key_tools_and_pattern() {
    let config = server_config();
    let instructions = config
        .instructions
        .as_deref()
        .expect("server_config must set instructions")
        .to_lowercase();

    for needle in [
        "weather_geocode",
        "weather_get_current",
        "weather_get_forecast",
        "forecast",
        "coordinates",
    ] {
        assert!(
            instructions.contains(needle),
            "instructions should mention '{needle}', got: {instructions}"
        );
    }
}

/// The in-process entry point builds a service that advertises the weather tool set.
#[test]
fn build_service_exposes_tools() {
    let svc = build_service();
    assert!(
        !svc.tools().is_empty(),
        "weather build_service() must expose at least one tool"
    );
}

/// The server announces itself by name.
#[test]
fn test_initialize_response_shape() {
    let config = server_config();
    assert_eq!(config.name, "weather-forecast-mcp", "unexpected serverInfo.name");
    assert!(!config.version.is_empty());
}

/// The tool list must hold the expected set of tool names.
#[test]
fn test_tools_list_contains_expected_tools() {
    let names = tool_names();
    let expected = [
        "weather_get_current",
        "weather_get_forecast",
        "weather_geocode",
        "weather_get_alerts",
    ];
    for expected_name in &expected {
        assert!(
            names.iter().any(|n| n == expected_name),
            "tool '{}' missing from tools/list. Got: {:?}",
            expected_name,
            names
        );
    }
    assert_eq!(names.len(), 4);
}

#[test]
fn tool_schemas_require_the_arguments_the_calls_need() {
    for tool in build_service().tools() {
        let required = tool.input_schema.get("required").and_then(|r| r.as_array()).expect("required");
        let required: Vec<&str> = required.iter().filter_map(|r| r.as_str()).collect();
        if tool.name == "weather_geocode" {
            assert_eq!(required, vec!["name"]);
        } else {
            assert_eq!(required, vec!["latitude", "longitude"]);
        }
        assert_eq!(tool.input_schema.get("type").and_then(|t| t.as_str()), Some("object"));
        assert!(!tool.description.is_empty());
    }
}

// ── dispatch ────────────────────────────────────────────────────────────────

/// An unknown tool name must return a not-found error.
#[test]
fn test_unknown_tool_returns_error() {
    let result = tool_call("nonexistent_tool", obj(vec![]), None, None);
    expect_err_contains(result, "not found");
}

#[test]
fn test_get_current_invalid_latitude() {
    let result = tool_call("weather_get_current", obj(vec![("latitude", num(999.0)), ("longitude", num(0.0))]), None, None);
    expect_err_contains(result, "latitude");
}

#[test]
fn test_get_current_invalid_longitude() {
    let result = tool_call("weather_get_current", obj(vec![("latitude", num(0.0)), ("longitude", num(999.0))]), None, None);
    expect_err_contains(result, "longitude");
}

#[test]
fn test_get_current_invalid_temperature_unit() {
    let result = tool_call(
        "weather_get_current",
        obj(vec![("latitude", num(51.5)), ("longitude", num(-0.1)), ("temperature_unit", s("kelvin"))]),
        None,
        None,
    );
    expect_err_contains(result, "temperature_unit");
}

#[test]
fn test_get_current_invalid_wind_speed_unit() {
    let result = tool_call(
        "weather_get_current",
        obj(vec![
            ("latitude", num(51.5)),
            ("longitude", num(-0.1)),
            ("wind_speed_unit", s("furlongs_per_fortnight")),
        ]),
        None,
        None,
    );
    expect_err_contains(result, "wind_speed_unit");
}

#[test]
fn test_get_current_missing_latitude() {
    let result = tool_call("weather_get_current", obj(vec![("longitude", num(-0.1))]), None, None);
    expect_err_contains(result, "latitude");
}

#[test]
fn test_get_current_missing_longitude() {
    let result = tool_call("weather_get_current", obj(vec![("latitude", num(51.5))]), None, None);
    expect_err_contains(result, "longitude");
}

#[test]
fn test_get_forecast_invalid_type() {
    let result = tool_call(
        "weather_get_forecast",
        obj(vec![("latitude", num(51.5)), ("longitude", num(-0.1)), ("forecast_type", s("minutely"))]),
        None,
        None,
    );
    expect_err_contains(result, "forecast_type");
}

#[test]
fn test_get_forecast_invalid_temperature_unit() {
    let result = tool_call(
        "weather_get_forecast",
        obj(vec![("latitude", num(51.5)), ("longitude", num(-0.1)), ("temperature_unit", s("rankine"))]),
        None,
        None,
    );
    expect_err_contains(result, "temperature_unit");
}

/// The alerts call completes (a result or an error), and never panics.
#[test]
fn test_get_alerts_invalid_latitude() {
    let _ = tool_call("weather_get_alerts", obj(vec![("latitude", num(51.5)), ("longitude", num(-0.1))]), None, None);
}

#[test]
fn test_geocode_missing_name() {
    let result = tool_call("weather_geocode", obj(vec![("count", uint(3))]), None, None);
    expect_err_contains(result, "name");
}

#[test]
fn coordinates_given_as_numeric_strings_are_read() {
    match plan("weather_get_current", &obj(vec![("latitude", s("51.5")), ("longitude", s("-0.1"))])) {
        CallPlan::Fetch(Upstream::Current(req)) => {
            assert!(req.url.starts_with("http://mock/v1/forecast?latitude=51.5&longitude=-0.1&"));
        }
        other => panic!("expected a request, got {other:?}"),
    }
}

#[test]
fn a_unit_that_is_not_a_string_falls_back_to_its_default() {
    match plan(
        "weather_get_current",
        &obj(vec![("latitude", num(1.0)), ("longitude", num(2.0)), ("temperature_unit", uint(5))]),
    ) {
        CallPlan::Fetch(Upstream::Current(req)) => assert_eq!(req.temperature_unit, "celsius"),
        other => panic!("expected a request, got {other:?}"),
    }
}

#[test]
fn forecast_days_default_by_resolution_and_accept_numeric_strings() {
    let url_of = |args: Json| match plan("weather_get_forecast", &args) {
        CallPlan::Fetch(Upstream::Forecast(req)) => req.url,
        other => panic!("expected a request, got {other:?}"),
    };
    let base = || vec![("latitude", num(1.0)), ("longitude", num(2.0))];
    assert!(url_of(obj(base())).ends_with("&forecast_days=7"));
    let mut hourly = base();
    hourly.push(("forecast_type", s("hourly")));
    assert!(url_of(obj(hourly)).ends_with("&forecast_days=1"));
    let mut days = base();
    days.push(("days", s("3")));
    assert!(url_of(obj(days)).ends_with("&forecast_days=3"));
    let mut many = base();
    many.push(("days", uint(4294967297)));
    assert!(url_of(obj(many)).ends_with("&forecast_days=1"));
}

#[test]
fn forecast_checks_coordinates_before_its_type() {
    let result = tool_call(
        "weather_get_forecast",
        obj(vec![("latitude", num(100.0)), ("longitude", num(0.0)), ("forecast_type", s("minutely"))]),
        None,
        None,
    );
    expect_err_contains(result, "latitude 100 is out of range");
}

#[test]
fn geocode_count_defaults_to_five_and_reads_strings() {
    match plan("weather_geocode", &obj(vec![("name", s("Paris"))])) {
        CallPlan::Fetch(Upstream::Geocode { url, name }) => {
            assert_eq!(url, "http://mock/v1/search?name=Paris&count=5&language=en&format=json");
            assert_eq!(name, "Paris");
        }
        other => panic!("expected a search, got {other:?}"),
    }
    match plan("weather_geocode", &obj(vec![("name", s("Paris")), ("count", s("+2")), ("language", s("fr"))])) {
        CallPlan::Fetch(Upstream::Geocode { url, .. }) => {
            assert_eq!(url, "http://mock/v1/search?name=Paris&count=2&language=fr&format=json");
        }
        other => panic!("expected a search, got {other:?}"),
    }
}

#[test]
fn value_as_u64_reads_numbers_and_numeric_strings() {
    assert_eq!(value_as_u64(&uint(7)), Some(7));
    assert_eq!(value_as_u64(&s("42")), Some(42));
    assert_eq!(value_as_u64(&s("+42")), Some(42));
    assert_eq!(value_as_u64(&s("18446744073709551615")), Some(u64::MAX));
    assert_eq!(value_as_u64(&s("18446744073709551616")), None);
    for bad in ["", "+", "-1", " 1", "1.5", "x1", "++1"] {
        assert_eq!(value_as_u64(&s(bad)), None, "{bad:?}");
    }
    assert_eq!(value_as_u64(&num(3.0)), None);
    assert_eq!(value_as_u64(&Json::NegInt(-3)), None);
    assert_eq!(value_as_u64(&Json::Null), None);
}

// ── answered calls (hand-built upstream answers, no network) ────────────────

fn london_current_answer() -> Json {
    obj(vec![
        ("latitude", num(51.5)),
        ("longitude", num(-0.120000124)),
        ("timezone", s("Europe/London")),
        ("timezone_abbreviation", s("GMT")),
        ("elevation", num(23.0)),
        ("current_units", obj(vec![("temperature_2m", s("°C")), ("wind_speed_10m", s("km/h"))])),
        (
            "current",
            obj(vec![
                ("time", s("2026-01-01T12:00")),
                ("temperature_2m", num(7.5)),
                ("relative_humidity_2m", uint(81)),
                ("weather_code", uint(3)),
                ("wind_speed_10m", num(14.2)),
                ("is_day", uint(1)),
            ]),
        ),
    ])
}

#[test]
fn test_geocode_london_network() {
    let matches = vec![GeocodingResult {
        name: "London".to_string(),
        latitude: 51.50853f64.to_bits(),
        longitude: (-0.12574f64).to_bits(),
        country: Some("United Kingdom".to_string()),
        admin1: Some("England".to_string()),
        elevation: Some(25.0f64.to_bits()),
    }];
    let result = tool_call("weather_geocode", obj(vec![("name", s("London")), ("count", uint(3))]), None, Some(matches))
        .expect("geocode London");
    let arr = result.as_array().expect("expected array of locations");
    assert!(!arr.is_empty(), "expected at least one geocode result");
    let first = &arr[0];
    assert_eq!(first.get("name").and_then(|v| v.as_str()), Some("London"), "first result name should be London");
    let lat = first.get("latitude").and_then(as_f64).unwrap();
    let lon = first.get("longitude").and_then(as_f64).unwrap();
    assert!((lat - 51.5).abs() < 1.0, "unexpected latitude for London: {}", lat);
    assert!((lon - (-0.12)).abs() < 1.0, "unexpected longitude for London: {}", lon);
}

#[test]
fn test_get_current_london_network() {
    let weather = tool_call(
        "weather_get_current",
        obj(vec![
            ("latitude", num(51.5074)),
            ("longitude", num(-0.1278)),
            ("temperature_unit", s("celsius")),
            ("wind_speed_unit", s("kmh")),
        ]),
        Some(london_current_answer()),
        None,
    )
    .expect("get current weather London");
    assert!(weather.get("temperature").is_some(), "missing temperature in response");
    assert!(weather.get("weather_description").is_some(), "missing weather_description");
    assert!(weather.get("wind_speed").is_some(), "missing wind_speed");
    assert!(weather.get("relative_humidity_pct").is_some(), "missing relative_humidity_pct");
    assert!(weather.get("units").is_some(), "missing units");
    let lat = weather.get("latitude").and_then(as_f64).unwrap();
    assert!((lat - 51.5074).abs() < 0.5, "unexpected latitude in response: {}", lat);
}

#[test]
fn test_get_daily_forecast_tokyo_network() {
    let answer = obj(vec![
        ("latitude", num(35.7)),
        ("longitude", num(139.6875)),
        (
            "daily",
            obj(vec![
                ("time", arr((1..=5).map(|d| s(&format!("2026-01-0{d}"))).collect())),
                ("weather_code", arr(vec![uint(1), uint(2), uint(3), uint(61), uint(0)])),
                ("temperature_2m_max", arr(vec![num(10.0), num(11.0), num(9.5), num(8.0), num(12.0)])),
                ("temperature_2m_min", arr(vec![num(2.0), num(3.0), num(1.5), num(0.0), num(4.0)])),
            ]),
        ),
    ]);
    let forecast = tool_call(
        "weather_get_forecast",
        obj(vec![("latitude", num(35.6895)), ("longitude", num(139.6917)), ("forecast_type", s("daily")), ("days", uint(5))]),
        Some(answer),
        None,
    )
    .expect("get daily forecast Tokyo");
    assert_eq!(forecast.get("forecast_type").and_then(|v| v.as_str()), Some("daily"), "expected forecast_type 'daily'");
    let days = forecast.get("days").and_then(|v| v.as_array()).expect("expected 'days' array");
    assert!(!days.is_empty(), "expected at least one day in forecast");
    assert!(days.len() <= 5, "expected at most 5 days (requested 5), got {}", days.len());
    let first = &days[0];
    assert!(first.get("date").is_some(), "missing date in day");
    assert!(first.get("weather_description").is_some(), "missing weather_description in day");
    assert!(first.get("temperature_max").is_some(), "missing temperature_max in day");
    assert!(first.get("temperature_min").is_some(), "missing temperature_min in day");
}

#[test]
fn test_get_hourly_forecast_network() {
    let times: Vec<Json> = (0..48).map(|h| s(&format!("T{h:02}"))).collect();
    let temps: Vec<Json> = (0..48).map(|h| num(h as f64 / 2.0)).collect();
    let answer = obj(vec![(
        "hourly",
        obj(vec![("time", arr(times)), ("temperature_2m", arr(temps)), ("weather_code", arr((0..48).map(|_| uint(0)).collect()))]),
    )]);
    let forecast = tool_call(
        "weather_get_forecast",
        obj(vec![
            ("latitude", num(48.8566)),
            ("longitude", num(2.3522)),
            ("forecast_type", s("hourly")),
            ("days", uint(2)),
            ("temperature_unit", s("celsius")),
        ]),
        Some(answer),
        None,
    )
    .expect("get hourly forecast Paris");
    assert_eq!(forecast.get("forecast_type").and_then(|v| v.as_str()), Some("hourly"), "expected forecast_type 'hourly'");
    let hours = forecast.get("hours").and_then(|v| v.as_array()).expect("expected 'hours' array");
    assert!(hours.len() >= 24, "expected at least 24 hourly entries, got {}", hours.len());
    let first = &hours[0];
    assert!(first.get("time").is_some(), "missing time in hour");
    assert!(first.get("temperature").is_some(), "missing temperature in hour");
    assert!(first.get("weather_description").is_some(), "missing weather_description in hour");
}

#[test]
fn test_get_alerts_response_shape_network() {
    let alerts = tool_call(
        "weather_get_alerts",
        obj(vec![("latitude", num(37.7749)), ("longitude", num(-122.4194))]),
        None,
        None,
    )
    .expect("get alerts San Francisco");
    assert!(alerts.get("latitude").is_some(), "missing latitude in alerts response");
    assert!(alerts.get("longitude").is_some(), "missing longitude in alerts response");
    assert!(alerts.get("alerts").is_some(), "missing alerts array in response");
}

#[test]
fn test_get_current_fahrenheit_units_network() {
    let answer = obj(vec![
        ("latitude", num(40.71)),
        ("current", obj(vec![("temperature_2m", num(41.0)), ("weather_code", uint(0))])),
    ]);
    let weather = tool_call(
        "weather_get_current",
        obj(vec![
            ("latitude", num(40.7128)),
            ("longitude", num(-74.0060)),
            ("temperature_unit", s("fahrenheit")),
            ("wind_speed_unit", s("mph")),
        ]),
        Some(answer),
        None,
    )
    .expect("get current weather New York in Fahrenheit");
    let units = weather.get("units").expect("missing units");
    assert_eq!(units.get("temperature").and_then(|v| v.as_str()), Some("°F"), "expected Fahrenheit temperature unit label");
}

#[test]
fn test_geocode_nonexistent_location_network() {
    let result = tool_call(
        "weather_geocode",
        obj(vec![("name", s("xyzzy_nonexistent_place_00000"))]),
        None,
        Some(Vec::new()),
    );
    assert!(result.is_err(), "expected error for nonexistent location, but got success");
}

#[test]
fn a_transport_failure_is_an_http_error() {
    match plan("weather_get_current", &obj(vec![("latitude", num(1.0)), ("longitude", num(2.0))])) {
        CallPlan::Fetch(Upstream::Current(req)) => {
            let err = finish_current(&req, Err("error decoding response body".to_string())).expect_err("http");
            assert_eq!(err.message(), "HTTP error: error decoding response body");
        }
        other => panic!("expected a request, got {other:?}"),
    }
}

#[test]
fn forecast_request_remembers_its_resolution() {
    match plan("weather_get_forecast", &obj(vec![("latitude", num(1.0)), ("longitude", num(2.0)), ("forecast_type", s("hourly"))])) {
        CallPlan::Fetch(Upstream::Forecast(req)) => {
            assert_eq!(req.forecast_type, ForecastType::Hourly);
            let err = finish_forecast(&req, Ok(obj(vec![]))).expect_err("no hourly data");
            assert_eq!(err.message(), "Forecast unavailable: No hourly data in response");
        }
        other => panic!("expected a request, got {other:?}"),
    }
}

#[test]
fn every_request_goes_to_its_configured_host() {
    let svc = WeatherService::with_base_urls("http://geo.local:9".to_string(), "http://wx.local:9".to_string());
    let coords = obj(vec![("latitude", num(48.85)), ("longitude", num(2.35))]);
    let la = coordinate_of(&coords, "latitude");
    let lo = coordinate_of(&coords, "longitude");
    match svc.plan_call("weather_geocode", &obj(vec![("name", s("Paris"))]), &None, &None) {
        CallPlan::Fetch(Upstream::Geocode { url, .. }) => assert!(url.starts_with("http://geo.local:9/v1/search")),
        other => panic!("expected a search, got {other:?}"),
    }
    match svc.plan_call("weather_get_current", &coords, &la, &lo) {
        CallPlan::Fetch(Upstream::Current(req)) => assert!(req.url.starts_with("http://wx.local:9/v1/forecast")),
        other => panic!("expected a request, got {other:?}"),
    }
    match svc.plan_call("weather_get_forecast", &coords, &la, &lo) {
        CallPlan::Fetch(Upstream::Forecast(req)) => assert!(req.url.starts_with("http://wx.local:9/v1/forecast")),
        other => panic!("expected a request, got {other:?}"),
    }
    assert!(matches!(svc.plan_call("weather_get_alerts", &coords, &la, &lo), CallPlan::Done(Ok(_))));
}

#[test]
fn the_catalogue_is_well_formed() {
    let tools = build_service().tools();
    for (i, a) in tools.iter().enumerate() {
        for b in &tools[i + 1..] {
            assert_ne!(a.name, b.name);
        }
        let properties = a.input_schema.get("properties").expect("properties");
        let required = a.input_schema.get("required").and_then(|r| r.as_array()).expect("required");
        for key in required {
            assert!(properties.get(key.as_str().expect("a name")).is_some(), "{}", a.name);
        }
        let choices = |key: &str| -> Vec<String> {
            properties
                .get(key)
                .and_then(|p| p.get("enum"))
                .and_then(|e| e.as_array())
                .map(|e| e.iter().map(|v| v.as_str().expect("a unit").to_string()).collect())
                .unwrap_or_default()
        };
        for unit in choices("temperature_unit") {
            assert!(validate_temperature_unit(&unit).is_ok(), "{unit}");
        }
        for unit in choices("wind_speed_unit") {
            assert!(validate_wind_speed_unit(&unit).is_ok(), "{unit}");
        }
        if a.name == "weather_get_current" || a.name == "weather_get_forecast" {
            assert_eq!(choices("temperature_unit"), vec!["celsius", "fahrenheit"]);
            assert_eq!(choices("wind_speed_unit"), vec!["kmh", "ms", "mph", "kn"]);
        }
    }
}
