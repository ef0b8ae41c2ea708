use weather_forecast_mcp::coordinate::Coordinate;
use weather_forecast_mcp::error::WeatherError;
use weather_forecast_mcp::json::Json;
use weather_forecast_mcp::operations::geocode::GeocodingResult;
use weather_forecast_mcp::service::{
    finish_current, finish_forecast, finish_geocode, CallPlan, Upstream, WeatherService,
};
use weather_forecast_mcp::telemetry::{record_upstream_failure, request_log, Level, LogEvent};

const MOCK: &str = "http://127.0.0.1:4567";

const SENTINEL_NAME: &str = "MARKER-weather-geocode-9f3d1c2a";
const FAILURE_SENTINEL_NAME: &str = "MARKER-weather-geocode-fail-3c7a1b9e";
const SENTINEL_LAT: f64 = 12.345678;
const SENTINEL_LON: f64 = 65.432109;
const RATE_LIMIT_LAT: f64 = 44.556677;
const MALFORMED_LAT: f64 = 55.667788;
const INVALID_LAT: f64 = 999999.0;

#[derive(Clone, Copy, Debug, PartialEq, Eq)]
enum Expect {
    Success,
    Failure,
}

struct ToolCase {
    tool: &'static str,
    expect: Expect,
    arguments: Json,
    sentinel: String,
}

fn s(text: &str) -> Json {
    Json::Str(text.to_string())
}

fn num(x: f64) -> Json {
    Json::Float(x.to_bits())
}

fn uint(n: u64) -> Json {
    Json::PosInt(n)
}

fn obj(members: Vec<(&str, Json)>) -> Json {
    Json::Object(members.into_iter().map(|(k, v)| (k.to_string(), v)).collect())
}

fn coordinate_of(args: &Json, key: &str) -> Option<Coordinate> {
    let value = match args.get(key)? {
        Json::Float(bits) => f64::from_bits(*bits),
        Json::PosInt(n) => *n as f64,
        _ => return None,
    };
    Some(Coordinate { bits: value.to_bits(), text: value.to_string() })
}

fn tool_cases() -> Vec<ToolCase> {
    vec![
        ToolCase {
            tool: "weather_geocode",
            expect: Expect::Success,
            arguments: obj(vec![("name", s(SENTINEL_NAME)), ("count", uint(1))]),
            sentinel: SENTINEL_NAME.to_string(),
        },
        ToolCase {
            tool: "weather_geocode",
            expect: Expect::Failure,
            arguments: obj(vec![("name", s(FAILURE_SENTINEL_NAME)), ("count", uint(1))]),
            sentinel: FAILURE_SENTINEL_NAME.to_string(),
        },
        ToolCase {
            tool: "weather_get_current",
            expect: Expect::Success,
            arguments: obj(vec![("latitude", num(SENTINEL_LAT)), ("longitude", num(SENTINEL_LON))]),
            sentinel: SENTINEL_LAT.to_string(),
        },
        ToolCase {
            tool: "weather_get_current",
            expect: Expect::Failure,
            arguments: obj(vec![("latitude", num(RATE_LIMIT_LAT)), ("longitude", num(SENTINEL_LON))]),
            sentinel: RATE_LIMIT_LAT.to_string(),
        },
        ToolCase {
            tool: "weather_get_forecast",
            expect: Expect::Success,
            arguments: obj(vec![
                ("latitude", num(SENTINEL_LAT)),
                ("longitude", num(SENTINEL_LON)),
                ("forecast_type", s("daily")),
                ("days", uint(1)),
            ]),
            sentinel: SENTINEL_LAT.to_string(),
        },
        ToolCase {
            tool: "weather_get_forecast",
            expect: Expect::Failure,
            arguments: obj(vec![
                ("latitude", num(MALFORMED_LAT)),
                ("longitude", num(SENTINEL_LON)),
                ("forecast_type", s("daily")),
                ("days", uint(1)),
            ]),
            sentinel: MALFORMED_LAT.to_string(),
        },
        ToolCase {
            tool: "weather_get_alerts",
            expect: Expect::Success,
            arguments: obj(vec![("latitude", num(SENTINEL_LAT)), ("longitude", num(SENTINEL_LON))]),
            sentinel: SENTINEL_LAT.to_string(),
        },
        ToolCase {
            tool: "weather_get_alerts",
            expect: Expect::Failure,
            arguments: obj(vec![("latitude", num(INVALID_LAT)), ("longitude", num(SENTINEL_LON))]),
            sentinel: "999999".to_string(),
        },
    ]
}

fn registered_tool_names() -> Vec<String> {
    weather_forecast_mcp::build_service().tools().into_iter().map(|t| t.name).collect()
}

/// The local stand-in for both Open-Meteo endpoints: it answers by the
/// latitude or name the request carries.
fn mock_forecast_answer(url: &str) -> Result<Json, String> {
    if url.contains(&format!("latitude={SENTINEL_LAT}&")) {
        Ok(obj(vec![
            ("latitude", num(12.34)),
            ("current", obj(vec![("temperature_2m", num(20.0)), ("weather_code", uint(0))])),
            ("daily", obj(vec![("time", Json::Array(vec![s("2026-01-01")]))])),
        ]))
    } else if url.contains(&format!("latitude={RATE_LIMIT_LAT}&")) {
        Ok(obj(vec![
            ("error", Json::Bool(true)),
            ("reason", s(&format!("Minutely API request limit exceeded for latitude={RATE_LIMIT_LAT}"))),
        ]))
    } else if url.contains(&format!("latitude={MALFORMED_LAT}&")) {
        Ok(obj(vec![("latitude", num(MALFORMED_LAT)), ("timezone", s("Etc/UTC"))]))
    } else {
        Err(format!("error decoding response body for url ({url})"))
    }
}

fn mock_geocode_answer(name: &str) -> Result<Option<Vec<GeocodingResult>>, String> {
    if name == SENTINEL_NAME {
        Ok(Some(vec![GeocodingResult {
            name: "Fictitious Springs".to_string(),
            latitude: 12.34f64.to_bits(),
            longitude: 56.78f64.to_bits(),
            country: Some("Testland".to_string()),
            admin1: Some("Example Province".to_string()),
            elevation: Some(100.0f64.to_bits()),
        }]))
    } else {
        Ok(Some(Vec::new()))
    }
}

/// Run one call against the mock, collecting the log events the library
/// asks for along the way.
fn run(case_tool: &str, arguments: &Json, events: &mut Vec<LogEvent>) -> Result<Json, WeatherError> {
    let svc = WeatherService::with_base_urls(MOCK.to_string(), MOCK.to_string());
    let plan = svc.plan_call(
        case_tool,
        arguments,
        &coordinate_of(arguments, "latitude"),
        &coordinate_of(arguments, "longitude"),
    );
    match plan {
        CallPlan::Reject(m) => Err(WeatherError::InvalidParameters(m)),
        CallPlan::Done(r) => r,
        CallPlan::Fetch(up) => {
            events.push(request_log(&up));
            match up {
                Upstream::Geocode { name, .. } => finish_geocode(&name, mock_geocode_answer(&name)),
                Upstream::Current(req) => finish_current(&req, mock_forecast_answer(&req.url)),
                Upstream::Forecast(req) => finish_forecast(&req, mock_forecast_answer(&req.url)),
            }
        }
    }
}

#[test]
fn tool_cases_cover_every_registered_tool() {
    let mut cases: Vec<&str> = tool_cases().iter().map(|c| c.tool).collect();
    cases.sort_unstable();
    cases.dedup();

    let mut registered = registered_tool_names();
    registered.sort_unstable();
    registered.dedup();

    assert_eq!(
        cases, registered,
        "tool_cases must list exactly the tools WeatherService::tools() registers"
    );
}

#[test]
fn tool_cases_cover_every_registered_tool_on_both_branches() {
    for tool in registered_tool_names() {
        let branches: Vec<Expect> = tool_cases()
            .into_iter()
            .filter(|c| c.tool == tool)
            .map(|c| c.expect)
            .collect();
        assert!(branches.contains(&Expect::Success), "{tool} has no Expect::Success row");
        assert!(branches.contains(&Expect::Failure), "{tool} has no Expect::Failure row");
    }
}

/// Every row marked `Expect::Failure` really fails, and every success row succeeds.
#[test]
fn failure_cases_actually_fail() {
    let mut events = Vec::new();
    let cases = tool_cases();
    let expected_failures = cases.iter().filter(|c| c.expect == Expect::Failure).count();
    let mut observed_failures = 0;
    for case in &cases {
        let outcome = run(case.tool, &case.arguments, &mut events);
        assert_eq!(outcome.is_err(), case.expect == Expect::Failure, "{} {:?}", case.tool, case.expect);
        if outcome.is_err() {
            observed_failures += 1;
        }
    }
    assert_eq!(observed_failures, expected_failures);
}

/// A transport-level fault: the description the transport gives embeds the
/// request URL, which must stay below INFO while still reaching DEBUG.
#[test]
fn network_fault_does_not_leak_the_upstream_url_above_debug() {
    let fault_lat = 77.889900_f64;
    let mut events = Vec::new();
    let outcome = run(
        "weather_get_current",
        &obj(vec![("latitude", num(fault_lat)), ("longitude", num(65.432109))]),
        &mut events,
    );
    let err = outcome.expect_err("a non-JSON answer is a transport fault");
    assert!(matches!(err, WeatherError::Http(_)));
    let bump = record_upstream_failure("weather_get_current", &Err(err)).expect("counted");
    assert_eq!(bump.reason, "network");
    assert!(!bump.tool.contains(MOCK) && !bump.reason.contains(MOCK));

    let url_sentinel = MOCK;
    for event in &events {
        if matches!(event.level, Level::Debug | Level::Trace) {
            continue;
        }
        for (key, value) in &event.fields {
            assert!(!value.contains(url_sentinel), "the upstream URL reached a {:?} line, field {key:?}", event.level);
        }
    }
    let at_debug = events.iter().any(|event| {
        event.level == Level::Debug && event.fields.iter().any(|(_, value)| value.contains(url_sentinel))
    });
    assert!(at_debug, "the upstream URL must still be reachable at DEBUG: {events:?}");
}
