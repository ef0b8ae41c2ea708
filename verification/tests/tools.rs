use weather_forecast_mcp::coordinate::Coordinate;
use weather_forecast_mcp::error::WeatherError;
use weather_forecast_mcp::json::Json;
use weather_forecast_mcp::service::Upstream;
use weather_forecast_mcp::tools::{mcp_tool_result_json, registry_reply, McpError, RegistryPlan, ToolRegistry};

fn s(text: &str) -> Json {
    Json::Str(text.to_string())
}

fn num(x: f64) -> Json {
    Json::Float(x.to_bits())
}

fn obj(members: Vec<(&str, Json)>) -> Json {
    Json::Object(members.into_iter().map(|(k, v)| (k.to_string(), v)).collect())
}

fn coord(x: f64) -> Option<Coordinate> {
    Some(Coordinate { bits: x.to_bits(), text: x.to_string() })
}

#[test]
fn registry_lists_four_tools_in_mcp_format() {
    let listing = ToolRegistry::new().list_tools();
    let tools = listing.as_array().expect("array");
    let names: Vec<&str> = tools.iter().filter_map(|t| t.get("name").and_then(|n| n.as_str())).collect();
    assert_eq!(names, vec!["weather_get_current", "weather_get_forecast", "weather_geocode", "weather_get_alerts"]);
    for tool in tools {
        let schema = tool.get("inputSchema").expect("inputSchema");
        assert_eq!(schema.get("type").and_then(|t| t.as_str()), Some("object"));
        assert!(tool.get("description").and_then(|d| d.as_str()).is_some());
    }
    let forecast_days = tools[1]
        .get("inputSchema")
        .and_then(|s| s.get("properties"))
        .and_then(|p| p.get("days"))
        .and_then(|d| d.get("description"))
        .and_then(|d| d.as_str());
    assert_eq!(
        forecast_days,
        Some("Number of forecast days. Range: 1-16 (default: 7). Clamped to valid range automatically.")
    );
}

#[test]
fn registry_refuses_unknown_tools_and_missing_arguments() {
    let registry = ToolRegistry::default();
    match registry.plan_tool("nope", &obj(vec![]), &None, &None) {
        RegistryPlan::Fail(e) => {
            assert!(matches!(e, McpError::ToolNotFound(_)));
            assert_eq!(e.message(), "Tool not found: nope");
        }
        other => panic!("expected a failure, got {other:?}"),
    }
    match registry.plan_tool("weather_get_current", &obj(vec![]), &None, &coord(1.0)) {
        RegistryPlan::Fail(e) => assert_eq!(e.message(), "Missing required parameter: latitude"),
        other => panic!("expected a failure, got {other:?}"),
    }
    match registry.plan_tool("weather_geocode", &obj(vec![]), &None, &None) {
        RegistryPlan::Fail(e) => assert_eq!(e.message(), "Missing required parameter: name"),
        other => panic!("expected a failure, got {other:?}"),
    }
    match registry.plan_tool("weather_get_forecast", &obj(vec![("forecast_type", s("weekly"))]), &coord(1.0), &coord(2.0)) {
        RegistryPlan::Fail(e) => assert_eq!(e.message(), "Invalid forecast_type 'weekly'. Use 'daily' or 'hourly'."),
        other => panic!("expected a failure, got {other:?}"),
    }
    match registry.plan_tool("weather_get_current", &obj(vec![("temperature_unit", s("kelvin"))]), &coord(1.0), &coord(2.0)) {
        RegistryPlan::Fail(e) => assert!(matches!(e, McpError::Weather(WeatherError::InvalidParameters(_)))),
        other => panic!("expected a failure, got {other:?}"),
    }
}

#[test]
fn registry_forecasts_default_to_seven_days_at_the_production_host() {
    let registry = ToolRegistry::new();
    match registry.plan_tool("weather_get_forecast", &obj(vec![("forecast_type", s("hourly"))]), &coord(1.0), &coord(2.0)) {
        RegistryPlan::Fetch(Upstream::Forecast(req)) => {
            assert!(req.url.starts_with("https://api.open-meteo.com/v1/forecast?latitude=1&longitude=2&hourly="));
            assert!(req.url.ends_with("&forecast_days=7"));
        }
        other => panic!("expected a request, got {other:?}"),
    }
    match registry.plan_tool("weather_geocode", &obj(vec![("name", s("Oslo"))]), &None, &None) {
        RegistryPlan::Fetch(Upstream::Geocode { url, .. }) => {
            assert_eq!(url, "https://geocoding-api.open-meteo.com/v1/search?name=Oslo&count=5&language=en&format=json");
        }
        other => panic!("expected a request, got {other:?}"),
    }
}

#[test]
fn registry_replies_are_wrapped_as_mcp_content() {
    let registry = ToolRegistry::new();
    match registry.plan_tool("weather_get_alerts", &obj(vec![]), &coord(10.0), &coord(20.0)) {
        RegistryPlan::Reply(reply) => {
            let content = reply.get("content").and_then(|c| c.as_array()).expect("content");
            assert_eq!(content.len(), 1);
            assert_eq!(content[0].get("type").and_then(|t| t.as_str()), Some("json"));
            let value = content[0].get("value").expect("value");
            assert_eq!(value.get("latitude"), Some(&num(10.0)));
        }
        other => panic!("expected a reply, got {other:?}"),
    }
    let wrapped = mcp_tool_result_json(s("x"));
    assert_eq!(wrapped, obj(vec![("content", Json::Array(vec![obj(vec![("type", s("json")), ("value", s("x"))])]))]));
    let failed = registry_reply(Err(WeatherError::ApiError("true: slow down".to_string()))).expect_err("fails");
    assert_eq!(failed.message(), "API error: true: slow down");
}
