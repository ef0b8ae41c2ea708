//! The self-contained tool registry: its own tool listing, and a dispatcher
//! that answers every tool with a reply wrapped as MCP content.
//!
//! Unlike [`crate::service::WeatherService`], the registry has no configured
//! hosts (it speaks to the production Open-Meteo hosts), takes every argument
//! as given without checking units up front, and defaults a forecast to seven
//! days whatever its resolution.

use vstd::prelude::*;

use crate::coordinate::Coordinate;
use crate::error::{ErrorKind, WeatherError, error_message};
use crate::json::{Json, JsonV, member, members_view, outcome_view, str_eq, string};
use crate::operations::alerts::{alerts_outcome, get_alerts};
use crate::operations::current::{current_request, current_url, parameters_outcome};
use crate::operations::forecast::{ForecastType, clamp_days, forecast_request, forecast_url};
use crate::operations::geocode::{clamp_count, geocode_url, geocode_url_for};
use crate::service::{
    ALERTS_TOOL, COUNT_HELP, CURRENT_DESCRIPTION, CURRENT_TOOL, DEFAULT_FORECAST_BASE_URL,
    DEFAULT_GEOCODING_BASE_URL, FORECAST_DESCRIPTION, FORECAST_TOOL, GEOCODE_TOOL, LANGUAGE_HELP,
    LATITUDE_HELP, LONGITUDE_HELP, TEMPERATURE_UNIT_HELP, ALERTS_DESCRIPTION, Upstream, WIND_SPEED_UNIT_HELP,
    coordinate_schema_required, coordinates_required, forecast_type_arg, forecast_type_detail, message_text,
    missing, object_schema, object_schema_view, property, property_view, str_arg, string_arg, text_or,
    u64_arg_or, u64_arg_or_default,
};
use crate::text::push_str;

verus! {

pub const REGISTRY_GEOCODE_DESCRIPTION: &'static str = "Resolve a location name (city, region, or place) to geographic coordinates (latitude and longitude) using the Open-Meteo geocoding API. Returns up to 'count' matching locations with their coordinates, country, region, and elevation. Use the returned latitude/longitude with weather_get_current or weather_get_forecast.";

pub const REGISTRY_NAME_HELP: &'static str = "Location name to search for. Can be a city, town, region, or place name. Example: 'London', 'New York', 'Tokyo'.";

pub const REGISTRY_FORECAST_TYPE_HELP: &'static str = "Forecast resolution. One of: 'daily' (default), 'hourly'.";

pub const REGISTRY_DAYS_HELP: &'static str = "Number of forecast days. Range: 1-16 (default: 7). Clamped to valid range automatically.";

/// One entry of the registry's listing.
pub open spec fn listing_entry(name: Seq<char>, description: Seq<char>, schema: JsonV) -> JsonV {
    JsonV::Object(
        seq![("description"@, JsonV::Str(description)), ("inputSchema"@, schema), ("name"@, JsonV::Str(name))],
    )
}

/// The arguments of a tool that takes a place by its coordinates alone.
pub open spec fn coordinates_properties() -> Seq<(Seq<char>, JsonV)> {
    seq![
        ("latitude"@, property_view("number"@, LATITUDE_HELP@)),
        ("longitude"@, property_view("number"@, LONGITUDE_HELP@)),
    ]
}

/// The registry's tool listing, in MCP format.
pub open spec fn registry_listing() -> JsonV {
    JsonV::Array(
        seq![
            listing_entry(
                CURRENT_TOOL@,
                CURRENT_DESCRIPTION@,
                object_schema_view(
                    coordinates_properties() + seq![
                        ("temperature_unit"@, property_view("string"@, TEMPERATURE_UNIT_HELP@)),
                        ("wind_speed_unit"@, property_view("string"@, WIND_SPEED_UNIT_HELP@)),
                    ],
                    coordinates_required(),
                ),
            ),
            listing_entry(
                FORECAST_TOOL@,
                FORECAST_DESCRIPTION@,
                object_schema_view(
                    seq![
                        ("days"@, property_view("number"@, REGISTRY_DAYS_HELP@)),
                        ("forecast_type"@, property_view("string"@, REGISTRY_FORECAST_TYPE_HELP@)),
                    ] + coordinates_properties() + seq![
                        ("temperature_unit"@, property_view("string"@, TEMPERATURE_UNIT_HELP@)),
                        ("wind_speed_unit"@, property_view("string"@, WIND_SPEED_UNIT_HELP@)),
                    ],
                    coordinates_required(),
                ),
            ),
            listing_entry(
                GEOCODE_TOOL@,
                REGISTRY_GEOCODE_DESCRIPTION@,
                object_schema_view(
                    seq![
                        ("count"@, property_view("number"@, COUNT_HELP@)),
                        ("language"@, property_view("string"@, LANGUAGE_HELP@)),
                        ("name"@, property_view("string"@, REGISTRY_NAME_HELP@)),
                    ],
                    seq!["name"@],
                ),
            ),
            listing_entry(
                ALERTS_TOOL@,
                ALERTS_DESCRIPTION@,
                object_schema_view(coordinates_properties(), coordinates_required()),
            ),
        ],
    )
}

/// A failed tool call of the registry.
#[derive(Debug)]
pub enum McpError {
    /// No tool has that name.
    ToolNotFound(String),
    /// A required argument is missing or an argument has an unsupported value.
    InvalidToolParameters(String),
    /// The weather operation failed.
    Weather(WeatherError),
}

/// The view of an [`McpError`].
pub enum McpErrorV {
    ToolNotFound(Seq<char>),
    InvalidToolParameters(Seq<char>),
    Weather((ErrorKind, Seq<char>)),
}

impl View for McpError {
    type V = McpErrorV;

    open spec fn view(&self) -> McpErrorV {
        match self {
            McpError::ToolNotFound(n) => McpErrorV::ToolNotFound(n@),
            McpError::InvalidToolParameters(m) => McpErrorV::InvalidToolParameters(m@),
            McpError::Weather(e) => McpErrorV::Weather(e@),
        }
    }
}

/// The message of a failed tool call.
pub open spec fn mcp_error_message(e: McpErrorV) -> Seq<char> {
    match e {
        McpErrorV::ToolNotFound(n) => "Tool not found: "@ + n,
        McpErrorV::InvalidToolParameters(m) => m,
        McpErrorV::Weather(w) => error_message(w),
    }
}

impl McpError {
    /// The message of this failure.
    pub fn message(&self) -> (r: String)
        ensures
            r@ == mcp_error_message(self@),
    {
        match self {
            McpError::ToolNotFound(n) => message_text("Tool not found: ", n.as_str()),
            McpError::InvalidToolParameters(m) => m.clone(),
            McpError::Weather(w) => w.message(),
        }
    }
}

/// What it takes to answer a call made through the registry.
#[derive(Debug)]
pub enum RegistryPlan {
    /// The call fails without reaching the network.
    Fail(McpError),
    /// The call is answered without the network, with this (wrapped) reply.
    Reply(Json),
    /// The call needs the upstream answer to this request.
    Fetch(Upstream),
}

/// The view of a [`RegistryPlan`].
pub enum RegistryPlanV {
    Fail(McpErrorV),
    Reply(JsonV),
    Geocode { url: Seq<char>, name: Seq<char> },
    Current { url: Seq<char>, temperature_unit: Seq<char>, wind_speed_unit: Seq<char> },
    Forecast { url: Seq<char>, forecast_type: ForecastType, temperature_unit: Seq<char>, wind_speed_unit: Seq<char> },
}

impl View for RegistryPlan {
    type V = RegistryPlanV;

    open spec fn view(&self) -> RegistryPlanV {
        match self {
            RegistryPlan::Fail(e) => RegistryPlanV::Fail(e@),
            RegistryPlan::Reply(j) => RegistryPlanV::Reply(j@),
            RegistryPlan::Fetch(Upstream::Geocode { url, name }) => RegistryPlanV::Geocode { url: url@, name: name@ },
            RegistryPlan::Fetch(Upstream::Current(req)) => RegistryPlanV::Current {
                url: req.url@,
                temperature_unit: req.temperature_unit@,
                wind_speed_unit: req.wind_speed_unit@,
            },
            RegistryPlan::Fetch(Upstream::Forecast(req)) => RegistryPlanV::Forecast {
                url: req.url@,
                forecast_type: req.forecast_type,
                temperature_unit: req.temperature_unit@,
                wind_speed_unit: req.wind_speed_unit@,
            },
        }
    }
}

/// A value wrapped in the MCP tool result content format.
pub open spec fn tool_result_view(value: JsonV) -> JsonV {
    JsonV::Object(
        seq![
            ("content"@, JsonV::Array(seq![
                JsonV::Object(seq![("type"@, JsonV::Str("json"@)), ("value"@, value)]),
            ])),
        ],
    )
}

/// Wrap a JSON value in the MCP tool result content format.
pub fn mcp_tool_result_json(value: Json) -> (r: Json)
    ensures
        r@ == tool_result_view(value@),
{
    let ghost v = value@;
    let entry = vec![member("type", string("json")), member("value", value)];
    assert(members_view(entry) =~= seq![("type"@, JsonV::Str("json"@)), ("value"@, v)]);
    let content = vec![Json::Object(entry)];
    assert(crate::json::elements_view(content) =~= seq![
        JsonV::Object(seq![("type"@, JsonV::Str("json"@)), ("value"@, v)]),
    ]);
    let outer = vec![member("content", Json::Array(content))];
    assert(members_view(outer) =~= match tool_result_view(v) {
        JsonV::Object(m) => m,
        _ => Seq::empty(),
    });
    Json::Object(outer)
}

/// How the registry answers a call of a coordinate tool whose coordinate is missing.
pub open spec fn coordinates_missing(latitude: Option<Coordinate>, longitude: Option<Coordinate>) -> Option<Seq<char>> {
    if latitude is None {
        Some(missing("latitude"@))
    } else if longitude is None {
        Some(missing("longitude"@))
    } else {
        None
    }
}

/// How the registry answers a call of the tool `name`.
pub open spec fn registry_plan(name: Seq<char>, args: JsonV, latitude: Option<Coordinate>, longitude: Option<Coordinate>) -> RegistryPlanV {
    if name == CURRENT_TOOL@ {
        if coordinates_missing(latitude, longitude) is Some {
            RegistryPlanV::Fail(McpErrorV::InvalidToolParameters(coordinates_missing(latitude, longitude)->0))
        } else {
            let t = text_or(str_arg(args, "temperature_unit"@), "celsius"@);
            let w = text_or(str_arg(args, "wind_speed_unit"@), "kmh"@);
            match parameters_outcome(latitude->0, longitude->0, t, w) {
                Some(e) => RegistryPlanV::Fail(McpErrorV::Weather(e)),
                None => RegistryPlanV::Current {
                    url: current_url(DEFAULT_FORECAST_BASE_URL@, latitude->0.text@, longitude->0.text@, t, w),
                    temperature_unit: t,
                    wind_speed_unit: w,
                },
            }
        }
    } else if name == FORECAST_TOOL@ {
        if coordinates_missing(latitude, longitude) is Some {
            RegistryPlanV::Fail(McpErrorV::InvalidToolParameters(coordinates_missing(latitude, longitude)->0))
        } else {
            match forecast_type_arg(args) {
                Err(kind) => RegistryPlanV::Fail(McpErrorV::InvalidToolParameters(forecast_type_detail(kind))),
                Ok(forecast_type) => {
                    let days = u64_arg_or(args, "days"@, 7) as u32;
                    let t = text_or(str_arg(args, "temperature_unit"@), "celsius"@);
                    let w = text_or(str_arg(args, "wind_speed_unit"@), "kmh"@);
                    match parameters_outcome(latitude->0, longitude->0, t, w) {
                        Some(e) => RegistryPlanV::Fail(McpErrorV::Weather(e)),
                        None => RegistryPlanV::Forecast {
                            url: forecast_url(
                                DEFAULT_FORECAST_BASE_URL@,
                                latitude->0.text@,
                                longitude->0.text@,
                                forecast_type,
                                t,
                                w,
                                clamp_days(days),
                            ),
                            forecast_type,
                            temperature_unit: t,
                            wind_speed_unit: w,
                        },
                    }
                },
            }
        }
    } else if name == GEOCODE_TOOL@ {
        match str_arg(args, "name"@) {
            None => RegistryPlanV::Fail(McpErrorV::InvalidToolParameters(missing("name"@))),
            Some(n) => RegistryPlanV::Geocode {
                url: geocode_url(
                    DEFAULT_GEOCODING_BASE_URL@,
                    n,
                    clamp_count(u64_arg_or(args, "count"@, 5) as u32),
                    text_or(str_arg(args, "language"@), "en"@),
                ),
                name: n,
            },
        }
    } else if name == ALERTS_TOOL@ {
        if coordinates_missing(latitude, longitude) is Some {
            RegistryPlanV::Fail(McpErrorV::InvalidToolParameters(coordinates_missing(latitude, longitude)->0))
        } else {
            match alerts_outcome(latitude->0, longitude->0) {
                Err(e) => RegistryPlanV::Fail(McpErrorV::Weather(e)),
                Ok(report) => RegistryPlanV::Reply(tool_result_view(report)),
            }
        }
    } else {
        RegistryPlanV::Fail(McpErrorV::ToolNotFound(name))
    }
}

/// What a finished weather operation comes to through the registry: its reply
/// wrapped as MCP content, or its error.
pub open spec fn registry_reply_view(outcome: Result<JsonV, (ErrorKind, Seq<char>)>) -> Result<JsonV, McpErrorV> {
    match outcome {
        Ok(v) => Ok(tool_result_view(v)),
        Err(e) => Err(McpErrorV::Weather(e)),
    }
}

/// Tool registry that manages all available tools.
#[derive(Debug)]
pub struct ToolRegistry {}

impl ToolRegistry {
    /// Create a new tool registry.
    pub fn new() -> Self {
        ToolRegistry {}
    }

    /// Get all tools in MCP format.
    pub fn list_tools(&self) -> (r: Json)
        ensures
            r@ == registry_listing(),
    {
        let current_props = vec![
            member("latitude", property("number", LATITUDE_HELP)),
            member("longitude", property("number", LONGITUDE_HELP)),
            member("temperature_unit", property("string", TEMPERATURE_UNIT_HELP)),
            member("wind_speed_unit", property("string", WIND_SPEED_UNIT_HELP)),
        ];
        let forecast_props = vec![
            member("days", property("number", REGISTRY_DAYS_HELP)),
            member("forecast_type", property("string", REGISTRY_FORECAST_TYPE_HELP)),
            member("latitude", property("number", LATITUDE_HELP)),
            member("longitude", property("number", LONGITUDE_HELP)),
            member("temperature_unit", property("string", TEMPERATURE_UNIT_HELP)),
            member("wind_speed_unit", property("string", WIND_SPEED_UNIT_HELP)),
        ];
        let geocode_props = vec![
            member("count", property("number", COUNT_HELP)),
            member("language", property("string", LANGUAGE_HELP)),
            member("name", property("string", REGISTRY_NAME_HELP)),
        ];
        let alerts_props = vec![
            member("latitude", property("number", LATITUDE_HELP)),
            member("longitude", property("number", LONGITUDE_HELP)),
        ];
        let ghost temperature = ("temperature_unit"@, property_view("string"@, TEMPERATURE_UNIT_HELP@));
        let ghost wind = ("wind_speed_unit"@, property_view("string"@, WIND_SPEED_UNIT_HELP@));
        assert(members_view(current_props) =~= coordinates_properties() + seq![temperature, wind]);
        assert(members_view(forecast_props) =~= seq![
            ("days"@, property_view("number"@, REGISTRY_DAYS_HELP@)),
            ("forecast_type"@, property_view("string"@, REGISTRY_FORECAST_TYPE_HELP@)),
        ] + coordinates_properties() + seq![temperature, wind]);
        assert(members_view(geocode_props) =~= seq![
            ("count"@, property_view("number"@, COUNT_HELP@)),
            ("language"@, property_view("string"@, LANGUAGE_HELP@)),
            ("name"@, property_view("string"@, REGISTRY_NAME_HELP@)),
        ]);
        assert(members_view(alerts_props) =~= coordinates_properties());
        let required = coordinate_schema_required();
        let name_required: [&str; 1] = ["name"];
        assert(name_required@.map_values(|s: &str| s@) =~= seq!["name"@]);
        let entries = vec![
            listing_entry_of(CURRENT_TOOL, CURRENT_DESCRIPTION, object_schema(current_props, &required)),
            listing_entry_of(FORECAST_TOOL, FORECAST_DESCRIPTION, object_schema(forecast_props, &required)),
            listing_entry_of(GEOCODE_TOOL, REGISTRY_GEOCODE_DESCRIPTION, object_schema(geocode_props, &name_required)),
            listing_entry_of(ALERTS_TOOL, ALERTS_DESCRIPTION, object_schema(alerts_props, &required)),
        ];
        assert(crate::json::elements_view(entries) =~= match registry_listing() {
            JsonV::Array(a) => a,
            _ => Seq::empty(),
        });
        Json::Array(entries)
    }

    /// How a call of `tool_name` with `arguments` is answered; `latitude` and
    /// `longitude` are the coordinates those arguments carry, when they carry one.
    pub fn plan_tool(
        &self,
        tool_name: &str,
        arguments: &Json,
        latitude: &Option<Coordinate>,
        longitude: &Option<Coordinate>,
    ) -> (r: RegistryPlan)
        ensures
            r@ == registry_plan(tool_name@, arguments@, *latitude, *longitude),
    {
        if str_eq(tool_name, CURRENT_TOOL) {
            let (la, lo) = match required_coordinates(latitude, longitude) {
                Ok(c) => c,
                Err(m) => {
                    return RegistryPlan::Fail(McpError::InvalidToolParameters(m));
                },
            };
            match current_request(
                DEFAULT_FORECAST_BASE_URL,
                la,
                lo,
                string_arg(arguments, "temperature_unit"),
                string_arg(arguments, "wind_speed_unit"),
            ) {
                Ok(req) => RegistryPlan::Fetch(Upstream::Current(req)),
                Err(e) => RegistryPlan::Fail(McpError::Weather(e)),
            }
        } else if str_eq(tool_name, FORECAST_TOOL) {
            let (la, lo) = match required_coordinates(latitude, longitude) {
                Ok(c) => c,
                Err(m) => {
                    return RegistryPlan::Fail(McpError::InvalidToolParameters(m));
                },
            };
            let kind = match string_arg(arguments, "forecast_type") {
                Some(k) => k,
                None => "daily",
            };
            let forecast_type = if str_eq(kind, "daily") {
                ForecastType::Daily
            } else if str_eq(kind, "hourly") {
                ForecastType::Hourly
            } else {
                let mut m = message_text("Invalid forecast_type '", kind);
                push_str(&mut m, "'. Use 'daily' or 'hourly'.");
                return RegistryPlan::Fail(McpError::InvalidToolParameters(m));
            };
            let days = u64_arg_or_default(arguments, "days", 7) as u32;
            match forecast_request(
                DEFAULT_FORECAST_BASE_URL,
                la,
                lo,
                forecast_type,
                days,
                string_arg(arguments, "temperature_unit"),
                string_arg(arguments, "wind_speed_unit"),
            ) {
                Ok(req) => RegistryPlan::Fetch(Upstream::Forecast(req)),
                Err(e) => RegistryPlan::Fail(McpError::Weather(e)),
            }
        } else if str_eq(tool_name, GEOCODE_TOOL) {
            let name = match string_arg(arguments, "name") {
                Some(n) => n,
                None => {
                    return RegistryPlan::Fail(
                        McpError::InvalidToolParameters(message_text("Missing required parameter: ", "name")),
                    );
                },
            };
            let count = u64_arg_or_default(arguments, "count", 5) as u32;
            let url = geocode_url_for(DEFAULT_GEOCODING_BASE_URL, name, count, string_arg(arguments, "language"));
            RegistryPlan::Fetch(Upstream::Geocode { url, name: name.to_owned() })
        } else if str_eq(tool_name, ALERTS_TOOL) {
            let (la, lo) = match required_coordinates(latitude, longitude) {
                Ok(c) => c,
                Err(m) => {
                    return RegistryPlan::Fail(McpError::InvalidToolParameters(m));
                },
            };
            match get_alerts(la, lo) {
                Ok(report) => RegistryPlan::Reply(mcp_tool_result_json(report)),
                Err(e) => RegistryPlan::Fail(McpError::Weather(e)),
            }
        } else {
            RegistryPlan::Fail(McpError::ToolNotFound(tool_name.to_owned()))
        }
    }
}

impl Default for ToolRegistry {
    fn default() -> Self {
        Self::new()
    }
}

/// Finish a registry call with the outcome of its weather operation.
pub fn registry_reply(outcome: Result<Json, WeatherError>) -> (r: Result<Json, McpError>)
    ensures
        match r {
            Ok(j) => registry_reply_view(outcome_view(outcome)) == Ok::<JsonV, McpErrorV>(j@),
            Err(e) => registry_reply_view(outcome_view(outcome)) == Err::<JsonV, McpErrorV>(e@),
        },
{
    match outcome {
        Ok(v) => Ok(mcp_tool_result_json(v)),
        Err(e) => Err(McpError::Weather(e)),
    }
}

fn listing_entry_of(name: &str, description: &str, schema: Json) -> (r: Json)
    ensures
        r@ == listing_entry(name@, description@, schema@),
{
    let ghost sv = schema@;
    let m = vec![member("description", string(description)), member("inputSchema", schema), member("name", string(name))];
    assert(members_view(m) =~= seq![("description"@, JsonV::Str(description@)), ("inputSchema"@, sv), ("name"@, JsonV::Str(name@))]);
    Json::Object(m)
}

/// Both coordinates of a call, or the text of the first one missing.
fn required_coordinates<'a>(latitude: &'a Option<Coordinate>, longitude: &'a Option<Coordinate>) -> (r: Result<(&'a Coordinate, &'a Coordinate), String>)
    ensures
        match r {
            Ok((la, lo)) => coordinates_missing(*latitude, *longitude) is None && *latitude == Some(*la) && *longitude == Some(*lo),
            Err(m) => coordinates_missing(*latitude, *longitude) == Some(m@),
        },
{
    match (latitude, longitude) {
        (Some(la), Some(lo)) => Ok((la, lo)),
        (None, _) => Err(message_text("Missing required parameter: ", "latitude")),
        (_, None) => Err(message_text("Missing required parameter: ", "longitude")),
    }
}

} // verus!
