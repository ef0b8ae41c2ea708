//! The weather service: the tools it offers, and how a call to one of them
//! is checked, carried out and answered.

use vstd::prelude::*;

use crate::coordinate::Coordinate;
use crate::error::{ErrorKind, WeatherError, error_message};
use crate::json::{Json, JsonV, member, members_view, outcome_view, str_eq, string};
use crate::operations::alerts::{alerts_outcome, get_alerts};
use crate::operations::current::{
    CurrentRequest, current_from_response, current_outcome, current_request, current_url,
};
use crate::operations::forecast::{
    ForecastRequest, ForecastType, clamp_days, forecast_from_response, forecast_outcome, forecast_request,
    forecast_url,
};
use crate::operations::geocode::{
    GeocodingResult, clamp_count, geocode_locations, geocode_url, geocode_url_for, locations_outcome,
};
use crate::operations::{
    coordinates_outcome, is_temperature_unit, is_wind_speed_unit, temperature_unit_detail,
    validate_coordinates, validate_temperature_unit, validate_wind_speed_unit, wind_speed_unit_detail,
};
use crate::text::{parse_u64, parse_u64_spec, push_str};

verus! {

/// The production host of the Open-Meteo geocoding API.
pub const DEFAULT_GEOCODING_BASE_URL: &'static str = "https://geocoding-api.open-meteo.com";

/// The production host of the Open-Meteo forecast API.
pub const DEFAULT_FORECAST_BASE_URL: &'static str = "https://api.open-meteo.com";

/// The name of the geocoding tool.
pub const GEOCODE_TOOL: &'static str = "weather_geocode";

/// The name of the current-conditions tool.
pub const CURRENT_TOOL: &'static str = "weather_get_current";

/// The name of the forecast tool.
pub const FORECAST_TOOL: &'static str = "weather_get_forecast";

/// The name of the alerts tool.
pub const ALERTS_TOOL: &'static str = "weather_get_alerts";

pub const GEOCODE_DESCRIPTION: &'static str = "Resolve a location name to geographic coordinates (latitude and longitude) using the Open-Meteo geocoding API. Returns up to 'count' matching locations with their coordinates, country, region, and elevation. Use the returned latitude/longitude with weather_get_current or weather_get_forecast. IMPORTANT: Use simple city names for best results (e.g. 'Houston' not 'Houston, Texas' or 'Houston TX'). The API matches city names, not full addresses. If multiple cities share a name, filter the results by country or region rather than adding qualifiers to the query.";

pub const CURRENT_DESCRIPTION: &'static str = "Get current weather conditions for a specific location by latitude and longitude. Returns temperature, humidity, wind speed, precipitation, cloud cover, pressure, and a human-readable weather description based on WMO weather codes. Use weather_geocode first to resolve a location name to coordinates.";

pub const FORECAST_DESCRIPTION: &'static str = "Get weather forecast for a specific location by latitude and longitude. Supports daily forecasts (up to 16 days) and hourly forecasts. Daily forecast includes high/low temperatures, precipitation probability, wind speeds, and sunrise/sunset. Hourly forecast includes temperature, humidity, precipitation probability, wind, and visibility. Use weather_geocode first to resolve a location name to coordinates.";

pub const ALERTS_DESCRIPTION: &'static str = "Get weather alerts for a specific location by latitude and longitude. Returns any active weather warnings or advisories. Note: live alert integration is not yet configured; see the returned note field for how to extend this capability.";

pub const NAME_HELP: &'static str = "Location name to search for. Use a simple city or place name for best results. Examples: 'London', 'New York', 'Tokyo'. Avoid including state abbreviations, country names, or comma-separated qualifiers.";

pub const COUNT_HELP: &'static str = "Maximum number of results to return. Range: 1-10 (default: 5).";

pub const LANGUAGE_HELP: &'static str = "Language for result names (ISO 639-1 code). Default: 'en'. Example: 'de', 'fr', 'es'.";

pub const LATITUDE_HELP: &'static str = "Latitude of the location in decimal degrees. Range: -90 to 90.";

pub const LONGITUDE_HELP: &'static str = "Longitude of the location in decimal degrees. Range: -180 to 180.";

pub const TEMPERATURE_UNIT_HELP: &'static str = "Temperature unit. One of: 'celsius' (default), 'fahrenheit'.";

pub const WIND_SPEED_UNIT_HELP: &'static str = "Wind speed unit. One of: 'kmh' (default), 'ms', 'mph', 'kn'.";

pub const FORECAST_TYPE_HELP: &'static str = "Forecast resolution. One of: 'daily' (default, days 1-16), 'hourly' (default days=1, max 16).";

pub const DAYS_HELP: &'static str = "Number of forecast days. Range: 1-16. Daily default: 7. Hourly default: 1 (24 rows). Clamped to valid range automatically.";

/// A JSON array of strings.
pub open spec fn strings_view(items: Seq<Seq<char>>) -> JsonV {
    JsonV::Array(items.map_values(|s: Seq<char>| JsonV::Str(s)))
}

/// The schema of a property of the given JSON type.
pub open spec fn property_view(ty: Seq<char>, description: Seq<char>) -> JsonV {
    JsonV::Object(seq![("description"@, JsonV::Str(description)), ("type"@, JsonV::Str(ty))])
}

/// The schema of a string property restricted to the given choices.
pub open spec fn choice_property_view(choices: Seq<Seq<char>>, description: Seq<char>) -> JsonV {
    JsonV::Object(
        seq![
            ("description"@, JsonV::Str(description)),
            ("enum"@, strings_view(choices)),
            ("type"@, JsonV::Str("string"@)),
        ],
    )
}

/// The schema of an object argument with the given properties and required members.
pub open spec fn object_schema_view(properties: Seq<(Seq<char>, JsonV)>, required: Seq<Seq<char>>) -> JsonV {
    JsonV::Object(
        seq![
            ("properties"@, JsonV::Object(properties)),
            ("required"@, strings_view(required)),
            ("type"@, JsonV::Str("object"@)),
        ],
    )
}

pub open spec fn temperature_units_view() -> Seq<Seq<char>> {
    seq!["celsius"@, "fahrenheit"@]
}

pub open spec fn wind_speed_units_view() -> Seq<Seq<char>> {
    seq!["kmh"@, "ms"@, "mph"@, "kn"@]
}

pub open spec fn coordinates_required() -> Seq<Seq<char>> {
    seq!["latitude"@, "longitude"@]
}

/// The argument schema of the geocoding tool.
pub open spec fn geocode_schema() -> JsonV {
    object_schema_view(
        seq![
            ("count"@, property_view("number"@, COUNT_HELP@)),
            ("language"@, property_view("string"@, LANGUAGE_HELP@)),
            ("name"@, property_view("string"@, NAME_HELP@)),
        ],
        seq!["name"@],
    )
}

/// The argument schema of the current-conditions tool.
pub open spec fn current_schema() -> JsonV {
    object_schema_view(
        seq![
            ("latitude"@, property_view("number"@, LATITUDE_HELP@)),
            ("longitude"@, property_view("number"@, LONGITUDE_HELP@)),
            ("temperature_unit"@, choice_property_view(temperature_units_view(), TEMPERATURE_UNIT_HELP@)),
            ("wind_speed_unit"@, choice_property_view(wind_speed_units_view(), WIND_SPEED_UNIT_HELP@)),
        ],
        coordinates_required(),
    )
}

/// The argument schema of the forecast tool.
pub open spec fn forecast_schema() -> JsonV {
    object_schema_view(
        seq![
            ("days"@, property_view("number"@, DAYS_HELP@)),
            ("forecast_type"@, choice_property_view(seq!["daily"@, "hourly"@], FORECAST_TYPE_HELP@)),
            ("latitude"@, property_view("number"@, LATITUDE_HELP@)),
            ("longitude"@, property_view("number"@, LONGITUDE_HELP@)),
            ("temperature_unit"@, choice_property_view(temperature_units_view(), TEMPERATURE_UNIT_HELP@)),
            ("wind_speed_unit"@, choice_property_view(wind_speed_units_view(), WIND_SPEED_UNIT_HELP@)),
        ],
        coordinates_required(),
    )
}

/// The argument schema of the alerts tool.
pub open spec fn alerts_schema() -> JsonV {
    object_schema_view(
        seq![
            ("latitude"@, property_view("number"@, LATITUDE_HELP@)),
            ("longitude"@, property_view("number"@, LONGITUDE_HELP@)),
        ],
        coordinates_required(),
    )
}

/// The tools the service offers, in order: name, description, argument schema.
pub open spec fn catalog() -> Seq<(Seq<char>, Seq<char>, JsonV)> {
    seq![
        (GEOCODE_TOOL@, GEOCODE_DESCRIPTION@, geocode_schema()),
        (CURRENT_TOOL@, CURRENT_DESCRIPTION@, current_schema()),
        (FORECAST_TOOL@, FORECAST_DESCRIPTION@, forecast_schema()),
        (ALERTS_TOOL@, ALERTS_DESCRIPTION@, alerts_schema()),
    ]
}

/// A tool the service offers: its name, what it does, and the schema of its arguments.
#[derive(Debug)]
pub struct ToolDef {
    pub name: String,
    pub description: String,
    pub input_schema: Json,
}

impl View for ToolDef {
    type V = (Seq<char>, Seq<char>, JsonV);

    open spec fn view(&self) -> (Seq<char>, Seq<char>, JsonV) {
        (self.name@, self.description@, self.input_schema@)
    }
}

/// A JSON array of strings.
fn strings(items: &[&str]) -> (r: Json)
    ensures
        r@ == strings_view(items@.map_values(|s: &str| s@)),
{
    let mut out: Vec<Json> = Vec::new();
    let mut i: usize = 0;
    while i < items.len()
        invariant
            i <= items.len(),
            out.len() == i,
            forall|j: int| 0 <= j < i ==> (#[trigger] out[j])@ == JsonV::Str(items@[j]@),
        decreases items.len() - i,
    {
        out.push(string(items[i]));
        i = i + 1;
    }
    assert(crate::json::elements_view(out) =~= items@.map_values(|s: &str| s@).map_values(
        |s: Seq<char>| JsonV::Str(s),
    ));
    Json::Array(out)
}

pub(crate) fn property(ty: &str, description: &str) -> (r: Json)
    ensures
        r@ == property_view(ty@, description@),
{
    let m = vec![member("description", string(description)), member("type", string(ty))];
    assert(members_view(m) =~= seq![("description"@, JsonV::Str(description@)), ("type"@, JsonV::Str(ty@))]);
    Json::Object(m)
}

fn choice_property(choices: &[&str], description: &str) -> (r: Json)
    ensures
        r@ == choice_property_view(choices@.map_values(|s: &str| s@), description@),
{
    let m = vec![
        member("description", string(description)),
        member("enum", strings(choices)),
        member("type", string("string")),
    ];
    assert(members_view(m) =~= seq![
        ("description"@, JsonV::Str(description@)),
        ("enum"@, strings_view(choices@.map_values(|s: &str| s@))),
        ("type"@, JsonV::Str("string"@)),
    ]);
    Json::Object(m)
}

pub(crate) fn object_schema(properties: Vec<(String, Json)>, required: &[&str]) -> (r: Json)
    ensures
        r@ == object_schema_view(members_view(properties), required@.map_values(|s: &str| s@)),
{
    let ghost pv = members_view(properties);
    let m = vec![
        member("properties", Json::Object(properties)),
        member("required", strings(required)),
        member("type", string("object")),
    ];
    assert(members_view(m) =~= seq![
        ("properties"@, JsonV::Object(pv)),
        ("required"@, strings_view(required@.map_values(|s: &str| s@))),
        ("type"@, JsonV::Str("object"@)),
    ]);
    Json::Object(m)
}

fn temperature_unit_property() -> (r: Json)
    ensures
        r@ == choice_property_view(temperature_units_view(), TEMPERATURE_UNIT_HELP@),
{
    let choices: [&str; 2] = ["celsius", "fahrenheit"];
    let r = choice_property(&choices, TEMPERATURE_UNIT_HELP);
    assert(choices@.map_values(|s: &str| s@) =~= temperature_units_view());
    r
}

fn wind_speed_unit_property() -> (r: Json)
    ensures
        r@ == choice_property_view(wind_speed_units_view(), WIND_SPEED_UNIT_HELP@),
{
    let choices: [&str; 4] = ["kmh", "ms", "mph", "kn"];
    let r = choice_property(&choices, WIND_SPEED_UNIT_HELP);
    assert(choices@.map_values(|s: &str| s@) =~= wind_speed_units_view());
    r
}

pub(crate) fn coordinate_schema_required() -> (r: [&'static str; 2])
    ensures
        r@.map_values(|s: &str| s@) == coordinates_required(),
{
    let r: [&'static str; 2] = ["latitude", "longitude"];
    assert(r@.map_values(|s: &str| s@) =~= coordinates_required());
    r
}

fn geocode_tool() -> (t: ToolDef)
    ensures
        t@ == catalog()[0],
{
    let props = vec![
        member("count", property("number", COUNT_HELP)),
        member("language", property("string", LANGUAGE_HELP)),
        member("name", property("string", NAME_HELP)),
    ];
    assert(members_view(props) =~= seq![
        ("count"@, property_view("number"@, COUNT_HELP@)),
        ("language"@, property_view("string"@, LANGUAGE_HELP@)),
        ("name"@, property_view("string"@, NAME_HELP@)),
    ]);
    let required: [&str; 1] = ["name"];
    assert(required@.map_values(|s: &str| s@) =~= seq!["name"@]);
    ToolDef {
        name: GEOCODE_TOOL.to_owned(),
        description: GEOCODE_DESCRIPTION.to_owned(),
        input_schema: object_schema(props, &required),
    }
}

fn current_tool() -> (t: ToolDef)
    ensures
        t@ == catalog()[1],
{
    let props = vec![
        member("latitude", property("number", LATITUDE_HELP)),
        member("longitude", property("number", LONGITUDE_HELP)),
        member("temperature_unit", temperature_unit_property()),
        member("wind_speed_unit", wind_speed_unit_property()),
    ];
    assert(members_view(props) =~= seq![
        ("latitude"@, property_view("number"@, LATITUDE_HELP@)),
        ("longitude"@, property_view("number"@, LONGITUDE_HELP@)),
        ("temperature_unit"@, choice_property_view(temperature_units_view(), TEMPERATURE_UNIT_HELP@)),
        ("wind_speed_unit"@, choice_property_view(wind_speed_units_view(), WIND_SPEED_UNIT_HELP@)),
    ]);
    let required = coordinate_schema_required();
    ToolDef {
        name: CURRENT_TOOL.to_owned(),
        description: CURRENT_DESCRIPTION.to_owned(),
        input_schema: object_schema(props, &required),
    }
}

fn forecast_tool() -> (t: ToolDef)
    ensures
        t@ == catalog()[2],
{
    let kinds: [&str; 2] = ["daily", "hourly"];
    let kind_property = choice_property(&kinds, FORECAST_TYPE_HELP);
    assert(kinds@.map_values(|s: &str| s@) =~= seq!["daily"@, "hourly"@]);
    let props = vec![
        member("days", property("number", DAYS_HELP)),
        member("forecast_type", kind_property),
        member("latitude", property("number", LATITUDE_HELP)),
        member("longitude", property("number", LONGITUDE_HELP)),
        member("temperature_unit", temperature_unit_property()),
        member("wind_speed_unit", wind_speed_unit_property()),
    ];
    assert(members_view(props) =~= seq![
        ("days"@, property_view("number"@, DAYS_HELP@)),
        ("forecast_type"@, choice_property_view(seq!["daily"@, "hourly"@], FORECAST_TYPE_HELP@)),
        ("latitude"@, property_view("number"@, LATITUDE_HELP@)),
        ("longitude"@, property_view("number"@, LONGITUDE_HELP@)),
        ("temperature_unit"@, choice_property_view(temperature_units_view(), TEMPERATURE_UNIT_HELP@)),
        ("wind_speed_unit"@, choice_property_view(wind_speed_units_view(), WIND_SPEED_UNIT_HELP@)),
    ]);
    let required = coordinate_schema_required();
    ToolDef {
        name: FORECAST_TOOL.to_owned(),
        description: FORECAST_DESCRIPTION.to_owned(),
        input_schema: object_schema(props, &required),
    }
}

fn alerts_tool() -> (t: ToolDef)
    ensures
        t@ == catalog()[3],
{
    let props = vec![
        member("latitude", property("number", LATITUDE_HELP)),
        member("longitude", property("number", LONGITUDE_HELP)),
    ];
    assert(members_view(props) =~= seq![
        ("latitude"@, property_view("number"@, LATITUDE_HELP@)),
        ("longitude"@, property_view("number"@, LONGITUDE_HELP@)),
    ]);
    let required = coordinate_schema_required();
    ToolDef {
        name: ALERTS_TOOL.to_owned(),
        description: ALERTS_DESCRIPTION.to_owned(),
        input_schema: object_schema(props, &required),
    }
}

/// The tools the service offers.
pub fn tool_list() -> (r: Vec<ToolDef>)
    ensures
        r@.map_values(|t: ToolDef| t@) == catalog(),
{
    let r = vec![geocode_tool(), current_tool(), forecast_tool(), alerts_tool()];
    assert(r@.map_values(|t: ToolDef| t@) =~= catalog());
    r
}

// ── arguments ───────────────────────────────────────────────────────────────

/// The text of the string argument `key`, if there is one.
pub open spec fn str_arg(args: JsonV, key: Seq<char>) -> Option<Seq<char>> {
    match args.get(key) {
        Some(v) => v.as_str(),
        None => None,
    }
}

/// The view of an optional string slice.
pub open spec fn opt_str_view(o: Option<&str>) -> Option<Seq<char>> {
    match o {
        Some(s) => Some(s@),
        None => None,
    }
}

/// An optional text, or `default` when there is none.
pub open spec fn text_or(o: Option<Seq<char>>, default: Seq<char>) -> Seq<char> {
    match o {
        Some(s) => s,
        None => default,
    }
}

/// What `value_as_u64` gives: a non-negative integer as it is, a string as the
/// unsigned numeral it spells, anything else nothing.
pub open spec fn u64_of(v: JsonV) -> Option<u64> {
    match v.as_u64() {
        Some(n) => Some(n),
        None => match v.as_str() {
            Some(s) => parse_u64_spec(s),
            None => None,
        },
    }
}

/// The unsigned integer argument `key` (a number or a numeric string), or `default`.
pub open spec fn u64_arg_or(args: JsonV, key: Seq<char>, default: u64) -> u64 {
    match args.get(key) {
        Some(v) => match u64_of(v) {
            Some(n) => n,
            None => default,
        },
        None => default,
    }
}

/// Extract a u64 from a JSON value, accepting both numbers and numeric strings.
pub fn value_as_u64(v: &Json) -> (r: Option<u64>)
    ensures
        r == u64_of(v@),
{
    match v.as_u64() {
        Some(n) => Some(n),
        None => match v.as_str() {
            Some(s) => parse_u64(s),
            None => None,
        },
    }
}

pub(crate) fn string_arg<'a>(args: &'a Json, key: &str) -> (r: Option<&'a str>)
    ensures
        opt_str_view(r) == str_arg(args@, key@),
{
    match args.get(key) {
        Some(v) => v.as_str(),
        None => None,
    }
}

pub(crate) fn u64_arg_or_default(args: &Json, key: &str, default: u64) -> (r: u64)
    ensures
        r == u64_arg_or(args@, key@, default),
{
    match args.get(key) {
        Some(v) => match value_as_u64(v) {
            Some(n) => n,
            None => default,
        },
        None => default,
    }
}

// ── planning a call ─────────────────────────────────────────────────────────

/// A request to an upstream API that a call needs answered.
#[derive(Debug)]
pub enum Upstream {
    /// A geocoding search for `name`.
    Geocode { url: String, name: String },
    /// A current-conditions request.
    Current(CurrentRequest),
    /// A forecast request.
    Forecast(ForecastRequest),
}

/// What it takes to answer a tool call.
#[derive(Debug)]
pub enum CallPlan {
    /// The call is refused before any operation runs; the text is the error it is answered with.
    Reject(String),
    /// The operation finished without the network.
    Done(Result<Json, WeatherError>),
    /// The operation needs the upstream answer to this request.
    Fetch(Upstream),
}

/// The view of a [`CallPlan`].
pub enum PlanV {
    Reject(Seq<char>),
    Done(Result<JsonV, (ErrorKind, Seq<char>)>),
    Geocode { url: Seq<char>, name: Seq<char> },
    Current { url: Seq<char>, temperature_unit: Seq<char>, wind_speed_unit: Seq<char> },
    Forecast { url: Seq<char>, forecast_type: ForecastType, temperature_unit: Seq<char>, wind_speed_unit: Seq<char> },
}

impl View for CallPlan {
    type V = PlanV;

    open spec fn view(&self) -> PlanV {
        match self {
            CallPlan::Reject(m) => PlanV::Reject(m@),
            CallPlan::Done(r) => PlanV::Done(outcome_view(*r)),
            CallPlan::Fetch(Upstream::Geocode { url, name }) => PlanV::Geocode { url: url@, name: name@ },
            CallPlan::Fetch(Upstream::Current(req)) => PlanV::Current {
                url: req.url@,
                temperature_unit: req.temperature_unit@,
                wind_speed_unit: req.wind_speed_unit@,
            },
            CallPlan::Fetch(Upstream::Forecast(req)) => PlanV::Forecast {
                url: req.url@,
                forecast_type: req.forecast_type,
                temperature_unit: req.temperature_unit@,
                wind_speed_unit: req.wind_speed_unit@,
            },
        }
    }
}

/// The error text of a required argument that is missing.
pub open spec fn missing(key: Seq<char>) -> Seq<char> {
    "Missing required parameter: "@ + key
}

/// The error text of a call to a tool the service does not have.
pub open spec fn unknown_tool(name: Seq<char>) -> Seq<char> {
    "Tool not found: "@ + name
}

/// The error text of a forecast type that is neither daily nor hourly.
pub open spec fn forecast_type_detail(kind: Seq<char>) -> Seq<char> {
    "Invalid forecast_type '"@ + kind + "'. Use 'daily' or 'hourly'."@
}

/// Why a call's own unit arguments are refused, if they are: a temperature
/// unit that is given as a string must be supported, then likewise a
/// wind-speed unit.
pub open spec fn units_refusal(args: JsonV) -> Option<Seq<char>> {
    let tu = str_arg(args, "temperature_unit"@);
    let wu = str_arg(args, "wind_speed_unit"@);
    if tu is Some && !is_temperature_unit(tu->0) {
        Some(error_message((ErrorKind::InvalidParameters, temperature_unit_detail(tu->0))))
    } else if wu is Some && !is_wind_speed_unit(wu->0) {
        Some(error_message((ErrorKind::InvalidParameters, wind_speed_unit_detail(wu->0))))
    } else {
        None
    }
}

/// How a geocoding call is answered.
pub open spec fn geocode_plan(base_url: Seq<char>, args: JsonV) -> PlanV {
    match str_arg(args, "name"@) {
        None => PlanV::Reject(missing("name"@)),
        Some(name) => PlanV::Geocode {
            url: geocode_url(
                base_url,
                name,
                clamp_count(u64_arg_or(args, "count"@, 5) as u32),
                text_or(str_arg(args, "language"@), "en"@),
            ),
            name,
        },
    }
}

/// How a current-conditions call is answered.
pub open spec fn current_plan(base_url: Seq<char>, args: JsonV, latitude: Option<Coordinate>, longitude: Option<Coordinate>) -> PlanV {
    if latitude is None {
        PlanV::Reject(missing("latitude"@))
    } else if longitude is None {
        PlanV::Reject(missing("longitude"@))
    } else if units_refusal(args) is Some {
        PlanV::Reject(units_refusal(args)->0)
    } else if coordinates_outcome(latitude->0, longitude->0) is Some {
        PlanV::Reject(error_message(coordinates_outcome(latitude->0, longitude->0)->0))
    } else {
        let t = text_or(str_arg(args, "temperature_unit"@), "celsius"@);
        let w = text_or(str_arg(args, "wind_speed_unit"@), "kmh"@);
        PlanV::Current {
            url: current_url(base_url, latitude->0.text@, longitude->0.text@, t, w),
            temperature_unit: t,
            wind_speed_unit: w,
        }
    }
}

/// The forecast type a call asks for (daily unless it says otherwise), or
/// the text it gave when that is neither.
pub open spec fn forecast_type_arg(args: JsonV) -> Result<ForecastType, Seq<char>> {
    let kind = text_or(str_arg(args, "forecast_type"@), "daily"@);
    if kind == "daily"@ {
        Ok(ForecastType::Daily)
    } else if kind == "hourly"@ {
        Ok(ForecastType::Hourly)
    } else {
        Err(kind)
    }
}

/// The number of days a forecast asks for when the call gives none.
pub open spec fn default_days(forecast_type: ForecastType) -> u64 {
    match forecast_type {
        ForecastType::Hourly => 1,
        ForecastType::Daily => 7,
    }
}

/// How a forecast call is answered.
pub open spec fn forecast_plan(base_url: Seq<char>, args: JsonV, latitude: Option<Coordinate>, longitude: Option<Coordinate>) -> PlanV {
    if latitude is None {
        PlanV::Reject(missing("latitude"@))
    } else if longitude is None {
        PlanV::Reject(missing("longitude"@))
    } else if coordinates_outcome(latitude->0, longitude->0) is Some {
        PlanV::Reject(error_message(coordinates_outcome(latitude->0, longitude->0)->0))
    } else {
        match forecast_type_arg(args) {
            Err(kind) => PlanV::Reject(forecast_type_detail(kind)),
            Ok(forecast_type) => if units_refusal(args) is Some {
                PlanV::Reject(units_refusal(args)->0)
            } else {
                let days = u64_arg_or(args, "days"@, default_days(forecast_type)) as u32;
                let t = text_or(str_arg(args, "temperature_unit"@), "celsius"@);
                let w = text_or(str_arg(args, "wind_speed_unit"@), "kmh"@);
                PlanV::Forecast {
                    url: forecast_url(
                        base_url,
                        latitude->0.text@,
                        longitude->0.text@,
                        forecast_type,
                        t,
                        w,
                        clamp_days(days),
                    ),
                    forecast_type,
                    temperature_unit: t,
                    wind_speed_unit: w,
                }
            },
        }
    }
}

/// How an alerts call is answered.
pub open spec fn alerts_plan(args: JsonV, latitude: Option<Coordinate>, longitude: Option<Coordinate>) -> PlanV {
    if latitude is None {
        PlanV::Reject(missing("latitude"@))
    } else if longitude is None {
        PlanV::Reject(missing("longitude"@))
    } else {
        PlanV::Done(alerts_outcome(latitude->0, longitude->0))
    }
}

/// How a call of the tool `name` is answered, given its arguments and the
/// coordinates they carry.
pub open spec fn call_plan(
    geocoding_base_url: Seq<char>,
    forecast_base_url: Seq<char>,
    name: Seq<char>,
    args: JsonV,
    latitude: Option<Coordinate>,
    longitude: Option<Coordinate>,
) -> PlanV {
    if name == GEOCODE_TOOL@ {
        geocode_plan(geocoding_base_url, args)
    } else if name == CURRENT_TOOL@ {
        current_plan(forecast_base_url, args, latitude, longitude)
    } else if name == FORECAST_TOOL@ {
        forecast_plan(forecast_base_url, args, latitude, longitude)
    } else if name == ALERTS_TOOL@ {
        alerts_plan(args, latitude, longitude)
    } else {
        PlanV::Reject(unknown_tool(name))
    }
}

/// The message of a text that was refused.
pub(crate) fn message_text(prefix: &str, detail: &str) -> (r: String)
    ensures
        r@ == prefix@ + detail@,
{
    let mut r = prefix.to_owned();
    push_str(&mut r, detail);
    r
}

/// Refuse a unit argument given as a string that is not supported.
fn check_unit_args(args: &Json) -> (r: Option<String>)
    ensures
        match r {
            Some(m) => units_refusal(args@) == Some(m@),
            None => units_refusal(args@) is None,
        },
{
    if let Some(tu) = string_arg(args, "temperature_unit") {
        if let Err(e) = validate_temperature_unit(tu) {
            return Some(e.message());
        }
    }
    if let Some(wu) = string_arg(args, "wind_speed_unit") {
        if let Err(e) = validate_wind_speed_unit(wu) {
            return Some(e.message());
        }
    }
    None
}

fn plan_geocode(base_url: &str, args: &Json) -> (r: CallPlan)
    ensures
        r@ == geocode_plan(base_url@, args@),
{
    let name = match string_arg(args, "name") {
        Some(n) => n,
        None => {
            return CallPlan::Reject(message_text("Missing required parameter: ", "name"));
        },
    };
    let count = u64_arg_or_default(args, "count", 5) as u32;
    let language = string_arg(args, "language");
    let url = geocode_url_for(base_url, name, count, language);
    CallPlan::Fetch(Upstream::Geocode { url, name: name.to_owned() })
}

fn plan_current(base_url: &str, args: &Json, latitude: &Option<Coordinate>, longitude: &Option<Coordinate>) -> (r: CallPlan)
    ensures
        r@ == current_plan(base_url@, args@, *latitude, *longitude),
{
    let latitude = match latitude {
        Some(c) => c,
        None => {
            return CallPlan::Reject(message_text("Missing required parameter: ", "latitude"));
        },
    };
    let longitude = match longitude {
        Some(c) => c,
        None => {
            return CallPlan::Reject(message_text("Missing required parameter: ", "longitude"));
        },
    };
    if let Some(m) = check_unit_args(args) {
        return CallPlan::Reject(m);
    }
    if let Err(e) = validate_coordinates(latitude, longitude) {
        return CallPlan::Reject(e.message());
    }
    match current_request(
        base_url,
        latitude,
        longitude,
        string_arg(args, "temperature_unit"),
        string_arg(args, "wind_speed_unit"),
    ) {
        Ok(req) => CallPlan::Fetch(Upstream::Current(req)),
        Err(e) => CallPlan::Done(Err(e)),
    }
}

fn plan_forecast(base_url: &str, args: &Json, latitude: &Option<Coordinate>, longitude: &Option<Coordinate>) -> (r: CallPlan)
    ensures
        r@ == forecast_plan(base_url@, args@, *latitude, *longitude),
{
    let latitude = match latitude {
        Some(c) => c,
        None => {
            return CallPlan::Reject(message_text("Missing required parameter: ", "latitude"));
        },
    };
    let longitude = match longitude {
        Some(c) => c,
        None => {
            return CallPlan::Reject(message_text("Missing required parameter: ", "longitude"));
        },
    };
    if let Err(e) = validate_coordinates(latitude, longitude) {
        return CallPlan::Reject(e.message());
    }
    let kind = match string_arg(args, "forecast_type") {
        Some(k) => k,
        None => "daily",
    };
    let forecast_type = if str_eq(kind, "daily") {
        ForecastType::Daily
    } else if str_eq(kind, "hourly") {
        ForecastType::Hourly
    } else {
        let mut m = message_text("Invalid forecast_type '", kind);
        push_str(&mut m, "'. Use 'daily' or 'hourly'.");
        return CallPlan::Reject(m);
    };
    let default_days: u64 = match forecast_type {
        ForecastType::Hourly => 1,
        ForecastType::Daily => 7,
    };
    let days = u64_arg_or_default(args, "days", default_days) as u32;
    if let Some(m) = check_unit_args(args) {
        return CallPlan::Reject(m);
    }
    match forecast_request(
        base_url,
        latitude,
        longitude,
        forecast_type,
        days,
        string_arg(args, "temperature_unit"),
        string_arg(args, "wind_speed_unit"),
    ) {
        Ok(req) => CallPlan::Fetch(Upstream::Forecast(req)),
        Err(e) => CallPlan::Done(Err(e)),
    }
}

fn plan_alerts(latitude: &Option<Coordinate>, longitude: &Option<Coordinate>) -> (r: CallPlan)
    ensures
        forall|args: JsonV| r@ == #[trigger] alerts_plan(args, *latitude, *longitude),
{
    let latitude = match latitude {
        Some(c) => c,
        None => {
            return CallPlan::Reject(message_text("Missing required parameter: ", "latitude"));
        },
    };
    let longitude = match longitude {
        Some(c) => c,
        None => {
            return CallPlan::Reject(message_text("Missing required parameter: ", "longitude"));
        },
    };
    CallPlan::Done(get_alerts(latitude, longitude))
}

// ── the service ─────────────────────────────────────────────────────────────

/// The weather forecast service: the upstream hosts it speaks to.
#[derive(Debug)]
pub struct WeatherService {
    /// Host (no path) of the geocoding API.
    pub geocoding_base_url: String,
    /// Host (no path) of the forecast API.
    pub forecast_base_url: String,
}

impl WeatherService {
    /// A service pointed at the production Open-Meteo hosts.
    pub fn new() -> (s: Self)
        ensures
            s.geocoding_base_url@ == DEFAULT_GEOCODING_BASE_URL@,
            s.forecast_base_url@ == DEFAULT_FORECAST_BASE_URL@,
    {
        Self::with_base_urls(DEFAULT_GEOCODING_BASE_URL.to_owned(), DEFAULT_FORECAST_BASE_URL.to_owned())
    }

    /// A service pointed at explicit upstream hosts (a test passes a local
    /// mock server's URL, so no request reaches a live service).
    pub fn with_base_urls(geocoding_base_url: String, forecast_base_url: String) -> (s: Self)
        ensures
            s.geocoding_base_url == geocoding_base_url,
            s.forecast_base_url == forecast_base_url,
    {
        WeatherService { geocoding_base_url, forecast_base_url }
    }

    /// The tools the service offers.
    pub fn tools(&self) -> (r: Vec<ToolDef>)
        ensures
            r@.map_values(|t: ToolDef| t@) == catalog(),
    {
        tool_list()
    }

    /// How a call of the tool `name` with arguments `args` is answered;
    /// `latitude` and `longitude` are the coordinates those arguments carry
    /// (a number or a numeric string), when they carry one.
    pub fn plan_call(
        &self,
        name: &str,
        args: &Json,
        latitude: &Option<Coordinate>,
        longitude: &Option<Coordinate>,
    ) -> (r: CallPlan)
        ensures
            r@ == call_plan(self.geocoding_base_url@, self.forecast_base_url@, name@, args@, *latitude, *longitude),
    {
        if str_eq(name, GEOCODE_TOOL) {
            plan_geocode(self.geocoding_base_url.as_str(), args)
        } else if str_eq(name, CURRENT_TOOL) {
            plan_current(self.forecast_base_url.as_str(), args, latitude, longitude)
        } else if str_eq(name, FORECAST_TOOL) {
            plan_forecast(self.forecast_base_url.as_str(), args, latitude, longitude)
        } else if str_eq(name, ALERTS_TOOL) {
            let r = plan_alerts(latitude, longitude);
            assert(r@ == alerts_plan(args@, *latitude, *longitude));
            r
        } else {
            CallPlan::Reject(message_text("Tool not found: ", name))
        }
    }
}

impl Default for WeatherService {
    fn default() -> (s: Self)
        ensures
            s.geocoding_base_url@ == DEFAULT_GEOCODING_BASE_URL@,
            s.forecast_base_url@ == DEFAULT_FORECAST_BASE_URL@,
    {
        Self::new()
    }
}

// ── answers ─────────────────────────────────────────────────────────────────

/// What an upstream request that failed in transport comes to.
pub open spec fn answered<T>(answer: Result<T, String>, shape: spec_fn(T) -> Result<JsonV, (ErrorKind, Seq<char>)>) -> Result<JsonV, (ErrorKind, Seq<char>)> {
    match answer {
        Err(t) => Err((ErrorKind::Http, t@)),
        Ok(a) => shape(a),
    }
}

/// Finish a geocoding call with the upstream answer: the matches the
/// geocoder returned, or the transport's description of why there is no answer.
pub fn finish_geocode(name: &str, answer: Result<Option<Vec<GeocodingResult>>, String>) -> (r: Result<Json, WeatherError>)
    ensures
        outcome_view(r) == answered(answer, |a: Option<Vec<GeocodingResult>>| locations_outcome(a, name@)),
{
    match answer {
        Err(t) => Err(WeatherError::Http(t)),
        Ok(results) => geocode_locations(results, name),
    }
}

/// Finish a current-conditions call with the upstream answer.
pub fn finish_current(req: &CurrentRequest, answer: Result<Json, String>) -> (r: Result<Json, WeatherError>)
    ensures
        outcome_view(r) == answered(
            answer,
            |a: Json| current_outcome(a@, req.temperature_unit@, req.wind_speed_unit@),
        ),
{
    match answer {
        Err(t) => Err(WeatherError::Http(t)),
        Ok(resp) => current_from_response(&resp, req.temperature_unit.as_str(), req.wind_speed_unit.as_str()),
    }
}

/// Finish a forecast call with the upstream answer.
pub fn finish_forecast(req: &ForecastRequest, answer: Result<Json, String>) -> (r: Result<Json, WeatherError>)
    ensures
        outcome_view(r) == answered(
            answer,
            |a: Json| forecast_outcome(a@, req.forecast_type, req.temperature_unit@, req.wind_speed_unit@),
        ),
{
    match answer {
        Err(t) => Err(WeatherError::Http(t)),
        Ok(resp) => forecast_from_response(
            &resp,
            req.forecast_type,
            req.temperature_unit.as_str(),
            req.wind_speed_unit.as_str(),
        ),
    }
}

/// The reason an error is counted as an upstream fault, if it is one: a
/// transport failure, an explicit API error, or an answer missing the data
/// asked for. A "no match" from the geocoder and a parameter refused by local
/// validation are declines, not faults.
pub open spec fn failure_reason(kind: ErrorKind) -> Option<Seq<char>> {
    match kind {
        ErrorKind::Http => Some("network"@),
        ErrorKind::ApiError => Some("api_error"@),
        ErrorKind::ForecastUnavailable => Some("malformed_response"@),
        ErrorKind::LocationNotFound => None,
        ErrorKind::InvalidCoordinates => None,
        ErrorKind::InvalidParameters => None,
    }
}

/// Classify a `WeatherError` as an upstream fault worth counting, or `None`
/// for a caller-input mistake validated locally or a normal "no match" outcome.
pub fn upstream_failure_reason(err: &WeatherError) -> (r: Option<&'static str>)
    ensures
        opt_str_view(r) == failure_reason(err@.0),
{
    match err {
        WeatherError::Http(_) => Some("network"),
        WeatherError::ApiError(_) => Some("api_error"),
        WeatherError::ForecastUnavailable(_) => Some("malformed_response"),
        WeatherError::LocationNotFound(_) => None,
        WeatherError::InvalidCoordinates(_) => None,
        WeatherError::InvalidParameters(_) => None,
    }
}

} // verus!
