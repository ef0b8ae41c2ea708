//! Weather lookups for a tool-calling client: geocoding, current conditions,
//! daily and hourly forecasts and alerts, served from the Open-Meteo API.
//!
//! The network and the process plumbing live outside this crate; what it holds
//! is every decision in between: argument checking, request building, the
//! shaping of each upstream answer into the reply a caller sees, and what is
//! logged and counted along the way.

pub mod coordinate;
pub mod error;
pub mod json;
pub mod laws;
pub mod operations;
pub mod report_laws;
pub mod service;
pub mod telemetry;
pub mod text;
pub mod tools;

pub use service::{WeatherService, DEFAULT_FORECAST_BASE_URL, DEFAULT_GEOCODING_BASE_URL};

use vstd::prelude::*;

verus! {

/// The name the server announces itself by.
pub const SERVER_NAME: &'static str = "weather-forecast-mcp";

/// The version the server announces.
pub const SERVER_VERSION: &'static str = "0.1.0";

/// The blurb a client's tool discovery reads to learn what the server offers
/// and how to drive it.
pub const SERVER_INSTRUCTIONS: &'static str = "Weather lookup by place name: current conditions plus daily and hourly forecasts up to 16 days, anywhere in the world, from the free Open-Meteo API (no API key or setup needed). Reach for it whenever someone asks what the weather is like, whether it will rain, how hot or cold it will be, or what to expect for a given day or an upcoming trip. Typical flow: call weather_geocode to turn a place name like 'London' or 'Tokyo' into latitude/longitude coordinates, then pass those to weather_get_current or weather_get_forecast (temperature and wind-speed units are configurable). Note that weather_get_alerts is a placeholder and does not yet return live weather warnings.";

/// The metadata a server starts with.
#[derive(Debug)]
pub struct ServerConfig {
    pub name: String,
    pub version: String,
    pub instructions: Option<String>,
}

/// Build the [`ServerConfig`] this server starts with: its name, version and
/// the instructions blurb surfaced in the `initialize` response.
pub fn server_config() -> (c: ServerConfig)
    ensures
        c.name@ == SERVER_NAME@,
        c.version@ == SERVER_VERSION@,
        c.instructions matches Some(i) && i@ == SERVER_INSTRUCTIONS@,
{
    ServerConfig {
        name: SERVER_NAME.to_owned(),
        version: SERVER_VERSION.to_owned(),
        instructions: Some(SERVER_INSTRUCTIONS.to_owned()),
    }
}

/// Construct the weather service with built-in defaults, for in-process hosting.
pub fn build_service() -> (s: WeatherService)
    ensures
        s.geocoding_base_url@ == DEFAULT_GEOCODING_BASE_URL@,
        s.forecast_base_url@ == DEFAULT_FORECAST_BASE_URL@,
{
    WeatherService::new()
}

} // verus!
