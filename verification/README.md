# weather-forecast-mcp

An MCP server offering weather tools backed by the free Open-Meteo API:
`weather_geocode`, `weather_get_current`, `weather_get_forecast` and
`weather_get_alerts`.

## Layout

- `src/` is the library, written in Verus. It holds every decision the server
  makes: the tool catalogue and argument schemas, argument reading and
  validation, the request URLs, the shaping of each upstream answer into a
  reply, the error messages, the debug log event that precedes each upstream
  request and the upstream-failure counter. Each public function states what
  it returns in its `ensures`; `src/laws.rs` proves properties that span
  several functions.
- `app/` is the program around it: command-line flags, the MCP server loop,
  the HTTP requests, JSON (de)serialisation, floating-point printing and the
  emission of log events and metrics.
- `tests/` exercises the library on concrete values, with hand-built upstream
  answers in place of the network.

JSON values are modelled by `json::Json`, numbers by their kind (non-negative
integer, negative integer, or double held by its IEEE-754 bit pattern), so
coordinate range checks are exact integer arithmetic on the bit pattern.
