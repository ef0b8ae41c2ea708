//! What the service reports about its own work: the log event that goes with
//! each upstream request, and the counter bumped for an upstream fault.
//!
//! A location -- a place name or a pair of coordinates -- is content, so it
//! only ever appears in an event at debug level, and never in a counter label.

use vstd::prelude::*;

use crate::error::WeatherError;
use crate::json::Json;
use crate::service::{Upstream, failure_reason, upstream_failure_reason};

verus! {

/// The severity of a log event.
#[derive(Clone, Copy, Debug, PartialEq, Eq, Structural)]
pub enum Level {
    Error,
    Warn,
    Info,
    Debug,
    Trace,
}

/// A log event: its level, its message, and its named fields.
#[derive(Debug)]
pub struct LogEvent {
    pub level: Level,
    pub message: String,
    pub fields: Vec<(String, String)>,
}

/// The message of the event logged before each upstream request.
pub const REQUEST_MESSAGE: &'static str = "requesting upstream weather API";

impl LogEvent {
    /// The text of the first field named `name`, if the event has one.
    pub fn field(&self, name: &str) -> (r: Option<&str>)
        ensures
            r matches Some(v) ==> exists|i: int|
                0 <= i < self.fields.len() && #[trigger] self.fields[i].0@ == name@ && self.fields[i].1@ == v@
                    && forall|j: int| 0 <= j < i ==> #[trigger] self.fields[j].0@ != name@,
            r is None ==> forall|i: int| 0 <= i < self.fields.len() ==> #[trigger] self.fields[i].0@ != name@,
    {
        let mut i: usize = 0;
        while i < self.fields.len()
            invariant
                i <= self.fields.len(),
                forall|j: int| 0 <= j < i ==> #[trigger] self.fields[j].0@ != name@,
            decreases self.fields.len() - i,
        {
            if crate::json::str_eq(self.fields[i].0.as_str(), name) {
                return Some(self.fields[i].1.as_str());
            }
            i = i + 1;
        }
        None
    }
}

/// The event logged before a request to the forecast API: the URL (which
/// embeds the coordinates) goes out at debug level only.
pub fn log_current_request(url: &str) -> (e: LogEvent)
    ensures
        e.level == Level::Debug,
        e.message@ == REQUEST_MESSAGE@,
        e.fields.len() == 1,
        e.fields[0].0@ == "url"@,
        e.fields[0].1@ == url@,
{
    LogEvent {
        level: Level::Debug,
        message: REQUEST_MESSAGE.to_owned(),
        fields: vec![("url".to_owned(), url.to_owned())],
    }
}

/// The URL an upstream request goes to.
pub open spec fn upstream_url(up: Upstream) -> Seq<char> {
    match up {
        Upstream::Geocode { url, .. } => url@,
        Upstream::Current(req) => req.url@,
        Upstream::Forecast(req) => req.url@,
    }
}

/// The event logged before an upstream request: its URL, at debug level.
pub fn request_log(up: &Upstream) -> (e: LogEvent)
    ensures
        e.level == Level::Debug,
        e.message@ == REQUEST_MESSAGE@,
        e.fields.len() == 1,
        e.fields[0].0@ == "url"@,
        e.fields[0].1@ == upstream_url(*up),
{
    match up {
        Upstream::Geocode { url, .. } => log_current_request(url.as_str()),
        Upstream::Current(req) => log_current_request(req.url.as_str()),
        Upstream::Forecast(req) => log_current_request(req.url.as_str()),
    }
}

/// The name of the counter of upstream faults.
pub const UPSTREAM_FAILURE_COUNTER: &'static str = "weather.upstream_failure";

/// A bump of a counter, with its labels.
#[derive(Debug)]
pub struct CounterBump {
    pub name: &'static str,
    pub tool: &'static str,
    pub reason: &'static str,
}

/// Count an upstream-level failure against `weather.upstream_failure`:
/// a bump labelled by tool and reason for a counted fault, nothing for a
/// success, a "no match" or a locally refused parameter.
pub fn record_upstream_failure(tool: &'static str, outcome: &Result<Json, WeatherError>) -> (r: Option<CounterBump>)
    ensures
        match outcome {
            Ok(_) => r is None,
            Err(e) => match failure_reason(e@.0) {
                None => r is None,
                Some(reason) => r matches Some(b) && b.name@ == UPSTREAM_FAILURE_COUNTER@ && b.tool == tool
                    && b.reason@ == reason,
            },
        },
{
    match outcome {
        Ok(_) => None,
        Err(e) => match upstream_failure_reason(e) {
            Some(reason) => Some(CounterBump { name: UPSTREAM_FAILURE_COUNTER, tool, reason }),
            None => None,
        },
    }
}

} // verus!
