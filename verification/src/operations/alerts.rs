//! Weather alerts.
//!
//! Open-Meteo has no general alert feed, so the reply is a structured "no
//! alerts" answer that says where a live alert source would plug in.

use vstd::prelude::*;

use crate::coordinate::{Coordinate, double_view};
use crate::error::ErrorKind;
use crate::error::WeatherError;
use crate::json::{Json, JsonV, member, members_view, outcome_view, string};
use crate::operations::{coordinates_outcome, validate_coordinates};

verus! {

/// The note every alerts reply carries.
pub const ALERTS_NOTE: &'static str = "Live alert integration not yet configured. To add alert support, integrate an alert provider such as the NWS CAP API (US) or Meteoalarm (Europe) in src/operations/alerts.rs.";

/// The alerts reply for a place: its coordinates, no alerts, and the note.
pub open spec fn alerts_report(latitude: Coordinate, longitude: Coordinate) -> JsonV {
    JsonV::Object(
        seq![
            ("alerts"@, JsonV::Array(Seq::empty())),
            ("latitude"@, double_view(latitude.bits)),
            ("longitude"@, double_view(longitude.bits)),
            ("note"@, JsonV::Str(ALERTS_NOTE@)),
        ],
    )
}

/// What an alerts request comes to: the coordinate error when a coordinate is
/// out of range, else the report.
pub open spec fn alerts_outcome(latitude: Coordinate, longitude: Coordinate) -> Result<JsonV, (ErrorKind, Seq<char>)> {
    match coordinates_outcome(latitude, longitude) {
        Some(e) => Err(e),
        None => Ok(alerts_report(latitude, longitude)),
    }
}

/// Return weather alerts for given coordinates.
///
/// Coordinates are checked first, so an out-of-range one is refused locally.
/// No live alert source is wired in: the reply lists no alerts and carries a
/// note saying so.
pub fn get_alerts(latitude: &Coordinate, longitude: &Coordinate) -> (r: Result<Json, WeatherError>)
    ensures
        outcome_view(r) == alerts_outcome(*latitude, *longitude),
{
    validate_coordinates(latitude, longitude)?;
    let none: Vec<Json> = Vec::new();
    assert(crate::json::elements_view(none) =~= Seq::<JsonV>::empty());
    let m = vec![
        member("alerts", Json::Array(none)),
        member("latitude", latitude.to_json()),
        member("longitude", longitude.to_json()),
        member("note", string(ALERTS_NOTE)),
    ];
    assert(members_view(m) =~= match alerts_report(*latitude, *longitude) {
        JsonV::Object(s) => s,
        _ => Seq::empty(),
    });
    Ok(Json::Object(m))
}

} // verus!
