//! Domain errors of the weather operations.

use vstd::prelude::*;

verus! {

/// Which kind of failure a [`WeatherError`] is.
#[derive(Clone, Copy, Debug, PartialEq, Eq, Structural)]
pub enum ErrorKind {
    LocationNotFound,
    ApiError,
    InvalidCoordinates,
    InvalidParameters,
    ForecastUnavailable,
    Http,
}

/// A weather operation's failure, with its detail text.
#[derive(Debug)]
pub enum WeatherError {
    /// The geocoder found no place of that name.
    LocationNotFound(String),
    /// The upstream API answered with an explicit error.
    ApiError(String),
    /// A coordinate lies outside its range.
    InvalidCoordinates(String),
    /// A unit or other parameter is not one of the accepted values.
    InvalidParameters(String),
    /// The upstream answer lacks the data asked for.
    ForecastUnavailable(String),
    /// The request could not be made or its answer could not be read; the
    /// detail is the transport's own description of what went wrong.
    Http(String),
}

impl View for WeatherError {
    type V = (ErrorKind, Seq<char>);

    open spec fn view(&self) -> (ErrorKind, Seq<char>) {
        match self {
            WeatherError::LocationNotFound(d) => (ErrorKind::LocationNotFound, d@),
            WeatherError::ApiError(d) => (ErrorKind::ApiError, d@),
            WeatherError::InvalidCoordinates(d) => (ErrorKind::InvalidCoordinates, d@),
            WeatherError::InvalidParameters(d) => (ErrorKind::InvalidParameters, d@),
            WeatherError::ForecastUnavailable(d) => (ErrorKind::ForecastUnavailable, d@),
            WeatherError::Http(d) => (ErrorKind::Http, d@),
        }
    }
}

/// The words that open the message of each kind of error.
pub open spec fn kind_prefix(k: ErrorKind) -> Seq<char> {
    match k {
        ErrorKind::LocationNotFound => "Location not found: "@,
        ErrorKind::ApiError => "API error: "@,
        ErrorKind::InvalidCoordinates => "Invalid coordinates: "@,
        ErrorKind::InvalidParameters => "Invalid parameters: "@,
        ErrorKind::ForecastUnavailable => "Forecast unavailable: "@,
        ErrorKind::Http => "HTTP error: "@,
    }
}

/// The human-readable message of an error: its kind's opening words, then its detail.
pub open spec fn error_message(e: (ErrorKind, Seq<char>)) -> Seq<char> {
    kind_prefix(e.0) + e.1
}

impl WeatherError {
    /// The human-readable message of this error.
    pub fn message(&self) -> (r: String)
        ensures
            r@ == error_message(self@),
    {
        let (prefix, detail) = match self {
            WeatherError::LocationNotFound(d) => ("Location not found: ", d),
            WeatherError::ApiError(d) => ("API error: ", d),
            WeatherError::InvalidCoordinates(d) => ("Invalid coordinates: ", d),
            WeatherError::InvalidParameters(d) => ("Invalid parameters: ", d),
            WeatherError::ForecastUnavailable(d) => ("Forecast unavailable: ", d),
            WeatherError::Http(d) => ("HTTP error: ", d),
        };
        let mut r = prefix.to_owned();
        r.append(detail.as_str());
        r
    }
}

} // verus!
