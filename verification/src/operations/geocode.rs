//! Geocoding: resolve a location name to latitude/longitude with the Open-Meteo
//! geocoding API.

use vstd::prelude::*;

use crate::coordinate::{double_to_json, double_view};
use crate::error::{ErrorKind, WeatherError};
use crate::json::{Json, JsonV, elements_view, member, members_view, outcome_view, string};
use crate::text::{decimal, hex, push_char, push_decimal, push_hex, push_str};

verus! {

/// Whether a character is left as it is in a URL query value.
pub open spec fn is_unreserved(c: char) -> bool {
    ('0' <= c && c <= '9') || ('a' <= c && c <= 'z') || ('A' <= c && c <= 'Z') || c == '-' || c == '_'
        || c == '.' || c == '~'
}

/// The code of a character in upper-case hexadecimal, at least two digits wide.
pub open spec fn code_hex(n: nat) -> Seq<char> {
    if n < 16 {
        seq!['0'] + hex(n)
    } else {
        hex(n)
    }
}

/// How one character is written in a URL query value: unreserved characters
/// as they are, any other as `%` and the hexadecimal of its code point.
pub open spec fn encode_char(c: char) -> Seq<char> {
    if is_unreserved(c) {
        seq![c]
    } else {
        seq!['%'] + code_hex(c as nat)
    }
}

/// A text written as a URL query value, character by character.
pub open spec fn url_encode(s: Seq<char>) -> Seq<char>
    decreases s.len(),
{
    if s.len() == 0 {
        Seq::empty()
    } else {
        url_encode(s.drop_last()) + encode_char(s.last())
    }
}

fn is_unreserved_char(c: char) -> (r: bool)
    ensures
        r == is_unreserved(c),
{
    ('0' <= c && c <= '9') || ('a' <= c && c <= 'z') || ('A' <= c && c <= 'Z') || c == '-' || c == '_'
        || c == '.' || c == '~'
}

/// Write a text as a URL query value.
pub fn urlencoding(s: &str) -> (r: String)
    ensures
        r@ == url_encode(s@),
{
    let mut r = String::new();
    let n = s.unicode_len();
    let mut i: usize = 0;
    while i < n
        invariant
            n == s@.len(),
            i <= n,
            r@ == url_encode(s@.take(i as int)),
        decreases n - i,
    {
        let c = s.get_char(i);
        let ghost before = r@;
        if is_unreserved_char(c) {
            push_char(&mut r, c);
        } else {
            push_char(&mut r, '%');
            let code = c as u32;
            if code < 16 {
                push_char(&mut r, '0');
            }
            push_hex(&mut r, code);
        }
        assert(r@ =~= before + encode_char(c));
        assert(s@.take(i + 1).drop_last() =~= s@.take(i as int));
        i = i + 1;
    }
    assert(s@.take(n as int) =~= s@);
    r
}

/// The number of results asked for: the requested count, clamped to 1..=10.
pub open spec fn clamp_count(count: u32) -> u32 {
    if count < 1 {
        1
    } else if count > 10 {
        10
    } else {
        count
    }
}

/// The URL of a geocoding search.
pub open spec fn geocode_url(base_url: Seq<char>, name: Seq<char>, count: u32, language: Seq<char>) -> Seq<char> {
    base_url + "/v1/search?name="@ + url_encode(name) + "&count="@ + decimal(count as nat) + "&language="@ + language
        + "&format=json"@
}

/// The URL of the geocoding search for `name`: at most 1..=10 results
/// (clamped), in `language` (English by default).
pub fn geocode_url_for(base_url: &str, name: &str, count: u32, language: Option<&str>) -> (r: String)
    ensures
        r@ == geocode_url(
            base_url@,
            name@,
            clamp_count(count),
            match language {
                Some(l) => l@,
                None => "en"@,
            },
        ),
{
    let count = if count < 1 {
        1
    } else if count > 10 {
        10
    } else {
        count
    };
    let language = match language {
        Some(l) => l,
        None => "en",
    };
    let mut url = base_url.to_owned();
    push_str(&mut url, "/v1/search?name=");
    let encoded = urlencoding(name);
    push_str(&mut url, encoded.as_str());
    push_str(&mut url, "&count=");
    push_decimal(&mut url, count as u64);
    push_str(&mut url, "&language=");
    push_str(&mut url, language);
    push_str(&mut url, "&format=json");
    url
}

/// One match of a geocoding search, as the API describes it; coordinates and
/// elevation are doubles given by their bit patterns.
#[derive(Debug)]
pub struct GeocodingResult {
    pub name: String,
    pub latitude: u64,
    pub longitude: u64,
    pub country: Option<String>,
    pub admin1: Option<String>,
    pub elevation: Option<u64>,
}

/// An optional text as JSON: the string, or `null`.
pub open spec fn opt_text_view(o: Option<String>) -> JsonV {
    match o {
        Some(s) => JsonV::Str(s@),
        None => JsonV::Null,
    }
}

/// An optional double as JSON: the number, or `null`.
pub open spec fn opt_double_view(o: Option<u64>) -> JsonV {
    match o {
        Some(bits) => double_view(bits),
        None => JsonV::Null,
    }
}

/// The reply entry for one geocoding match.
pub open spec fn location_view(r: GeocodingResult) -> JsonV {
    JsonV::Object(
        seq![
            ("country"@, opt_text_view(r.country)),
            ("elevation_m"@, opt_double_view(r.elevation)),
            ("latitude"@, double_view(r.latitude)),
            ("longitude"@, double_view(r.longitude)),
            ("name"@, JsonV::Str(r.name@)),
            ("region"@, opt_text_view(r.admin1)),
        ],
    )
}

/// What the matches of a geocoding search for `name` come to: an error when
/// there are none, else one entry per match, in order.
pub open spec fn locations_outcome(results: Option<Vec<GeocodingResult>>, name: Seq<char>) -> Result<JsonV, (ErrorKind, Seq<char>)> {
    let rs = match results {
        Some(v) => v@,
        None => Seq::empty(),
    };
    if rs.len() == 0 {
        Err((ErrorKind::LocationNotFound, "No locations found for: "@ + name))
    } else {
        Ok(JsonV::Array(Seq::new(rs.len(), |i: int| location_view(rs[i]))))
    }
}

fn opt_text(o: &Option<String>) -> (r: Json)
    ensures
        r@ == opt_text_view(*o),
{
    match o {
        Some(s) => Json::Str(s.clone()),
        None => Json::Null,
    }
}

fn opt_double(o: Option<u64>) -> (r: Json)
    ensures
        r@ == opt_double_view(o),
{
    match o {
        Some(bits) => double_to_json(bits),
        None => Json::Null,
    }
}

/// Turn the matches of a geocoding search for `name` into the reply.
pub fn geocode_locations(results: Option<Vec<GeocodingResult>>, name: &str) -> (r: Result<Json, WeatherError>)
    ensures
        outcome_view(r) == locations_outcome(results, name@),
{
    let results = match results {
        Some(v) => v,
        None => Vec::new(),
    };
    if results.len() == 0 {
        let mut d = "No locations found for: ".to_owned();
        push_str(&mut d, name);
        return Err(WeatherError::LocationNotFound(d));
    }
    let mut locations: Vec<Json> = Vec::new();
    let mut i: usize = 0;
    while i < results.len()
        invariant
            i <= results.len(),
            locations.len() == i,
            forall|j: int| 0 <= j < i ==> (#[trigger] locations[j])@ == location_view(results[j]),
        decreases results.len() - i,
    {
        let r = &results[i];
        let m = vec![
            member("country", opt_text(&r.country)),
            member("elevation_m", opt_double(r.elevation)),
            member("latitude", double_to_json(r.latitude)),
            member("longitude", double_to_json(r.longitude)),
            member("name", Json::Str(r.name.clone())),
            member("region", opt_text(&r.admin1)),
        ];
        assert(members_view(m) =~= match location_view(results[i as int]) {
            JsonV::Object(s) => s,
            _ => Seq::empty(),
        });
        locations.push(Json::Object(m));
        i = i + 1;
    }
    assert(elements_view(locations) =~= Seq::new(results@.len(), |j: int| location_view(results@[j])));
    Ok(Json::Array(locations))
}

} // verus!
