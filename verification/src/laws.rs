//! Properties that hold across the service's functions, proved once for all
//! inputs.

use vstd::prelude::*;

use crate::coordinate::Coordinate;
use crate::error::ErrorKind;
use crate::json::{JsonV, array_or_empty, field, get_in, lookup};
use crate::operations::current::current_outcome;
use crate::operations::forecast::{
    ForecastType, clamp_days, day_entry, daily_outcome, forecast_outcome, hour_entry, hourly_outcome, series,
};
use crate::operations::geocode::{clamp_count, code_hex, encode_char, is_unreserved, locations_outcome, url_encode};
use crate::operations::{is_temperature_unit, is_wind_speed_unit, temperature_unit_detail, wind_speed_unit_detail};
use crate::service::{
    ALERTS_TOOL, CURRENT_TOOL, FORECAST_TOOL, GEOCODE_TOOL, PlanV, call_plan, catalog, coordinates_required,
    failure_reason, strings_view, temperature_units_view, wind_speed_units_view,
    forecast_type_detail, unknown_tool,
};
use crate::text::{hex, hex_digit};

verus! {

/// Whether `name` is the name of a tool the service offers.
pub open spec fn is_registered(name: Seq<char>) -> bool {
    exists|i: int| 0 <= i < catalog().len() && (#[trigger] catalog()[i]).0 == name
}

proof fn lemma_first_char_of_concat(a: Seq<char>, b: Seq<char>)
    requires
        a.len() > 0,
    ensures
        (a + b).len() > 0,
        (a + b)[0] == a[0],
{
}

/// Every refusal text a registered tool gives opens with `M` or `I`.
proof fn lemma_refusals_open_with(g: Seq<char>, f: Seq<char>, name: Seq<char>, args: JsonV, la: Option<Coordinate>, lo: Option<Coordinate>)
    requires
        call_plan(g, f, name, args, la, lo) matches PlanV::Reject(_),
        name == GEOCODE_TOOL@ || name == CURRENT_TOOL@ || name == FORECAST_TOOL@ || name == ALERTS_TOOL@,
    ensures
        call_plan(g, f, name, args, la, lo) matches PlanV::Reject(m) && m.len() > 0 && (m[0] == 'M' || m[0] == 'I'),
{
    reveal_strlit("Missing required parameter: ");
    reveal_strlit("Invalid coordinates: ");
    reveal_strlit("Invalid parameters: ");
    reveal_strlit("Invalid forecast_type '");
    lemma_first_char_of_concat("Missing required parameter: "@, "name"@);
    lemma_first_char_of_concat("Missing required parameter: "@, "latitude"@);
    lemma_first_char_of_concat("Missing required parameter: "@, "longitude"@);
    let tu = crate::service::str_arg(args, "temperature_unit"@);
    let wu = crate::service::str_arg(args, "wind_speed_unit"@);
    if tu is Some {
        lemma_first_char_of_concat("Invalid parameters: "@, temperature_unit_detail(tu->0));
    }
    if wu is Some {
        lemma_first_char_of_concat("Invalid parameters: "@, wind_speed_unit_detail(wu->0));
    }
    if la is Some && lo is Some {
        match crate::operations::coordinates_outcome(la->0, lo->0) {
            Some(e) => lemma_first_char_of_concat("Invalid coordinates: "@, e.1),
            None => {},
        }
    }
    let kind = crate::service::text_or(crate::service::str_arg(args, "forecast_type"@), "daily"@);
    lemma_first_char_of_concat("Invalid forecast_type '"@, kind + "'. Use 'daily' or 'hourly'."@);
    assert(forecast_type_detail(kind) == "Invalid forecast_type '"@ + (kind + "'. Use 'daily' or 'hourly'."@));
}

/// The tools the service lists and the tools it answers are the same: a call
/// of a listed tool is never refused as an unknown tool, and a call of any
/// other name always is.
pub proof fn law_listed_tools_are_exactly_the_served_ones(
    geocoding_base_url: Seq<char>,
    forecast_base_url: Seq<char>,
    name: Seq<char>,
    args: JsonV,
    latitude: Option<Coordinate>,
    longitude: Option<Coordinate>,
)
    ensures
        is_registered(name) <==> call_plan(geocoding_base_url, forecast_base_url, name, args, latitude, longitude)
            != PlanV::Reject(unknown_tool(name)),
{
    let plan = call_plan(geocoding_base_url, forecast_base_url, name, args, latitude, longitude);
    if is_registered(name) {
        let i = choose|i: int| 0 <= i < catalog().len() && (#[trigger] catalog()[i]).0 == name;
        assert(name == GEOCODE_TOOL@ || name == CURRENT_TOOL@ || name == FORECAST_TOOL@ || name == ALERTS_TOOL@);
        reveal_strlit("Tool not found: ");
        lemma_first_char_of_concat("Tool not found: "@, name);
        if plan matches PlanV::Reject(_) {
            lemma_refusals_open_with(geocoding_base_url, forecast_base_url, name, args, latitude, longitude);
        }
    } else {
        assert(catalog()[0].0 == GEOCODE_TOOL@);
        assert(catalog()[1].0 == CURRENT_TOOL@);
        assert(catalog()[2].0 == FORECAST_TOOL@);
        assert(catalog()[3].0 == ALERTS_TOOL@);
    }
}

/// The property schemas of a tool's argument schema.
pub open spec fn schema_properties(schema: JsonV) -> JsonV {
    field(schema, "properties"@)
}

/// The arguments a tool's argument schema marks as required.
pub open spec fn schema_required(schema: JsonV) -> Seq<JsonV> {
    array_or_empty(schema.get("required"@))
}

/// The values a tool's argument schema allows for the argument `key`.
pub open spec fn schema_choices(schema: JsonV, key: Seq<char>) -> Seq<JsonV> {
    array_or_empty(get_in(schema_properties(schema).get(key), "enum"@))
}

/// The catalogue the service lists is well formed: no two tools share a name,
/// every argument a schema requires is one of its properties, and every unit
/// a schema offers is one the unit checks accept; the current-conditions and
/// forecast tools offer exactly the supported units. (`WeatherService::tools`
/// returns this catalogue whatever the service's hosts.)
pub proof fn law_catalogue_is_well_formed()
    ensures
        forall|i: int, j: int|
            0 <= i < catalog().len() && 0 <= j < catalog().len() && i != j ==> (#[trigger] catalog()[i]).0
                != (#[trigger] catalog()[j]).0,
        forall|i: int, k: int|
            0 <= i < catalog().len() && 0 <= k < schema_required(catalog()[i].2).len() ==> {
                let key = #[trigger] schema_required(#[trigger] catalog()[i].2)[k];
                key matches JsonV::Str(name) && schema_properties(catalog()[i].2).get(name) is Some
            },
        forall|i: int, k: int|
            0 <= i < catalog().len() && 0 <= k < schema_choices(catalog()[i].2, "temperature_unit"@).len() ==> {
                let unit = #[trigger] schema_choices(#[trigger] catalog()[i].2, "temperature_unit"@)[k];
                unit matches JsonV::Str(u) && is_temperature_unit(u)
            },
        forall|i: int, k: int|
            0 <= i < catalog().len() && 0 <= k < schema_choices(catalog()[i].2, "wind_speed_unit"@).len() ==> {
                let unit = #[trigger] schema_choices(#[trigger] catalog()[i].2, "wind_speed_unit"@)[k];
                unit matches JsonV::Str(u) && is_wind_speed_unit(u)
            },
        schema_choices(catalog()[1].2, "temperature_unit"@) == seq![JsonV::Str("celsius"@), JsonV::Str("fahrenheit"@)],
        schema_choices(catalog()[2].2, "temperature_unit"@) == seq![JsonV::Str("celsius"@), JsonV::Str("fahrenheit"@)],
        schema_choices(catalog()[1].2, "wind_speed_unit"@) == seq![
            JsonV::Str("kmh"@),
            JsonV::Str("ms"@),
            JsonV::Str("mph"@),
            JsonV::Str("kn"@),
        ],
        schema_choices(catalog()[2].2, "wind_speed_unit"@) == seq![
            JsonV::Str("kmh"@),
            JsonV::Str("ms"@),
            JsonV::Str("mph"@),
            JsonV::Str("kn"@),
        ],
{
    lemma_tool_names_distinct();
    reveal_strlit("properties");
    reveal_strlit("required");
    reveal_strlit("type");
    reveal_strlit("description");
    reveal_strlit("enum");
    reveal_strlit("count");
    reveal_strlit("language");
    reveal_strlit("name");
    reveal_strlit("days");
    reveal_strlit("forecast_type");
    reveal_strlit("latitude");
    reveal_strlit("longitude");
    reveal_strlit("temperature_unit");
    reveal_strlit("wind_speed_unit");
    reveal_with_fuel(lookup, 7);
    assert(temperature_units_view().map_values(|s: Seq<char>| JsonV::Str(s)) =~= seq![
        JsonV::Str("celsius"@),
        JsonV::Str("fahrenheit"@),
    ]);
    assert(wind_speed_units_view().map_values(|s: Seq<char>| JsonV::Str(s)) =~= seq![
        JsonV::Str("kmh"@),
        JsonV::Str("ms"@),
        JsonV::Str("mph"@),
        JsonV::Str("kn"@),
    ]);
    assert(coordinates_required().map_values(|s: Seq<char>| JsonV::Str(s)) =~= seq![
        JsonV::Str("latitude"@),
        JsonV::Str("longitude"@),
    ]);
    assert(seq!["name"@].map_values(|s: Seq<char>| JsonV::Str(s)) =~= seq![JsonV::Str("name"@)]);
    assert(seq!["daily"@, "hourly"@].map_values(|s: Seq<char>| JsonV::Str(s)) =~= seq![
        JsonV::Str("daily"@),
        JsonV::Str("hourly"@),
    ]);
    let temperatures = seq![JsonV::Str("celsius"@), JsonV::Str("fahrenheit"@)];
    let winds = seq![JsonV::Str("kmh"@), JsonV::Str("ms"@), JsonV::Str("mph"@), JsonV::Str("kn"@)];
    assert(schema_choices(catalog()[0].2, "temperature_unit"@) =~= Seq::<JsonV>::empty());
    let tc = crate::service::choice_property_view(temperature_units_view(), crate::service::TEMPERATURE_UNIT_HELP@);
    let wc = crate::service::choice_property_view(wind_speed_units_view(), crate::service::WIND_SPEED_UNIT_HELP@);
    assert("description"@.len() == 11 && "enum"@.len() == 4 && "type"@.len() == 4);
    assert("days"@.len() == 4 && "forecast_type"@.len() == 13 && "latitude"@.len() == 8);
    assert("longitude"@.len() == 9 && "temperature_unit"@.len() == 16 && "wind_speed_unit"@.len() == 15);
    assert(tc.get("enum"@) == Some(strings_view(temperature_units_view())));
    assert(wc.get("enum"@) == Some(strings_view(wind_speed_units_view())));
    assert(schema_properties(catalog()[1].2).get("temperature_unit"@) == Some(tc));
    assert(schema_properties(catalog()[2].2).get("temperature_unit"@) == Some(tc));
    assert(schema_properties(catalog()[1].2).get("wind_speed_unit"@) == Some(wc));
    assert(schema_properties(catalog()[2].2).get("wind_speed_unit"@) == Some(wc));
    assert(schema_choices(catalog()[1].2, "temperature_unit"@) =~= temperatures);
    assert(schema_choices(catalog()[2].2, "temperature_unit"@) =~= temperatures);
    assert(schema_choices(catalog()[3].2, "temperature_unit"@) =~= Seq::<JsonV>::empty());
    assert(schema_choices(catalog()[0].2, "wind_speed_unit"@) =~= Seq::<JsonV>::empty());
    assert(schema_choices(catalog()[1].2, "wind_speed_unit"@) =~= winds);
    assert(schema_choices(catalog()[2].2, "wind_speed_unit"@) =~= winds);
    assert(schema_choices(catalog()[3].2, "wind_speed_unit"@) =~= Seq::<JsonV>::empty());
}

/// A call whose coordinates or units are refused by local validation never
/// reaches the network: every request the service plans to send carries two
/// in-range coordinates and supported units.
pub proof fn law_only_valid_requests_are_sent(
    geocoding_base_url: Seq<char>,
    forecast_base_url: Seq<char>,
    name: Seq<char>,
    args: JsonV,
    latitude: Option<Coordinate>,
    longitude: Option<Coordinate>,
)
    ensures
        match call_plan(geocoding_base_url, forecast_base_url, name, args, latitude, longitude) {
            PlanV::Current { temperature_unit, wind_speed_unit, .. } | PlanV::Forecast { temperature_unit, wind_speed_unit, .. } => {
                &&& latitude matches Some(la) && la.is_latitude()
                &&& longitude matches Some(lo) && lo.is_longitude()
                &&& is_temperature_unit(temperature_unit)
                &&& is_wind_speed_unit(wind_speed_unit)
            },
            _ => true,
        },
{
}

/// The four tool names differ from one another.
proof fn lemma_tool_names_distinct()
    ensures
        GEOCODE_TOOL@ != CURRENT_TOOL@,
        GEOCODE_TOOL@ != FORECAST_TOOL@,
        GEOCODE_TOOL@ != ALERTS_TOOL@,
        CURRENT_TOOL@ != FORECAST_TOOL@,
        CURRENT_TOOL@ != ALERTS_TOOL@,
        FORECAST_TOOL@ != ALERTS_TOOL@,
{
    reveal_strlit("weather_geocode");
    reveal_strlit("weather_get_current");
    reveal_strlit("weather_get_forecast");
    reveal_strlit("weather_get_alerts");
    assert(GEOCODE_TOOL@[10] != CURRENT_TOOL@[10]);
    assert(GEOCODE_TOOL@[10] != FORECAST_TOOL@[10]);
    assert(GEOCODE_TOOL@[10] != ALERTS_TOOL@[10]);
    assert(CURRENT_TOOL@[12] != FORECAST_TOOL@[12]);
    assert(CURRENT_TOOL@[12] != ALERTS_TOOL@[12]);
    assert(FORECAST_TOOL@[12] != ALERTS_TOOL@[12]);
}

/// Whether `s` begins with `prefix`.
pub open spec fn starts_with(s: Seq<char>, prefix: Seq<char>) -> bool {
    prefix.len() <= s.len() && s.subrange(0, prefix.len() as int) == prefix
}

/// Every request the service plans goes to the host it was configured with:
/// a geocoding search to the geocoding host's `/v1/search`, a
/// current-conditions or forecast request to the forecast host's
/// `/v1/forecast`; an alerts call sends no request at all. A service pointed
/// at a local server plans no request to any other host.
pub proof fn law_requests_go_to_the_configured_hosts(
    geocoding_base_url: Seq<char>,
    forecast_base_url: Seq<char>,
    name: Seq<char>,
    args: JsonV,
    latitude: Option<Coordinate>,
    longitude: Option<Coordinate>,
)
    ensures
        match call_plan(geocoding_base_url, forecast_base_url, name, args, latitude, longitude) {
            PlanV::Geocode { url, .. } => starts_with(url, geocoding_base_url + "/v1/search"@),
            PlanV::Current { url, .. } => starts_with(url, forecast_base_url + "/v1/forecast"@),
            PlanV::Forecast { url, .. } => starts_with(url, forecast_base_url + "/v1/forecast"@),
            _ => true,
        },
        name == ALERTS_TOOL@ ==> (call_plan(geocoding_base_url, forecast_base_url, name, args, latitude, longitude) is Done
            || call_plan(geocoding_base_url, forecast_base_url, name, args, latitude, longitude) is Reject),
{
    lemma_tool_names_distinct();
    reveal_strlit("/v1/search");
    reveal_strlit("/v1/search?name=");
    reveal_strlit("/v1/forecast");
    reveal_strlit("/v1/forecast?latitude=");
    let g = geocoding_base_url + "/v1/search"@;
    let f = forecast_base_url + "/v1/forecast"@;
    match call_plan(geocoding_base_url, forecast_base_url, name, args, latitude, longitude) {
        PlanV::Geocode { url, .. } => {
            assert forall|i: int| 0 <= i < g.len() implies url[i] == g[i] by {
                if i >= geocoding_base_url.len() {
                    assert(url[i] == (geocoding_base_url + "/v1/search?name="@)[i]);
                }
            }
            assert(url.subrange(0, g.len() as int) =~= g);
        },
        PlanV::Current { url, .. } => {
            assert forall|i: int| 0 <= i < f.len() implies url[i] == f[i] by {
                if i >= forecast_base_url.len() {
                    assert(url[i] == (forecast_base_url + "/v1/forecast?latitude="@)[i]);
                }
            }
            assert(url.subrange(0, f.len() as int) =~= f);
        },
        PlanV::Forecast { url, .. } => {
            assert forall|i: int| 0 <= i < f.len() implies url[i] == f[i] by {
                if i >= forecast_base_url.len() {
                    assert(url[i] == (forecast_base_url + "/v1/forecast?latitude="@)[i]);
                }
            }
            assert(url.subrange(0, f.len() as int) =~= f);
        },
        _ => {},
    }
}

/// What local validation refuses is a decline, not a fault: an operation that
/// ends without the network never bumps the upstream-failure counter.
pub proof fn law_local_refusals_are_not_counted(
    geocoding_base_url: Seq<char>,
    forecast_base_url: Seq<char>,
    name: Seq<char>,
    args: JsonV,
    latitude: Option<Coordinate>,
    longitude: Option<Coordinate>,
)
    ensures
        call_plan(geocoding_base_url, forecast_base_url, name, args, latitude, longitude) matches PlanV::Done(Err(e))
            ==> failure_reason(e.0) is None,
{
}

/// A "no match" answer from the geocoder is a decline, not a fault: the only
/// error a delivered geocoding answer can give is not counted.
pub proof fn law_no_match_is_not_counted(results: Option<Vec<crate::operations::geocode::GeocodingResult>>, name: Seq<char>)
    ensures
        locations_outcome(results, name) matches Err(e) ==> e.0 == ErrorKind::LocationNotFound && failure_reason(e.0) is None,
{
}

/// Every way a delivered forecast-API answer can fail is a fault reaching
/// outward, and is counted.
pub proof fn law_forecast_api_faults_are_counted(
    resp: JsonV,
    forecast_type: ForecastType,
    temperature_unit: Seq<char>,
    wind_speed_unit: Seq<char>,
)
    ensures
        current_outcome(resp, temperature_unit, wind_speed_unit) matches Err(e) ==> failure_reason(e.0) is Some,
        forecast_outcome(resp, forecast_type, temperature_unit, wind_speed_unit) matches Err(e) ==> failure_reason(e.0) is Some,
{
}

/// A request that fails in transport is a fault reaching outward: whatever the
/// operation, its outcome is an HTTP error carrying the transport's own
/// description, and it is counted as a network fault.
pub proof fn law_transport_failures_are_counted<T>(detail: String, shape: spec_fn(T) -> Result<JsonV, (ErrorKind, Seq<char>)>)
    ensures
        crate::service::answered(Err::<T, String>(detail), shape) == Err::<JsonV, (ErrorKind, Seq<char>)>((ErrorKind::Http, detail@)),
        failure_reason(ErrorKind::Http) == Some("network"@),
{
}

/// The reason label of the upstream-failure counter comes from a fixed set of
/// three words, so no caller-supplied text (a place name or a coordinate) can
/// ever become a label.
pub proof fn law_failure_reasons_are_bounded(kind: ErrorKind)
    ensures
        failure_reason(kind) matches Some(r) ==> r == "network"@ || r == "api_error"@ || r == "malformed_response"@,
{
}

/// A forecast never asks for more than 16 days, nor for fewer than one, and a
/// request within that range is honoured as it is.
pub proof fn law_forecast_days_stay_within_sixteen(days: u32)
    ensures
        1 <= clamp_days(days) <= 16,
        1 <= days <= 16 ==> clamp_days(days) == days,
{
}

/// A geocoding search asks for one to ten results, and a count within that
/// range is honoured as it is.
pub proof fn law_geocode_count_stays_within_ten(count: u32)
    ensures
        1 <= clamp_count(count) <= 10,
        1 <= count <= 10 ==> clamp_count(count) == count,
{
}

/// Whether a character is an upper-case hexadecimal digit.
pub open spec fn is_upper_hex(c: char) -> bool {
    ('0' <= c && c <= '9') || ('A' <= c && c <= 'F')
}

proof fn lemma_hex_digit(d: nat)
    requires
        d < 16,
    ensures
        is_upper_hex(hex_digit(d)),
{
    if d < 10 {
        assert(('0' as nat + d) as char as nat == '0' as nat + d);
    } else {
        assert(('A' as nat + (d - 10)) as char as nat == 'A' as nat + (d - 10));
    }
}

proof fn lemma_hex_digits(n: nat)
    ensures
        forall|i: int| 0 <= i < hex(n).len() ==> is_upper_hex(#[trigger] hex(n)[i]),
    decreases n,
{
    if n >= 16 {
        lemma_hex_digits(n / 16);
        lemma_hex_digit(n % 16);
        assert forall|i: int| 0 <= i < hex(n).len() implies is_upper_hex(#[trigger] hex(n)[i]) by {
            if i < hex(n / 16).len() {
                assert(hex(n)[i] == hex(n / 16)[i]);
            }
        }
    } else {
        lemma_hex_digit(n);
    }
}

/// A name written into a query string cannot break out of its value: every
/// character of its encoding is unreserved, `%`, or an upper-case hex digit,
/// so it holds no `&`, `=`, `#` or space.
pub proof fn law_url_encoding_stays_in_its_value(s: Seq<char>)
    ensures
        forall|i: int|
            0 <= i < url_encode(s).len() ==> {
                let c = #[trigger] url_encode(s)[i];
                is_unreserved(c) || c == '%' || is_upper_hex(c)
            },
    decreases s.len(),
{
    if s.len() > 0 {
        law_url_encoding_stays_in_its_value(s.drop_last());
        let c = s.last();
        if !is_unreserved(c) {
            lemma_hex_digits(c as nat);
            assert forall|i: int| 0 <= i < code_hex(c as nat).len() implies is_upper_hex(#[trigger] code_hex(c as nat)[i]) by {
                if (c as nat) < 16 && i > 0 {
                    assert(code_hex(c as nat)[i] == hex(c as nat)[i - 1]);
                }
            }
        }
        let a = url_encode(s.drop_last());
        let b = encode_char(c);
        assert forall|i: int| 0 <= i < (a + b).len() implies {
            let d = #[trigger] (a + b)[i];
            is_unreserved(d) || d == '%' || is_upper_hex(d)
        } by {
            if i >= a.len() && !is_unreserved(c) && i > a.len() {
                assert((a + b)[i] == code_hex(c as nat)[i - a.len() - 1]);
            }
        }
    }
}

/// A text written with ASCII characters only.
pub open spec fn is_ascii(s: Seq<char>) -> bool {
    forall|i: int| 0 <= i < s.len() ==> (#[trigger] s[i] as nat) < 128
}

/// The value of an upper-case hexadecimal digit.
pub open spec fn hex_value(c: char) -> nat {
    if '0' <= c && c <= '9' {
        (c as nat - '0' as nat) as nat
    } else {
        (c as nat - 'A' as nat + 10) as nat
    }
}

/// Percent-decoding of a query value: `%` and two upper-case hex digits stand
/// for the character with that code, any other character for itself.
pub open spec fn url_decode(t: Seq<char>) -> Seq<char>
    decreases t.len(),
{
    if t.len() == 0 {
        Seq::empty()
    } else if t[0] == '%' && t.len() >= 3 && is_upper_hex(t[1]) && is_upper_hex(t[2]) {
        seq![((hex_value(t[1]) * 16 + hex_value(t[2])) as char)] + url_decode(t.subrange(3, t.len() as int))
    } else {
        seq![t[0]] + url_decode(t.drop_first())
    }
}

proof fn lemma_hex_value(d: nat)
    requires
        d < 16,
    ensures
        is_upper_hex(hex_digit(d)),
        hex_value(hex_digit(d)) == d,
{
    lemma_hex_digit(d);
    if d < 10 {
        assert(('0' as nat + d) as char as nat == '0' as nat + d);
    } else {
        assert(('A' as nat + (d - 10)) as char as nat == 'A' as nat + (d - 10));
    }
}

/// A number of at least sixteen has at least two hexadecimal digits.
proof fn lemma_hex_len(n: nat)
    ensures
        hex(n).len() >= 1,
        n >= 16 ==> hex(n).len() >= 2,
    decreases n,
{
    if n >= 16 {
        lemma_hex_len(n / 16);
    }
}

proof fn lemma_encode_concat(a: Seq<char>, b: Seq<char>)
    ensures
        url_encode(a + b) == url_encode(a) + url_encode(b),
    decreases b.len(),
{
    if b.len() == 0 {
        assert(a + b =~= a);
        assert(url_encode(a) + url_encode(b) =~= url_encode(a));
    } else {
        lemma_encode_concat(a, b.drop_last());
        assert((a + b).drop_last() =~= a + b.drop_last());
        assert((a + b).last() == b.last());
        assert(url_encode(a + b) =~= url_encode(a) + url_encode(b));
    }
}

proof fn lemma_encode_front(s: Seq<char>)
    requires
        s.len() > 0,
    ensures
        url_encode(s) == encode_char(s[0]) + url_encode(s.drop_first()),
{
    let head = seq![s[0]];
    assert(head + s.drop_first() =~= s);
    lemma_encode_concat(head, s.drop_first());
    assert(head.drop_last() =~= Seq::<char>::empty());
    assert(url_encode(head.drop_last()) =~= Seq::<char>::empty());
    assert(head.last() == s[0]);
    assert(url_encode(head) =~= encode_char(s[0]));
}

proof fn lemma_decode_char(c: char, rest: Seq<char>)
    requires
        (c as nat) < 128,
    ensures
        url_decode(encode_char(c) + rest) == seq![c] + url_decode(rest),
{
    let t = encode_char(c) + rest;
    if is_unreserved(c) {
        assert(t[0] == c);
        assert(t.drop_first() =~= rest);
    } else {
        let n = c as nat;
        let (h1, h2) = if n < 16 {
            ('0', hex_digit(n))
        } else {
            (hex_digit(n / 16), hex_digit(n % 16))
        };
        lemma_hex_value(n % 16);
        if n < 16 {
            lemma_hex_value(n);
            assert(hex(n) == seq![hex_digit(n)]);
            assert(encode_char(c) =~= seq!['%', h1, h2]);
            assert(hex_value('0') == 0);
        } else {
            lemma_hex_value(n / 16);
            assert(hex(n / 16) == seq![hex_digit(n / 16)]);
            assert(hex(n) == hex(n / 16).push(hex_digit(n % 16)));
            assert(encode_char(c) =~= seq!['%', h1, h2]);
        }
        assert(is_upper_hex(h1) && is_upper_hex(h2));
        assert(hex_value(h1) * 16 + hex_value(h2) == n);
        assert(t[0] == '%' && t[1] == h1 && t[2] == h2);
        assert(t.subrange(3, t.len() as int) =~= rest);
        assert((n as char) == c);
    }
}

/// Each `%` in an encoded text opens an escape: two upper-case hexadecimal
/// digits follow it.
pub proof fn law_percent_is_followed_by_two_hex_digits(s: Seq<char>)
    ensures
        forall|i: int|
            0 <= i < url_encode(s).len() && #[trigger] url_encode(s)[i] == '%' ==> {
                &&& i + 2 < url_encode(s).len()
                &&& is_upper_hex(url_encode(s)[i + 1])
                &&& is_upper_hex(url_encode(s)[i + 2])
            },
    decreases s.len(),
{
    if s.len() > 0 {
        law_percent_is_followed_by_two_hex_digits(s.drop_last());
        let a = url_encode(s.drop_last());
        let c = s.last();
        let b = encode_char(c);
        assert(url_encode(s) == a + b);
        if !is_unreserved(c) {
            let n = c as nat;
            lemma_hex_len(n);
            lemma_hex_digits(n);
            assert(b.len() >= 3);
            assert forall|k: int| 1 <= k < b.len() implies is_upper_hex(#[trigger] b[k]) by {
                if n < 16 {
                    if k > 1 {
                        assert(b[k] == hex(n)[k - 2]);
                    }
                } else {
                    assert(b[k] == hex(n)[k - 1]);
                }
            }
        }
        assert forall|i: int| 0 <= i < (a + b).len() && #[trigger] (a + b)[i] == '%' implies {
            &&& i + 2 < (a + b).len()
            &&& is_upper_hex((a + b)[i + 1])
            &&& is_upper_hex((a + b)[i + 2])
        } by {
            if i < a.len() {
                assert(a[i] == '%');
            } else {
                let k = i - a.len();
                assert(b[k] == '%');
                if is_unreserved(c) {
                    assert(b[k] == c);
                } else if k > 0 {
                    assert(is_upper_hex(b[k]));
                }
                assert(k == 0 && !is_unreserved(c));
                assert((a + b)[i + 1] == b[1]);
                assert((a + b)[i + 2] == b[2]);
            }
        }
    }
}

/// Percent-decoding the encoding of an ASCII text gives the text back.
pub proof fn law_url_decoding_undoes_encoding(s: Seq<char>)
    requires
        is_ascii(s),
    ensures
        url_decode(url_encode(s)) == s,
    decreases s.len(),
{
    if s.len() == 0 {
        assert(url_encode(s) =~= Seq::<char>::empty());
    } else {
        let rest = s.drop_first();
        assert(is_ascii(rest)) by {
            assert forall|i: int| 0 <= i < rest.len() implies (#[trigger] rest[i] as nat) < 128 by {
                assert(rest[i] == s[i + 1]);
            }
        }
        law_url_decoding_undoes_encoding(rest);
        lemma_encode_front(s);
        assert((s[0] as nat) < 128);
        lemma_decode_char(s[0], url_encode(rest));
        assert(seq![s[0]] + rest =~= s);
    }
}

/// A daily forecast has one entry per day of the upstream `time` series, and
/// each entry's description is the one its weather code stands for.
pub proof fn law_daily_entries_follow_the_time_series(resp: JsonV, temperature_unit: Seq<char>, wind_speed_unit: Seq<char>)
    ensures
        daily_outcome(resp, temperature_unit, wind_speed_unit) matches Ok(JsonV::Object(m)) ==> {
            let daily = resp.get("daily"@)->0;
            &&& m[0].0 == "days"@
            &&& m[0].1 matches JsonV::Array(days) && days.len() == series(daily, "time"@).len()
                && forall|i: int| 0 <= i < days.len() ==> #[trigger] days[i] == day_entry(daily, i)
        },
{
}

/// An hourly forecast has one entry per hour of the upstream `time` series.
pub proof fn law_hourly_entries_follow_the_time_series(resp: JsonV, temperature_unit: Seq<char>, wind_speed_unit: Seq<char>)
    ensures
        hourly_outcome(resp, temperature_unit, wind_speed_unit) matches Ok(JsonV::Object(m)) ==> {
            let hourly = resp.get("hourly"@)->0;
            &&& m[2].0 == "hours"@
            &&& m[2].1 matches JsonV::Array(hours) && hours.len() == series(hourly, "time"@).len()
                && forall|i: int| 0 <= i < hours.len() ==> #[trigger] hours[i] == hour_entry(hourly, i)
        },
{
}

} // verus!
