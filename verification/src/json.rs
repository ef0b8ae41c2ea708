//! A JSON document as plain values, and its mathematical view.

use vstd::prelude::*;

verus! {

/// A JSON value.
///
/// Numbers are kept the way a JSON parser keeps them: a non-negative integer,
/// a negative integer, or a finite double given by its IEEE-754 bit pattern.
/// An object is a list of members with distinct keys.
#[derive(Debug, PartialEq)]
pub enum Json {
    Null,
    Bool(bool),
    PosInt(u64),
    NegInt(i64),
    Float(u64),
    Str(String),
    Array(Vec<Json>),
    Object(Vec<(String, Json)>),
}

/// The mathematical view of a [`Json`] value: strings become character sequences.
pub enum JsonV {
    Null,
    Bool(bool),
    PosInt(u64),
    NegInt(i64),
    Float(u64),
    Str(Seq<char>),
    Array(Seq<JsonV>),
    Object(Seq<(Seq<char>, JsonV)>),
}

pub open spec fn json_view(j: Json) -> JsonV
    decreases j,
{
    match j {
        Json::Null => JsonV::Null,
        Json::Bool(b) => JsonV::Bool(b),
        Json::PosInt(n) => JsonV::PosInt(n),
        Json::NegInt(n) => JsonV::NegInt(n),
        Json::Float(bits) => JsonV::Float(bits),
        Json::Str(s) => JsonV::Str(s@),
        Json::Array(v) => JsonV::Array(elements_view(v)),
        Json::Object(m) => JsonV::Object(members_view(m)),
    }
}

/// The views of the elements of an array.
pub open spec fn elements_view(v: Vec<Json>) -> Seq<JsonV>
    decreases v,
{
    Seq::new(v.len() as nat, |i: int| if 0 <= i < v.len() { json_view(v[i]) } else { JsonV::Null })
}

/// The views of the members of an object.
pub open spec fn members_view(m: Vec<(String, Json)>) -> Seq<(Seq<char>, JsonV)>
    decreases m,
{
    Seq::new(
        m.len() as nat,
        |i: int| if 0 <= i < m.len() { (m[i].0@, json_view(m[i].1)) } else { (Seq::empty(), JsonV::Null) },
    )
}

/// The member of `m` whose key is `key`, searching from index `i` on.
pub open spec fn lookup(m: Seq<(Seq<char>, JsonV)>, key: Seq<char>, i: nat) -> Option<JsonV>
    decreases m.len() - i,
{
    if i >= m.len() {
        None
    } else if m[i as int].0 == key {
        Some(m[i as int].1)
    } else {
        lookup(m, key, i + 1)
    }
}

impl JsonV {
    /// What `value.get(key)` gives: the member named `key` of an object, or nothing.
    pub open spec fn get(self, key: Seq<char>) -> Option<JsonV> {
        match self {
            JsonV::Object(m) => lookup(m, key, 0),
            _ => None,
        }
    }

    pub open spec fn as_u64(self) -> Option<u64> {
        match self {
            JsonV::PosInt(n) => Some(n),
            _ => None,
        }
    }

    pub open spec fn as_bool(self) -> Option<bool> {
        match self {
            JsonV::Bool(b) => Some(b),
            _ => None,
        }
    }

    pub open spec fn as_str(self) -> Option<Seq<char>> {
        match self {
            JsonV::Str(s) => Some(s),
            _ => None,
        }
    }

    pub open spec fn as_array(self) -> Option<Seq<JsonV>> {
        match self {
            JsonV::Array(a) => Some(a),
            _ => None,
        }
    }
}

/// What `json!(value.get(key))` gives: the member named `key`, or `null`.
pub open spec fn field(j: JsonV, key: Seq<char>) -> JsonV {
    match j.get(key) {
        Some(v) => v,
        None => JsonV::Null,
    }
}

/// The text of an optional string value, or `default` when it is absent or not a string.
pub open spec fn str_or(o: Option<JsonV>, default: Seq<char>) -> Seq<char> {
    match o {
        Some(v) => match v.as_str() {
            Some(s) => s,
            None => default,
        },
        None => default,
    }
}

/// The elements of an optional array value, or none when it is absent or not an array.
pub open spec fn array_or_empty(o: Option<JsonV>) -> Seq<JsonV> {
    match o {
        Some(v) => match v.as_array() {
            Some(a) => a,
            None => Seq::empty(),
        },
        None => Seq::empty(),
    }
}

/// The element at `i`, or `null` past the end.
pub open spec fn element_or_null(a: Seq<JsonV>, i: int) -> JsonV {
    if 0 <= i < a.len() {
        a[i]
    } else {
        JsonV::Null
    }
}

/// The view of an operation's outcome: the reply it gives, or its error.
pub open spec fn outcome_view(r: Result<Json, crate::error::WeatherError>) -> Result<JsonV, (crate::error::ErrorKind, Seq<char>)> {
    match r {
        Ok(j) => Ok(j@),
        Err(e) => Err(e@),
    }
}

/// The member named `key` of an optional value.
pub open spec fn get_in(o: Option<JsonV>, key: Seq<char>) -> Option<JsonV> {
    match o {
        Some(v) => v.get(key),
        None => None,
    }
}

/// The view of an optional borrowed value.
pub open spec fn opt_view(o: Option<&Json>) -> Option<JsonV> {
    match o {
        Some(j) => Some(j@),
        None => None,
    }
}

/// Whether two string slices hold the same characters.
pub fn str_eq(a: &str, b: &str) -> (r: bool)
    ensures
        r == (a@ == b@),
{
    let x = a.to_owned();
    let y = b.to_owned();
    x == y
}

impl View for Json {
    type V = JsonV;

    open spec fn view(&self) -> JsonV {
        json_view(*self)
    }
}

impl Json {
    /// The member named `key`, when this value is an object that has one.
    #[verifier::loop_isolation(false)]
    pub fn get(&self, key: &str) -> (r: Option<&Json>)
        ensures
            opt_view(r) == self@.get(key@),
    {
        match self {
            Json::Object(m) => {
                let ghost mv = members_view(*m);
                let mut i: usize = 0;
                while i < m.len()
                    invariant
                        i <= m.len(),
                        mv.len() == m.len(),
                        forall|j: int| 0 <= j < m.len() ==> #[trigger] mv[j] == (m[j].0@, m[j].1@),
                        lookup(mv, key@, 0) == lookup(mv, key@, i as nat),
                    decreases m.len() - i,
                {
                    if str_eq(m[i].0.as_str(), key) {
                        return Some(&m[i].1);
                    }
                    i = i + 1;
                }
                None
            },
            _ => None,
        }
    }

    /// The number, when this value is a non-negative integer.
    pub fn as_u64(&self) -> (r: Option<u64>)
        ensures
            r == self@.as_u64(),
    {
        match self {
            Json::PosInt(n) => Some(*n),
            _ => None,
        }
    }

    /// The flag, when this value is a boolean.
    pub fn as_bool(&self) -> (r: Option<bool>)
        ensures
            r == self@.as_bool(),
    {
        match self {
            Json::Bool(b) => Some(*b),
            _ => None,
        }
    }

    /// The text, when this value is a string.
    pub fn as_str(&self) -> (r: Option<&str>)
        ensures
            match r {
                Some(s) => self@.as_str() == Some(s@),
                None => self@.as_str() is None,
            },
    {
        match self {
            Json::Str(s) => Some(s.as_str()),
            _ => None,
        }
    }

    /// The elements, when this value is an array.
    pub fn as_array(&self) -> (r: Option<&Vec<Json>>)
        ensures
            match r {
                Some(a) => self@.as_array() == Some(elements_view(*a)),
                None => self@.as_array() is None,
            },
    {
        match self {
            Json::Array(a) => Some(a),
            _ => None,
        }
    }

    /// A copy of this value.
    #[verifier::loop_isolation(false)]
    pub fn deep_clone(&self) -> (r: Json)
        ensures
            r@ == self@,
        decreases self,
    {
        match self {
            Json::Null => Json::Null,
            Json::Bool(b) => Json::Bool(*b),
            Json::PosInt(n) => Json::PosInt(*n),
            Json::NegInt(n) => Json::NegInt(*n),
            Json::Float(bits) => Json::Float(*bits),
            Json::Str(s) => Json::Str(s.clone()),
            Json::Array(v) => {
                let mut out: Vec<Json> = Vec::new();
                let mut i: usize = 0;
                while i < v.len()
                    invariant
                        i <= v.len(),
                        out.len() == i,
                        forall|j: int| 0 <= j < i ==> (#[trigger] out[j])@ == v[j]@,
                    decreases v.len() - i,
                {
                    let c = v[i].deep_clone();
                    out.push(c);
                    i = i + 1;
                }
                assert(elements_view(out) =~= elements_view(*v));
                Json::Array(out)
            },
            Json::Object(m) => {
                let mut out: Vec<(String, Json)> = Vec::new();
                let mut i: usize = 0;
                while i < m.len()
                    invariant
                        i <= m.len(),
                        out.len() == i,
                        forall|j: int| 0 <= j < i ==> (#[trigger] out[j]).0@ == m[j].0@ && out[j].1@ == m[j].1@,
                    decreases m.len() - i,
                {
                    let c = m[i].1.deep_clone();
                    out.push((m[i].0.clone(), c));
                    i = i + 1;
                }
                assert(members_view(out) =~= members_view(*m));
                Json::Object(out)
            },
        }
    }
}

/// An object member: a key and its value.
pub fn member(key: &str, value: Json) -> (m: (String, Json))
    ensures
        m.0@ == key@,
        m.1 == value,
{
    (key.to_owned(), value)
}

/// A string value.
pub fn string(s: &str) -> (j: Json)
    ensures
        j@ == JsonV::Str(s@),
{
    Json::Str(s.to_owned())
}

/// A copy of the member named `key`, or `null` when there is none.
pub fn field_of(j: &Json, key: &str) -> (r: Json)
    ensures
        r@ == field(j@, key@),
{
    match j.get(key) {
        Some(v) => v.deep_clone(),
        None => Json::Null,
    }
}

/// A copy of an optional value, or `null` when it is absent.
pub fn value_or_null(o: Option<&Json>) -> (r: Json)
    ensures
        r@ == match opt_view(o) {
            Some(v) => v,
            None => JsonV::Null,
        },
{
    match o {
        Some(v) => v.deep_clone(),
        None => Json::Null,
    }
}

/// The text of the string member named `key` of an optional value, or `default`.
pub fn str_member_or<'a>(o: Option<&'a Json>, key: &str, default: &'a str) -> (r: &'a str)
    ensures
        r@ == str_or(
            match o {
                Some(j) => j@.get(key@),
                None => None,
            },
            default@,
        ),
{
    match o {
        Some(j) => match j.get(key) {
            Some(v) => match v.as_str() {
                Some(s) => s,
                None => default,
            },
            None => default,
        },
        None => default,
    }
}

/// The elements of the array member named `key`, or none.
pub fn array_member<'a>(j: &'a Json, key: &str) -> (r: &'a [Json])
    ensures
        elements_view_slice(r) == array_or_empty(j@.get(key@)),
{
    match j.get(key) {
        Some(v) => match v.as_array() {
            Some(a) => {
                let sl = a.as_slice();
                assert(elements_view_slice(sl) =~= elements_view(*a));
                sl
            },
            None => {
                let e: &[Json] = &[];
                assert(elements_view_slice(e) =~= Seq::<JsonV>::empty());
                e
            },
        },
        None => {
            let e: &[Json] = &[];
            assert(elements_view_slice(e) =~= Seq::<JsonV>::empty());
            e
        },
    }
}

/// The views of the values in a slice.
pub open spec fn elements_view_slice(a: &[Json]) -> Seq<JsonV> {
    Seq::new(a@.len(), |i: int| a@[i]@)
}

/// A copy of the element at `i`, or `null` past the end.
pub fn element_or_null_of(a: &[Json], i: usize) -> (r: Json)
    ensures
        r@ == element_or_null(elements_view_slice(a), i as int),
{
    if i < a.len() {
        a[i].deep_clone()
    } else {
        Json::Null
    }
}

} // verus!
