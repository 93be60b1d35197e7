//! JSON values as the market-data responses carry them, and the lookups the
//! response readers make in them.
//!
//! A JSON number is kept as the text that `serde_json` prints for it; objects keep
//! their members in order. Response bodies are parsed by `serde_json` behind
//! [`parse_json`].
use vstd::prelude::*;

use serde_json::Value;

use crate::meroalpha_api::{ApiFailure, MeroAlphaApiError};
use crate::numeric::{is_float_literal, NumericText};
use crate::text::{chars_of, string_of, str_eq, trim, trim_chars};

verus! {

broadcast use vstd::string::group_string_axioms;

/// A JSON value.
#[derive(Debug, PartialEq)]
pub enum Json {
    Null,
    Bool(bool),
    Number(String),
    String(String),
    Array(Vec<Json>),
    Object(Vec<(String, Json)>),
}

/// The value of the first member named `key` among `members`.
pub open spec fn member(members: Seq<(String, Json)>, key: Seq<char>) -> Option<Json>
    decreases members.len(),
{
    if members.len() == 0 {
        None
    } else if members[0].0@ == key {
        Some(members[0].1)
    } else {
        member(members.drop_first(), key)
    }
}

/// `serde_json::Value`, the document that `serde_json::from_str` parses.
#[verifier::external_type_specification]
#[verifier::external_body]
pub struct ExJsonValue(Value);

/// What `serde_json::from_str::<serde_json::Value>` gives for a text: the parsed
/// document, or the description of the syntax error.
pub uninterp spec fn json_parse(body: Seq<char>) -> Result<Json, Seq<char>>;

/// The document a response body holds, or the `InvalidJson` failure for a body
/// that is not JSON.
pub open spec fn body_json(body: Seq<char>) -> Result<Json, ApiFailure> {
    match json_parse(body) {
        Ok(j) => Ok(j),
        Err(m) => Err(ApiFailure::InvalidJson(m)),
    }
}

/// A `serde_json::Value` as a [`Json`], variant by variant; a number keeps the
/// text that `serde_json` prints for it.
#[verifier::external_body]
fn json_from_value(value: Value) -> Json {
    match value {
        Value::Null => Json::Null,
        Value::Bool(b) => Json::Bool(b),
        Value::Number(n) => Json::Number(n.to_string()),
        Value::String(s) => Json::String(s),
        Value::Array(items) => Json::Array(items.into_iter().map(json_from_value).collect()),
        Value::Object(members) => Json::Object(members.into_iter().map(|(k, v)| (k, json_from_value(v))).collect()),
    }
}

/// Parses a response body with `serde_json::from_str` into a `serde_json::Value`.
/// The contract claims that the result is the one the name `json_parse` gives
/// for the body: the document, converted variant by variant into a [`Json`], or
/// `InvalidJson` with `serde_json`'s description of the error.
#[verifier::external_body]
pub(crate) fn parse_json(body: &str) -> (r: Result<Json, MeroAlphaApiError>)
    ensures
        match json_parse(body@) {
            Ok(j) => r == Ok::<Json, MeroAlphaApiError>(j),
            Err(m) => r matches Err(MeroAlphaApiError::InvalidJson(e)) && e@ == m,
        },
{
    match serde_json::from_str::<Value>(body) {
        Ok(value) => Ok(json_from_value(value)),
        Err(error) => Err(MeroAlphaApiError::InvalidJson(error.to_string())),
    }
}

/// The member `key` of an object; nothing for a value that is not an object.
pub open spec fn get(v: Json, key: Seq<char>) -> Option<Json> {
    match v {
        Json::Object(members) => member(members@, key),
        _ => None,
    }
}

/// The number a value stands for, as text: a JSON number or a string, when the
/// `f64` parser accepts its text as it is.
pub open spec fn number_of(v: Json) -> Option<Seq<char>> {
    match v {
        Json::Number(s) | Json::String(s) => if is_float_literal(s@) {
            Some(s@)
        } else {
            None
        },
        _ => None,
    }
}

/// The text a value holds, trimmed, when it is a string that is not blank.
pub open spec fn text_of(v: Json) -> Option<Seq<char>> {
    match v {
        Json::String(s) => if trim(s@).len() > 0 {
            Some(trim(s@))
        } else {
            None
        },
        _ => None,
    }
}

/// The first of the members `fields` of `row` that holds a number.
pub open spec fn first_number_of(row: Json, fields: Seq<Seq<char>>) -> Option<Seq<char>>
    decreases fields.len(),
{
    if fields.len() == 0 {
        None
    } else {
        match get(row, fields[0]) {
            Some(v) => match number_of(v) {
                Some(n) => Some(n),
                None => first_number_of(row, fields.drop_first()),
            },
            None => first_number_of(row, fields.drop_first()),
        }
    }
}

/// The first of the members `fields` of `row` that holds a non-blank string, trimmed.
pub open spec fn first_text_of(row: Json, fields: Seq<Seq<char>>) -> Option<Seq<char>>
    decreases fields.len(),
{
    if fields.len() == 0 {
        None
    } else {
        match get(row, fields[0]) {
            Some(v) => match text_of(v) {
                Some(t) => Some(t),
                None => first_text_of(row, fields.drop_first()),
            },
            None => first_text_of(row, fields.drop_first()),
        }
    }
}

pub open spec fn str_views(v: Seq<&str>) -> Seq<Seq<char>> {
    v.map_values(|x: &str| x@)
}

pub open spec fn option_text(o: Option<String>) -> Option<Seq<char>> {
    match o {
        Some(s) => Some(s@),
        None => None,
    }
}

pub open spec fn option_number(o: Option<NumericText>) -> Option<Seq<char>> {
    match o {
        Some(n) => Some(n@),
        None => None,
    }
}

impl Json {
    /// The member `key` of this value, if it is an object that has one.
    pub fn get(&self, key: &str) -> (r: Option<&Json>)
        ensures
            match get(*self, key@) {
                Some(v) => r matches Some(x) && *x == v,
                None => r is None,
            },
    {
        match self {
            Json::Object(members) => {
                let mut i: usize = 0;
                assert(members@.skip(0) =~= members@);
                while i < members.len()
                    invariant
                        get(*self, key@) == member(members@, key@),
                        i <= members@.len(),
                        member(members@, key@) == member(members@.skip(i as int), key@),
                    decreases members@.len() - i,
                {
                    let ghost rest = members@.skip(i as int);
                    assert(rest[0] == members@[i as int]);
                    assert(rest.drop_first() =~= members@.skip(i + 1));
                    if str_eq(members[i].0.as_str(), key) {
                        return Some(&members[i].1);
                    }
                    i = i + 1;
                }
                None
            },
            _ => None,
        }
    }

    /// The number this value stands for, as text.
    pub fn number(&self) -> (r: Option<NumericText>)
        ensures
            option_number(r) == number_of(*self),
    {
        match self {
            Json::Number(s) | Json::String(s) => NumericText::parse(s.as_str()),
            _ => None,
        }
    }

    /// The text this value holds, trimmed, when it is a string that is not blank.
    pub fn text(&self) -> (r: Option<String>)
        ensures
            option_text(r) == text_of(*self),
    {
        match self {
            Json::String(s) => {
                let chars = chars_of(s.as_str());
                let t = trim_chars(chars.as_slice());
                if t.len() > 0 {
                    Some(string_of(t.as_slice()))
                } else {
                    None
                }
            },
            _ => None,
        }
    }

    /// Whether this value is an object.
    pub fn is_object(&self) -> (b: bool)
        ensures
            b == (*self is Object),
    {
        match self {
            Json::Object(_) => true,
            _ => false,
        }
    }

    /// The value itself, if it is a boolean.
    pub fn as_bool(&self) -> (r: Option<bool>)
        ensures
            match *self {
                Json::Bool(b) => r == Some(b),
                _ => r is None,
            },
    {
        match self {
            Json::Bool(b) => Some(*b),
            _ => None,
        }
    }
}

/// The first of the members `fields` of `row` that holds a number.
pub fn first_number(row: &Json, fields: &[&str]) -> (r: Option<NumericText>)
    ensures
        option_number(r) == first_number_of(*row, str_views(fields@)),
{
    let ghost fs = str_views(fields@);
    let mut i: usize = 0;
    assert(fs.skip(0) =~= fs);
    while i < fields.len()
        invariant
            fs == str_views(fields@),
            i <= fields@.len(),
            first_number_of(*row, fs) == first_number_of(*row, fs.skip(i as int)),
        decreases fields@.len() - i,
    {
        let ghost rest = fs.skip(i as int);
        assert(rest[0] == fields@[i as int]@);
        assert(rest.drop_first() =~= fs.skip(i + 1));
        match row.get(fields[i]) {
            Some(v) => match v.number() {
                Some(n) => {
                    return Some(n);
                },
                None => {},
            },
            None => {},
        }
        i = i + 1;
    }
    None
}

/// The first of the members `fields` of `row` that holds a non-blank string, trimmed.
pub fn first_string(row: &Json, fields: &[&str]) -> (r: Option<String>)
    ensures
        option_text(r) == first_text_of(*row, str_views(fields@)),
{
    let ghost fs = str_views(fields@);
    let mut i: usize = 0;
    assert(fs.skip(0) =~= fs);
    while i < fields.len()
        invariant
            fs == str_views(fields@),
            i <= fields@.len(),
            first_text_of(*row, fs) == first_text_of(*row, fs.skip(i as int)),
        decreases fields@.len() - i,
    {
        let ghost rest = fs.skip(i as int);
        assert(rest[0] == fields@[i as int]@);
        assert(rest.drop_first() =~= fs.skip(i + 1));
        match row.get(fields[i]) {
            Some(v) => match v.text() {
                Some(t) => {
                    return Some(t);
                },
                None => {},
            },
            None => {},
        }
        i = i + 1;
    }
    None
}

} // verus!
