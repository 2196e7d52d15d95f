//! JSON values as plain data, parsed by `serde_json`, and the field
//! lookups that reading restic's JSON output needs.

use vstd::prelude::*;
use crate::text::str_eq;

verus! {

/// A JSON number, by the integer readings the logic uses.
#[derive(Debug, Clone, PartialEq, Eq)]
pub struct JsonNumber {
    /// The number as a `u64`, when it is a non-negative integer in range.
    pub as_u64: Option<u64>,
    /// The number as an `i64`, when it is an integer in range.
    pub as_i64: Option<i64>,
}

/// A JSON value; an object keeps its members in the order the parser
/// yields them, each key once.
#[derive(Debug)]
pub enum JsonValue {
    Null,
    Bool(bool),
    Number(JsonNumber),
    String(String),
    Array(Vec<JsonValue>),
    Object(Vec<(String, JsonValue)>),
}

/// The result of parsing `text` as one JSON value with `serde_json`: the
/// value, or the parser's error message.
pub uninterp spec fn parsed_json(text: Seq<char>) -> Result<JsonValue, String>;

/// The result of parsing `text` as a JSON array with `serde_json`: its
/// elements, or the parser's error message (also when the value is not an
/// array).
pub uninterp spec fn parsed_json_array(text: Seq<char>) -> Result<Vec<JsonValue>, String>;

/// The result of parsing `text` as a JSON array of strings with
/// `serde_json`: the strings, or the parser's error message (also when the
/// value is not an array of strings).
pub uninterp spec fn parsed_json_strings(text: Seq<char>) -> Result<Vec<String>, String>;

/// The pretty-printed JSON text of a list of strings, as `serde_json`
/// writes it, or its error message.
pub uninterp spec fn pretty_json_strings(items: Seq<Seq<char>>) -> Result<Seq<char>, Seq<char>>;

#[verifier::external_type_specification]
#[verifier::external_body]
pub struct ExSerdeJsonValue(serde_json::Value);

/// Converts a `serde_json` value into the library's form, member for
/// member.
///
/// Trusted: a one-for-one conversion of `serde_json::Value`'s variants,
/// reading numbers with `Number::as_u64` and `Number::as_i64`; nothing is
/// stated of it.
#[verifier::external_body]
fn from_serde(v: serde_json::Value) -> JsonValue {
    match v {
        serde_json::Value::Null => JsonValue::Null,
        serde_json::Value::Bool(b) => JsonValue::Bool(b),
        serde_json::Value::Number(n) => JsonValue::Number(
            JsonNumber { as_u64: n.as_u64(), as_i64: n.as_i64() },
        ),
        serde_json::Value::String(s) => JsonValue::String(s),
        serde_json::Value::Array(a) => JsonValue::Array(a.into_iter().map(from_serde).collect()),
        serde_json::Value::Object(m) => JsonValue::Object(
            m.into_iter().map(|(k, v)| (k, from_serde(v))).collect(),
        ),
    }
}

/// Parses `text` as one JSON value.
///
/// Trusted: `serde_json::from_str::<serde_json::Value>`, whose result
/// depends on the text alone (named `parsed_json`); the error is rendered
/// with its `Display`.
#[verifier::external_body]
pub(crate) fn parse_json(text: &str) -> (r: Result<JsonValue, String>)
    ensures
        r == parsed_json(text@),
{
    match serde_json::from_str::<serde_json::Value>(text) {
        Ok(v) => Ok(from_serde(v)),
        Err(e) => Err(e.to_string()),
    }
}

/// Parses `text` as a JSON array.
///
/// Trusted: `serde_json::from_str::<Vec<serde_json::Value>>`, whose result
/// depends on the text alone (named `parsed_json_array`); the error is
/// rendered with its `Display`.
#[verifier::external_body]
pub(crate) fn parse_json_array(text: &str) -> (r: Result<Vec<JsonValue>, String>)
    ensures
        r == parsed_json_array(text@),
{
    match serde_json::from_str::<Vec<serde_json::Value>>(text) {
        Ok(v) => Ok(v.into_iter().map(from_serde).collect()),
        Err(e) => Err(e.to_string()),
    }
}

/// Parses `text` as a JSON array of strings.
///
/// Trusted: `serde_json::from_str::<Vec<String>>`, whose result depends on
/// the text alone (named `parsed_json_strings`); the error is rendered
/// with its `Display`.
#[verifier::external_body]
pub(crate) fn parse_json_strings(text: &str) -> (r: Result<Vec<String>, String>)
    ensures
        r == parsed_json_strings(text@),
{
    match serde_json::from_str::<Vec<String>>(text) {
        Ok(v) => Ok(v),
        Err(e) => Err(e.to_string()),
    }
}

/// Writes a list of strings as pretty-printed JSON.
///
/// Trusted: `serde_json::to_string_pretty` on a `Vec<String>`, whose text
/// depends on the strings alone (named `pretty_json_strings`); the error is
/// rendered with its `Display`.
#[verifier::external_body]
pub(crate) fn to_pretty_json_strings(items: &Vec<String>) -> (r: Result<String, String>)
    ensures
        match r {
            Ok(t) => pretty_json_strings(items@.map_values(|s: String| s@)) == Ok::<Seq<char>, Seq<char>>(t@),
            Err(e) => pretty_json_strings(items@.map_values(|s: String| s@)) == Err::<Seq<char>, Seq<char>>(e@),
        },
{
    match serde_json::to_string_pretty(items) {
        Ok(t) => Ok(t),
        Err(e) => Err(e.to_string()),
    }
}

/// The member named `key` among an object's members: the first with that
/// key.
pub open spec fn member(fields: Seq<(String, JsonValue)>, key: Seq<char>) -> Option<JsonValue>
    decreases fields.len(),
{
    if fields.len() == 0 {
        None
    } else if fields[0].0@ == key {
        Some(fields[0].1)
    } else {
        member(fields.drop_first(), key)
    }
}

/// `v[key]`: the member of an object, or none for a missing member or a
/// value that is not an object.
pub open spec fn field(v: JsonValue, key: Seq<char>) -> Option<JsonValue> {
    match v {
        JsonValue::Object(fields) => member(fields@, key),
        _ => None,
    }
}

/// The text of a string value.
pub open spec fn str_of(v: Option<JsonValue>) -> Option<Seq<char>> {
    match v {
        Some(JsonValue::String(s)) => Some(s@),
        _ => None,
    }
}

/// A value read as a `u64`.
pub open spec fn u64_of(v: Option<JsonValue>) -> Option<u64> {
    match v {
        Some(JsonValue::Number(n)) => n.as_u64,
        _ => None,
    }
}

/// The elements of an array value.
pub open spec fn array_of(v: Option<JsonValue>) -> Option<Seq<JsonValue>> {
    match v {
        Some(JsonValue::Array(a)) => Some(a@),
        _ => None,
    }
}

impl JsonValue {
    /// The member named `key` of an object (`None` for anything else).
    pub fn get(&self, key: &str) -> (r: Option<&JsonValue>)
        ensures
            match r {
                Some(x) => field(*self, key@) == Some(*x),
                None => field(*self, key@) is None,
            },
    {
        match self {
            JsonValue::Object(fields) => {
                let mut i: usize = 0;
                assert(fields@.skip(0) =~= fields@);
                while i < fields.len()
                    invariant
                        i <= fields@.len(),
                        field(*self, key@) == member(fields@, key@),
                        member(fields@, key@) == member(fields@.skip(i as int), key@),
                    decreases fields@.len() - i,
                {
                    assert(fields@.skip(i as int).drop_first() =~= fields@.skip(i + 1));
                    if str_eq(fields[i].0.as_str(), key) {
                        assert(fields@.skip(i as int)[0] == fields@[i as int]);
                        assert(member(fields@.skip(i as int), key@) == Some(fields@[i as int].1));
                        return Some(&fields[i].1);
                    }
                    i = i + 1;
                }
                None
            },
            _ => None,
        }
    }

    /// The text of a string value.
    pub fn as_str(&self) -> (r: Option<&String>)
        ensures
            match r {
                Some(s) => str_of(Some(*self)) == Some(s@),
                None => str_of(Some(*self)) is None,
            },
    {
        match self {
            JsonValue::String(s) => Some(s),
            _ => None,
        }
    }

    /// A number read as a `u64`.
    pub fn as_u64(&self) -> (r: Option<u64>)
        ensures
            r == u64_of(Some(*self)),
    {
        match self {
            JsonValue::Number(n) => n.as_u64,
            _ => None,
        }
    }

    /// The elements of an array.
    pub fn as_array(&self) -> (r: Option<&Vec<JsonValue>>)
        ensures
            match r {
                Some(a) => array_of(Some(*self)) == Some(a@),
                None => array_of(Some(*self)) is None,
            },
    {
        match self {
            JsonValue::Array(a) => Some(a),
            _ => None,
        }
    }
}

/// `v[key]` read as text.
pub fn str_field<'a>(v: &'a JsonValue, key: &str) -> (r: Option<&'a String>)
    ensures
        match r {
            Some(s) => str_of(field(*v, key@)) == Some(s@),
            None => str_of(field(*v, key@)) is None,
        },
{
    match v.get(key) {
        Some(x) => x.as_str(),
        None => None,
    }
}

/// `v[key]` read as a `u64`.
pub fn u64_field(v: &JsonValue, key: &str) -> (r: Option<u64>)
    ensures
        r == u64_of(field(*v, key@)),
{
    match v.get(key) {
        Some(x) => x.as_u64(),
        None => None,
    }
}

/// `v[key]` read as an array.
pub fn array_field<'a>(v: &'a JsonValue, key: &str) -> (r: Option<&'a Vec<JsonValue>>)
    ensures
        match r {
            Some(a) => array_of(field(*v, key@)) == Some(a@),
            None => array_of(field(*v, key@)) is None,
        },
{
    match v.get(key) {
        Some(x) => x.as_array(),
        None => None,
    }
}

} // verus!
