use vstd::prelude::*;
use vstd::string::*;
use crate::numeric::{decimal_of, millis_in_range, parse_decimal, utc_millis_in_range, DecimalValue};

verus! {

/// A parsed JSON document. Integers that fit in `i64` are held as such;
/// other numbers keep their text.
#[derive(Debug)]
pub enum Json {
    Null,
    Bool(bool),
    Int(i64),
    Number(String),
    Str(String),
    Array(Vec<Json>),
    Object(Vec<JsonField>),
}

/// One member of a JSON object.
#[derive(Debug)]
pub struct JsonField {
    pub key: String,
    pub value: Json,
}

/// The value of the first member named `key`, looking from index `i` on.
pub open spec fn field_from(fields: Seq<JsonField>, key: Seq<char>, i: int) -> Option<Json>
    decreases fields.len() - i,
{
    if i < 0 || i >= fields.len() {
        None
    } else if fields[i].key@ == key {
        Some(fields[i].value)
    } else {
        field_from(fields, key, i + 1)
    }
}

/// The value of the first member named `key`.
pub open spec fn field_of(fields: Seq<JsonField>, key: Seq<char>) -> Option<Json> {
    field_from(fields, key, 0)
}

/// Looks up the first member named `key`.
pub fn get_field<'a>(fields: &'a Vec<JsonField>, name: &str) -> (r: Option<&'a Json>)
    ensures
        match r {
            Some(v) => field_of(fields@, name@) == Some(*v),
            None => field_of(fields@, name@) is None,
        },
{
    let key = String::from_str(name);
    let mut i: usize = 0;
    while i < fields.len()
        invariant
            i <= fields.len(),
            key@ == name@,
            field_from(fields@, key@, 0) == field_from(fields@, key@, i as int),
        decreases fields.len() - i,
    {
        if fields[i].key.eq(&key) {
            return Some(&fields[i].value);
        }
        i += 1;
    }
    None
}

#[verifier::external_type_specification]
#[verifier::external_body]
pub struct ExJsonValue(serde_json::Value);

/// Relies on the shape of `serde_json::Value`: copies the tree node for node,
/// keeping integers that `Number::as_i64` gives as such.
#[verifier::external_body]
fn json_from_value(v: &serde_json::Value) -> Json {
    match v {
        serde_json::Value::Null => Json::Null,
        serde_json::Value::Bool(b) => Json::Bool(*b),
        serde_json::Value::Number(n) => match n.as_i64() {
            Some(i) => Json::Int(i),
            None => Json::Number(n.to_string()),
        },
        serde_json::Value::String(s) => Json::Str(s.clone()),
        serde_json::Value::Array(a) => Json::Array(a.iter().map(json_from_value).collect()),
        serde_json::Value::Object(o) => Json::Object(
            o.iter().map(|(k, x)| JsonField { key: k.clone(), value: json_from_value(x) }).collect(),
        ),
    }
}

/// The document that `serde_json` reads from a text, if it reads one.
pub uninterp spec fn json_document(text: Seq<char>) -> Option<Json>;

/// Relies on `serde_json::from_str::<serde_json::Value>`: the outcome depends
/// on the text alone.
#[verifier::external_body]
pub(crate) fn parse_json(text: &str) -> (r: Option<Json>)
    ensures
        r == json_document(text@),
{
    match serde_json::from_str::<serde_json::Value>(text) {
        Ok(v) => Some(json_from_value(&v)),
        Err(_) => None,
    }
}

impl Json {
    /// Reads a text as one JSON document.
    pub fn parse(text: &str) -> (r: Option<Json>)
        ensures
            r == json_document(text@),
    {
        parse_json(text)
    }
}

/// A string member.
pub open spec fn str_at(fields: Seq<JsonField>, key: Seq<char>) -> Option<String> {
    match field_of(fields, key) {
        Some(Json::Str(s)) => Some(s),
        _ => None,
    }
}

/// An optional string member: absent or `null` gives `Some(None)`, a string
/// gives `Some(Some(s))`, anything else does not match.
pub open spec fn opt_str_at(fields: Seq<JsonField>, key: Seq<char>) -> Option<Option<String>> {
    match field_of(fields, key) {
        None => Some(None),
        Some(Json::Null) => Some(None),
        Some(Json::Str(s)) => Some(Some(s)),
        _ => None,
    }
}

/// A 32-bit integer member.
pub open spec fn i32_at(fields: Seq<JsonField>, key: Seq<char>) -> Option<i32> {
    match field_of(fields, key) {
        Some(Json::Int(i)) => if i32::MIN <= i <= i32::MAX {
            Some(i as i32)
        } else {
            None
        },
        _ => None,
    }
}

/// A 64-bit integer member.
pub open spec fn i64_at(fields: Seq<JsonField>, key: Seq<char>) -> Option<i64> {
    match field_of(fields, key) {
        Some(Json::Int(i)) => Some(i),
        _ => None,
    }
}

/// A millisecond timestamp member, within the representable UTC range.
pub open spec fn millis_at(fields: Seq<JsonField>, key: Seq<char>) -> Option<i64> {
    match field_of(fields, key) {
        Some(Json::Int(i)) => if utc_millis_in_range(i) {
            Some(i)
        } else {
            None
        },
        _ => None,
    }
}

/// A decimal member: a decimal text, or an integer.
pub open spec fn decimal_at(fields: Seq<JsonField>, key: Seq<char>) -> Option<DecimalValue> {
    match field_of(fields, key) {
        Some(Json::Str(s)) => decimal_of(s@),
        Some(Json::Int(i)) => Some(DecimalValue { mantissa: i as i128, scale: 0 }),
        _ => None,
    }
}

pub fn str_field(fields: &Vec<JsonField>, name: &str) -> (r: Option<String>)
    ensures
        r == str_at(fields@, name@),
{
    match get_field(fields, name) {
        Some(Json::Str(s)) => Some(s.clone()),
        _ => None,
    }
}

pub fn opt_str_field(fields: &Vec<JsonField>, name: &str) -> (r: Option<Option<String>>)
    ensures
        r == opt_str_at(fields@, name@),
{
    match get_field(fields, name) {
        None => Some(None),
        Some(Json::Null) => Some(None),
        Some(Json::Str(s)) => Some(Some(s.clone())),
        _ => None,
    }
}

pub fn i32_field(fields: &Vec<JsonField>, name: &str) -> (r: Option<i32>)
    ensures
        r == i32_at(fields@, name@),
{
    match get_field(fields, name) {
        Some(Json::Int(i)) => if i32::MIN as i64 <= *i && *i <= i32::MAX as i64 {
            Some(*i as i32)
        } else {
            None
        },
        _ => None,
    }
}

pub fn i64_field(fields: &Vec<JsonField>, name: &str) -> (r: Option<i64>)
    ensures
        r == i64_at(fields@, name@),
{
    match get_field(fields, name) {
        Some(Json::Int(i)) => Some(*i),
        _ => None,
    }
}

pub fn millis_field(fields: &Vec<JsonField>, name: &str) -> (r: Option<i64>)
    ensures
        r == millis_at(fields@, name@),
{
    match get_field(fields, name) {
        Some(Json::Int(i)) => if millis_in_range(*i) {
            Some(*i)
        } else {
            None
        },
        _ => None,
    }
}

pub fn decimal_field(fields: &Vec<JsonField>, name: &str) -> (r: Option<DecimalValue>)
    ensures
        r == decimal_at(fields@, name@),
{
    match get_field(fields, name) {
        Some(Json::Str(s)) => parse_decimal(s.as_str()),
        Some(Json::Int(i)) => Some(DecimalValue { mantissa: *i as i128, scale: 0 }),
        _ => None,
    }
}

} // verus!
