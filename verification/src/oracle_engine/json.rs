//! JSON documents as the exchanges send them, and the few lookups that
//! reading a price message takes.

use vstd::prelude::*;
use vstd::string::StringSliceAdditionalSpecFns;

use crate::word::bytes_equal;

verus! {

#[verifier::external_type_specification]
#[verifier::external_body]
pub struct ExJsonDocument(serde_json::Value);

/// A JSON value. Numbers keep the text that `serde_json` prints for them;
/// objects keep their fields in the order `serde_json` hands them out.
#[derive(Debug)]
pub enum JsonValue {
    Null,
    Bool(bool),
    Number(String),
    Str(String),
    Array(Vec<JsonValue>),
    Object(Vec<(String, JsonValue)>),
}

/// What `serde_json` reads from a text: `None` where it refuses the text.
pub uninterp spec fn json_document(text: Seq<char>) -> Option<JsonValue>;

/// Reads a JSON text with `serde_json::from_str` into a `serde_json::Value`
/// and copies it into a [`JsonValue`]. Claimed: the result is a function of
/// the text alone, named `json_document`; nothing more is stated of it.
#[verifier::external_body]
pub(crate) fn parse_json(text: &str) -> (r: Option<JsonValue>)
    ensures
        r == json_document(text@),
{
    match serde_json::from_str::<serde_json::Value>(text) {
        Ok(v) => Some(copy_value(v)),
        Err(_) => None,
    }
}

/// Copies a `serde_json::Value` variant by variant; a number becomes the text
/// of its `Display`. Part of the conversion in [`parse_json`].
#[verifier::external_body]
fn copy_value(v: serde_json::Value) -> JsonValue {
    match v {
        serde_json::Value::Null => JsonValue::Null,
        serde_json::Value::Bool(b) => JsonValue::Bool(b),
        serde_json::Value::Number(n) => JsonValue::Number(n.to_string()),
        serde_json::Value::String(s) => JsonValue::Str(s),
        serde_json::Value::Array(a) => JsonValue::Array(a.into_iter().map(copy_value).collect()),
        serde_json::Value::Object(m) => JsonValue::Object(
            m.into_iter().map(|(k, x)| (k, copy_value(x))).collect(),
        ),
    }
}

/// The value of the first field named `key`.
pub open spec fn field_value(fields: Seq<(String, JsonValue)>, key: Seq<char>) -> Option<
    JsonValue,
>
    decreases fields.len(),
{
    if fields.len() == 0 {
        None
    } else if fields[0].0@ == key {
        Some(fields[0].1)
    } else {
        field_value(fields.drop_first(), key)
    }
}

/// `value.get(key)`: the field `key` of an object; `None` for anything else.
pub open spec fn json_get(v: JsonValue, key: Seq<char>) -> Option<JsonValue> {
    match v {
        JsonValue::Object(fields) => field_value(fields@, key),
        _ => None,
    }
}

/// `as_str` on a looked-up value.
pub open spec fn json_str(v: Option<JsonValue>) -> Option<Seq<char>> {
    match v {
        Some(JsonValue::Str(s)) => Some(s@),
        _ => None,
    }
}

/// The text of a number on a looked-up value.
pub open spec fn json_number(v: Option<JsonValue>) -> Option<Seq<char>> {
    match v {
        Some(JsonValue::Number(s)) => Some(s@),
        _ => None,
    }
}

/// Whether two texts are equal.
pub fn text_eq(a: &str, b: &str) -> (r: bool)
    ensures
        r == (a@ == b@),
{
    let r = bytes_equal(a.as_bytes(), b.as_bytes());
    proof {
        if r {
            vstd::utf8::encode_utf8_decode_utf8(a@);
            vstd::utf8::encode_utf8_decode_utf8(b@);
        }
    }
    r
}

/// `value.get(key)` on an object.
pub fn get<'a>(v: &'a JsonValue, key: &str) -> (r: Option<&'a JsonValue>)
    ensures
        match r {
            Some(x) => json_get(*v, key@) == Some(*x),
            None => json_get(*v, key@) is None,
        },
{
    match v {
        JsonValue::Object(fields) => {
            let mut i: usize = 0;
            assert(fields@.subrange(0, fields@.len() as int) =~= fields@);
            while i < fields.len()
                invariant
                    i <= fields@.len(),
                    json_get(*v, key@) == field_value(fields@, key@),
                    field_value(fields@, key@) == field_value(
                        fields@.subrange(i as int, fields@.len() as int),
                        key@,
                    ),
                decreases fields@.len() - i,
            {
                let ghost rest = fields@.subrange(i as int, fields@.len() as int);
                let entry = &fields[i];
                assert(rest[0] == fields@[i as int]);
                if text_eq(entry.0.as_str(), key) {
                    assert(rest.len() > 0 && rest[0].0@ == key@);
                    assert(field_value(rest, key@) == Some(rest[0].1));
                    assert(entry.1 == rest[0].1);
                    return Some(&entry.1);
                }
                assert(rest.drop_first() =~= fields@.subrange(i + 1, fields@.len() as int));
                i += 1;
            }
            None
        },
        _ => None,
    }
}

/// `value.get(key)?.as_str()`.
pub fn get_str<'a>(v: &'a JsonValue, key: &str) -> (r: Option<&'a str>)
    ensures
        match r {
            Some(s) => json_str(json_get(*v, key@)) == Some(s@),
            None => json_str(json_get(*v, key@)) is None,
        },
{
    match get(v, key) {
        Some(JsonValue::Str(s)) => Some(s.as_str()),
        _ => None,
    }
}

/// `value.get(key)?.as_number()?.to_string()`.
pub fn get_number_text<'a>(v: &'a JsonValue, key: &str) -> (r: Option<&'a str>)
    ensures
        match r {
            Some(s) => json_number(json_get(*v, key@)) == Some(s@),
            None => json_number(json_get(*v, key@)) is None,
        },
{
    match get(v, key) {
        Some(JsonValue::Number(s)) => Some(s.as_str()),
        _ => None,
    }
}

} // verus!
