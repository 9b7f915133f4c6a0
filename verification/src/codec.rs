//! Reading and writing JSON text. The text itself is the business of
//! `serde_json`; the statements about it at the head of this file are taken
//! on trust, and the two functions at its end are proved from them.

use vstd::prelude::*;
use vstd::utf8::encode_utf8;
use crate::json::{writable, Json, JsonValue, MAX_DEPTH};

verus! {

#[verifier::external_type_specification]
#[verifier::external_body]
pub struct ExValue(serde_json::Value);

/// The JSON value that a `serde_json::Value` holds. The members of an object
/// stand in the order in which their names were first inserted.
pub uninterp spec fn held(value: serde_json::Value) -> JsonValue;

/// What `serde_json` reads out of a text: the value that the text spells, or,
/// for a text that is not well-formed JSON, the message of its error.
pub uninterp spec fn parsed(text: Seq<u8>) -> Result<JsonValue, Seq<char>>;

/// Whether `text` is JSON text that spells `value`.
pub open spec fn spells(text: Seq<u8>, value: JsonValue) -> bool {
    parsed(text) == Ok::<JsonValue, Seq<char>>(value)
}

/// The compact JSON text that `serde_json` writes for a writable value.
pub uninterp spec fn written(value: JsonValue) -> Seq<char>;

/// `serde_json::from_slice` at the type `Value`. Its error comes back as the
/// text that its `Display` writes: what is wrong, followed by the line and
/// the column, so never empty.
#[verifier::external_body]
fn value_from_slice(text: &[u8]) -> (read: Result<serde_json::Value, String>)
    ensures
        match read {
            Ok(value) => parsed(text@) == Ok::<JsonValue, Seq<char>>(held(value)),
            Err(message) => parsed(text@) == Err::<JsonValue, Seq<char>>(message@)
                && message@.len() > 0,
        },
{
    serde_json::from_slice::<serde_json::Value>(text).map_err(|e| e.to_string())
}

/// Copies a `serde_json::Value` out, variant by variant. A number comes out
/// as an integer where `Number::as_i128` gives one, which it does for all
/// but floating point numbers.
#[verifier::external_body]
fn json_from_value(value: &serde_json::Value) -> (json: Json)
    ensures
        json@ == held(*value),
{
    match value {
        serde_json::Value::Null => Json::Null,
        serde_json::Value::Bool(b) => Json::Bool(*b),
        serde_json::Value::Number(n) => n.as_i128().map_or(Json::Fraction, Json::Integer),
        serde_json::Value::String(s) => Json::String(s.clone()),
        serde_json::Value::Array(a) => Json::Array(a.iter().map(json_from_value).collect()),
        serde_json::Value::Object(m) => Json::Object(
            m.iter().map(|(k, v)| (k.clone(), json_from_value(v))).collect(),
        ),
    }
}

/// Builds a `serde_json::Value`, variant by variant. An integer goes through
/// `Number::from_i128`, which takes what fits in 64 bits, signed or not. An
/// object is collected into a `serde_json::Map`, which keeps one member for
/// each name, in the order of insertion.
#[verifier::external_body]
fn value_from_json(json: &Json) -> (value: serde_json::Value)
    requires
        writable(json@, MAX_DEPTH as nat),
    ensures
        held(value) == json@,
{
    match json {
        Json::Null | Json::Fraction => serde_json::Value::Null,
        Json::Bool(b) => serde_json::Value::Bool(*b),
        Json::Integer(i) => serde_json::Number::from_i128(*i).map_or(serde_json::Value::Null, serde_json::Value::Number),
        Json::String(s) => serde_json::Value::String(s.clone()),
        Json::Array(a) => serde_json::Value::Array(a.iter().map(value_from_json).collect()),
        Json::Object(m) => serde_json::Value::Object(
            m.iter().map(|(k, v)| (k.clone(), value_from_json(v))).collect(),
        ),
    }
}

/// `serde_json::to_string` on a `Value`, which cannot fail: the names of a
/// `Value`'s members are strings and the text is written to memory. The
/// text is a function of what the value holds as long as that is writable:
/// of a number that is no integer, `held` keeps the kind alone, and the text
/// would tell more.
///
/// The text of a writable value reads back to what the value holds. An
/// integer is written in decimal and read as an integer where it fits 64
/// bits, a text is written with escapes that the reader resolves, members
/// are written in their order and read in it, their names being all
/// different, and the nesting is within what the reader takes.
#[verifier::external_body]
fn value_to_string(value: &serde_json::Value) -> (text: String)
    requires
        writable(held(*value), MAX_DEPTH as nat),
    ensures
        text@ == written(held(*value)),
        spells(encode_utf8(text@), held(*value)),
{
    serde_json::to_string(value).unwrap_or_default()
}

/// Reads a JSON text.
pub fn read_json(text: &[u8]) -> (read: Result<Json, String>)
    ensures
        match read {
            Ok(json) => parsed(text@) == Ok::<JsonValue, Seq<char>>(json@),
            Err(message) => parsed(text@) == Err::<JsonValue, Seq<char>>(message@)
                && message@.len() > 0,
        },
{
    match value_from_slice(text) {
        Ok(value) => Ok(json_from_value(&value)),
        Err(message) => Err(message),
    }
}

/// Writes a JSON value as compact text, which reads back to the value.
pub fn write_json(json: &Json) -> (text: String)
    requires
        writable(json@, MAX_DEPTH as nat),
    ensures
        text@ == written(json@),
        spells(encode_utf8(text@), json@),
{
    let value = value_from_json(json);
    value_to_string(&value)
}

} // verus!
