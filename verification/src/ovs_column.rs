//! The wire form of column values.
//!
//! A column of a row holds either a bare scalar (a string, a number) or a wrapped
//! value: an array of two elements, the kind and the payload. The kind `"uuid"` wraps
//! the identity of a row, `"named-uuid"` the placeholder of a row that the same
//! transaction inserts, and `"set"` an array of further values.

use crate::json::{as_array, as_str, as_u64, get_field, json_of, items_of, JsonValue};
use crate::json::{array_value, integer_value, string_value};
use crate::ovs_error::{error_with_detail, OvsError, OvsErrorType, OvsErrorView};
use crate::text::same_text;
use vstd::prelude::*;

verus! {

/// The wrapped value `[kind, payload]`.
pub open spec fn wrapped(kind: Seq<char>, payload: JsonValue) -> JsonValue {
    JsonValue::Array(seq![JsonValue::String(kind), payload])
}

/// The payload of a wrapped value of the given kind; `None` for any other value.
pub open spec fn unwrapped(kind: Seq<char>, value: JsonValue) -> Option<JsonValue> {
    match value {
        JsonValue::Array(items) => if items.len() == 2 && items[0] == JsonValue::String(kind) {
            Some(items[1])
        } else {
            None
        },
        _ => None,
    }
}

/// A bare string.
pub open spec fn encoded_text(text: Seq<char>) -> JsonValue {
    JsonValue::String(text)
}

/// The text of a bare string; `None` for any other value.
pub open spec fn decoded_text(value: JsonValue) -> Option<Seq<char>> {
    match value {
        JsonValue::String(text) => Some(text),
        _ => None,
    }
}

/// A bare number.
pub open spec fn encoded_number(number: u64) -> JsonValue {
    JsonValue::Integer(number as int)
}

/// The bare number that a value is; `None` for any other value.
pub open spec fn decoded_number(value: JsonValue) -> Option<u64> {
    value.unsigned()
}

/// The reference `["uuid", id]` to the row with identity `id`.
pub open spec fn encoded_uuid(id: Seq<char>) -> JsonValue {
    wrapped("uuid"@, JsonValue::String(id))
}

/// The identity that a `uuid` reference holds; `None` for any other value.
pub open spec fn decoded_uuid(value: JsonValue) -> Option<Seq<char>> {
    match unwrapped("uuid"@, value) {
        Some(JsonValue::String(id)) => Some(id),
        _ => None,
    }
}

/// The reference `["named-uuid", name]` to a row that the same transaction inserts
/// under the placeholder `name`.
pub open spec fn encoded_named_uuid(name: Seq<char>) -> JsonValue {
    wrapped("named-uuid"@, JsonValue::String(name))
}

/// The set `["set", [items...]]`.
pub open spec fn encoded_set(items: Seq<JsonValue>) -> JsonValue {
    wrapped("set"@, JsonValue::Array(items))
}

/// The elements of a wrapped set, in their order; `None` for any other value.
pub open spec fn decoded_set(value: JsonValue) -> Option<Seq<JsonValue>> {
    match unwrapped("set"@, value) {
        Some(JsonValue::Array(items)) => Some(items),
        _ => None,
    }
}

/// The error for a column that is missing from a row or has another shape than the
/// one asked for. Its detail is the name of the column.
pub open spec fn unexpected_column(column: Seq<char>) -> OvsErrorView {
    error_with_detail(
        OvsErrorType::UnexpectedResponse,
        "key ['"@ + column + "'] is not found in response data"@,
        column,
    )
}

/// Makes the error for the column `column`.
pub fn column_error(column: &str) -> (e: OvsError)
    ensures
        e@ == unexpected_column(column@),
{
    let mut message = "key ['".to_owned();
    message.append(column);
    message.append("'] is not found in response data");
    OvsError::new(OvsErrorType::UnexpectedResponse, message.as_str()).detail(column)
}

/// The payload of a wrapped value of kind `kind`, where `value` is one.
pub fn unwrap_value<'a>(
    kind: &str,
    value: &'a serde_json::Value,
) -> (payload: Option<&'a serde_json::Value>)
    ensures
        match payload {
            Some(inner) => unwrapped(kind@, json_of(*value)) == Some(json_of(*inner)),
            None => unwrapped(kind@, json_of(*value)) is None,
        },
{
    match as_array(value) {
        Some(items) => {
            if items.len() != 2 {
                return None;
            }
            assert(items_of(items@)[0] == json_of(items@[0]));
            assert(items_of(items@)[1] == json_of(items@[1]));
            match as_str(&items[0]) {
                Some(found) => {
                    if same_text(found, kind) {
                        Some(&items[1])
                    } else {
                        None
                    }
                },
                None => None,
            }
        },
        None => None,
    }
}

/// Reads the column `column` of `row` as a bare string.
pub fn text_column(row: &serde_json::Value, column: &str) -> (r: Result<String, OvsError>)
    ensures
        match r {
            Ok(text) => decoded_text(json_of(*row).field(column@)) == Some(text@),
            Err(e) => decoded_text(json_of(*row).field(column@)) is None && e@
                == unexpected_column(column@),
        },
{
    match as_str(get_field(row, column)) {
        Some(text) => Ok(text.to_owned()),
        None => Err(column_error(column)),
    }
}

/// Reads the column `column` of `row` as a `uuid` reference and gives the identity.
pub fn uuid_column(row: &serde_json::Value, column: &str) -> (r: Result<String, OvsError>)
    ensures
        match r {
            Ok(id) => decoded_uuid(json_of(*row).field(column@)) == Some(id@),
            Err(e) => decoded_uuid(json_of(*row).field(column@)) is None && e@
                == unexpected_column(column@),
        },
{
    match unwrap_value("uuid", get_field(row, column)) {
        Some(inner) => match as_str(inner) {
            Some(id) => Ok(id.to_owned()),
            None => Err(column_error(column)),
        },
        None => Err(column_error(column)),
    }
}

/// Reads the column `column` of `row` as a bare number that is not negative. A column
/// that is missing or holds anything else is not set.
pub fn number_column(row: &serde_json::Value, column: &str) -> (r: Option<u64>)
    ensures
        r == decoded_number(json_of(*row).field(column@)),
{
    as_u64(get_field(row, column))
}

/// Reads the column `column` of `row` as a wrapped set and gives its elements.
pub fn set_column<'a>(
    row: &'a serde_json::Value,
    column: &str,
) -> (r: Result<&'a Vec<serde_json::Value>, OvsError>)
    ensures
        match r {
            Ok(items) => decoded_set(json_of(*row).field(column@)) == Some(items_of(items@)),
            Err(e) => decoded_set(json_of(*row).field(column@)) is None && e@
                == unexpected_column(column@),
        },
{
    match unwrap_value("set", get_field(row, column)) {
        Some(inner) => match as_array(inner) {
            Some(items) => Ok(items),
            None => Err(column_error(column)),
        },
        None => Err(column_error(column)),
    }
}

/// Writes a `uuid` reference to the row with identity `id`.
pub fn uuid_value(id: &str) -> (value: serde_json::Value)
    ensures
        json_of(value) == encoded_uuid(id@),
{
    wrap_value("uuid", string_value(id.to_owned()))
}

/// Writes a reference to the row that the same transaction inserts under `name`.
pub fn named_uuid_value(name: &str) -> (value: serde_json::Value)
    ensures
        json_of(value) == encoded_named_uuid(name@),
{
    wrap_value("named-uuid", string_value(name.to_owned()))
}

/// Writes a wrapped set with the given elements, in their order.
pub fn set_value(items: Vec<serde_json::Value>) -> (value: serde_json::Value)
    ensures
        json_of(value) == encoded_set(items_of(items@)),
{
    wrap_value("set", array_value(items))
}

/// Writes the wrapped value `[kind, payload]`.
pub fn wrap_value(kind: &str, payload: serde_json::Value) -> (value: serde_json::Value)
    ensures
        json_of(value) == wrapped(kind@, json_of(payload)),
{
    let mut items: Vec<serde_json::Value> = Vec::new();
    items.push(string_value(kind.to_owned()));
    items.push(payload);
    assert(items_of(items@) =~= seq![JsonValue::String(kind@), json_of(payload)]);
    array_value(items)
}

/// Writes a bare number.
pub fn number_value(number: u16) -> (value: serde_json::Value)
    ensures
        json_of(value) == encoded_number(number as u64),
{
    integer_value(number as i64)
}

/// Unwrapping what was wrapped gives the payload back, and only under the same kind.
pub proof fn lemma_unwrap_wrapped(kind: Seq<char>, other: Seq<char>, payload: JsonValue)
    ensures
        unwrapped(kind, wrapped(kind, payload)) == Some(payload),
        other != kind ==> unwrapped(other, wrapped(kind, payload)) is None,
{
}

/// A value that unwraps under a kind is the wrapping of its payload under that kind.
pub proof fn lemma_wrap_unwrapped(kind: Seq<char>, value: JsonValue)
    requires
        unwrapped(kind, value) is Some,
    ensures
        wrapped(kind, unwrapped(kind, value).unwrap()) == value,
{
    let items = value->Array_0;
    assert(items =~= seq![JsonValue::String(kind), items[1]]);
}

/// Decoding inverts encoding, for each shape of column value: a `uuid` reference, a
/// wrapped set, a bare string and a bare number.
pub proof fn lemma_decode_encoded(id: Seq<char>, items: Seq<JsonValue>, text: Seq<char>, number: u64)
    ensures
        decoded_uuid(encoded_uuid(id)) == Some(id),
        decoded_set(encoded_set(items)) == Some(items),
        decoded_text(encoded_text(text)) == Some(text),
        decoded_number(encoded_number(number)) == Some(number),
{
}

/// Encoding inverts decoding, for each shape of column value: whatever decodes under
/// a shape is the encoding of what it decodes to. For a set this includes the order of
/// its elements.
pub proof fn lemma_encode_decoded(value: JsonValue)
    ensures
        decoded_uuid(value) matches Some(id) ==> encoded_uuid(id) == value,
        decoded_set(value) matches Some(items) ==> encoded_set(items) == value,
        decoded_text(value) matches Some(text) ==> encoded_text(text) == value,
        decoded_number(value) matches Some(number) ==> encoded_number(number) == value,
{
    if decoded_uuid(value) is Some {
        lemma_wrap_unwrapped("uuid"@, value);
    }
    if decoded_set(value) is Some {
        lemma_wrap_unwrapped("set"@, value);
    }
}

} // verus!
