//! JSON documents as the codec sees them.
//!
//! Documents are held as `serde_json::Value`. The verifier cannot look inside such a
//! value, so this module names what a value holds ([`json_of`]) and gives every call
//! into `serde_json` that the codec makes a contract over that name. Nothing in this
//! module is proved: the contracts restate the behaviour of `serde_json` and are
//! trusted. Everything outside this module is proved from them.

use vstd::prelude::*;

verus! {

/// The mathematical content of a JSON document.
///
/// An integer is a number that `serde_json` holds as `u64` or `i64`; every other
/// number is a fraction and is known only by the text that `serde_json` prints for it.
/// An object is a map: `serde_json` keeps one value for each key and no order of its own
/// among the keys.
pub enum JsonValue {
    Null,
    Bool(bool),
    Integer(int),
    Fraction(Seq<char>),
    String(Seq<char>),
    Array(Seq<JsonValue>),
    Object(Map<Seq<char>, JsonValue>),
}

impl JsonValue {
    /// The member of an object under `key`; `Null` where `self` is no object or has no
    /// such member.
    pub open spec fn field(self, key: Seq<char>) -> JsonValue {
        match self {
            JsonValue::Object(members) => if members.contains_key(key) {
                members[key]
            } else {
                JsonValue::Null
            },
            _ => JsonValue::Null,
        }
    }

    /// The element of an array at `index`; `Null` where `self` is no array or is
    /// shorter.
    pub open spec fn item(self, index: int) -> JsonValue {
        match self {
            JsonValue::Array(items) => if 0 <= index < items.len() {
                items[index]
            } else {
                JsonValue::Null
            },
            _ => JsonValue::Null,
        }
    }

    /// Whether `self` is an object with a member under `key`.
    pub open spec fn has_field(self, key: Seq<char>) -> bool {
        match self {
            JsonValue::Object(members) => members.contains_key(key),
            _ => false,
        }
    }

    /// The number as a `u64`, where `self` is an integer in that range.
    pub open spec fn unsigned(self) -> Option<u64> {
        match self {
            JsonValue::Integer(n) => if 0 <= n <= u64::MAX {
                Some(n as u64)
            } else {
                None
            },
            _ => None,
        }
    }
}

#[verifier::external_type_specification]
#[verifier::external_body]
pub struct ExValue(serde_json::Value);

#[verifier::external_type_specification]
#[verifier::external_body]
#[verifier::reject_recursive_types(K)]
#[verifier::reject_recursive_types(V)]
pub struct ExMap<K, V>(serde_json::Map<K, V>);

#[verifier::external_type_specification]
#[verifier::external_body]
pub struct ExError(serde_json::Error);

/// The document that a `serde_json::Value` holds.
pub uninterp spec fn json_of(value: serde_json::Value) -> JsonValue;

/// The members that a `serde_json::Map` holds, each value as a document.
pub uninterp spec fn members_of(map: serde_json::Map<String, serde_json::Value>) -> Map<
    Seq<char>,
    JsonValue,
>;

/// The document that `serde_json::from_str` reads from a text, or `None` where it
/// reports an error.
pub uninterp spec fn parsed_text(text: Seq<char>) -> Option<JsonValue>;

/// The compact text that `serde_json` prints for a document.
pub uninterp spec fn printed_text(document: JsonValue) -> Seq<char>;

/// The members of an object that has none.
pub open spec fn no_members() -> Map<Seq<char>, JsonValue> {
    Map::empty()
}

/// The documents that a sequence of values holds, one for one.
pub open spec fn items_of(values: Seq<serde_json::Value>) -> Seq<JsonValue> {
    values.map_values(|value: serde_json::Value| json_of(value))
}

/// `serde_json::from_str` at the type `Value`: parses a text as one JSON document.
/// Trusted: the outcome is the one that [`parsed_text`] names for this text.
#[verifier::external_body]
pub(crate) fn parse_text(text: &str) -> (r: Result<serde_json::Value, serde_json::Error>)
    ensures
        match r {
            Ok(value) => parsed_text(text@) == Some(json_of(value)),
            Err(_) => parsed_text(text@) is None,
        },
{
    serde_json::from_str::<serde_json::Value>(text)
}

/// `to_string` of a `Value`, through its `Display`: the compact JSON text of the
/// document. Trusted: the text is the one that [`printed_text`] names for the document.
#[verifier::external_body]
pub(crate) fn print_text(value: &serde_json::Value) -> (text: String)
    ensures
        text@ == printed_text(json_of(*value)),
{
    value.to_string()
}

/// `value[key]`, the `Index` of a `Value` by a string. Trusted: the result is the
/// member under `key`, and a null where the value is no object or has no such member.
#[verifier::external_body]
pub(crate) fn get_field<'a>(value: &'a serde_json::Value, key: &str) -> (r: &'a serde_json::Value)
    ensures
        json_of(*r) == json_of(*value).field(key@),
{
    &value[key]
}

/// `value[index]`, the `Index` of a `Value` by a `usize`. Trusted: the result is the
/// element at `index`, and a null where the value is no array or is shorter.
#[verifier::external_body]
pub(crate) fn get_item<'a>(value: &'a serde_json::Value, index: usize) -> (r: &'a serde_json::Value)
    ensures
        json_of(*r) == json_of(*value).item(index as int),
{
    &value[index]
}

/// `Value::as_array`. Trusted: the elements of an array, and nothing for any other
/// value.
#[verifier::external_body]
pub(crate) fn as_array<'a>(value: &'a serde_json::Value) -> (r: Option<&'a Vec<serde_json::Value>>)
    ensures
        match json_of(*value) {
            JsonValue::Array(items) => r is Some && items_of(r.unwrap()@) == items,
            _ => r is None,
        },
{
    value.as_array()
}

/// `Value::as_str`. Trusted: the text of a string, and nothing for any other value.
#[verifier::external_body]
pub(crate) fn as_str<'a>(value: &'a serde_json::Value) -> (r: Option<&'a str>)
    ensures
        match json_of(*value) {
            JsonValue::String(text) => r is Some && r.unwrap()@ == text,
            _ => r is None,
        },
{
    value.as_str()
}

/// `Value::as_u64`. Trusted: the number where the value is an integer that is not
/// negative, and nothing for any other value.
#[verifier::external_body]
pub(crate) fn as_u64(value: &serde_json::Value) -> (r: Option<u64>)
    ensures
        r == json_of(*value).unsigned(),
{
    value.as_u64()
}

/// `Value::as_object`. Trusted: the members of an object, and nothing for any other
/// value.
#[verifier::external_body]
pub(crate) fn as_object<'a>(
    value: &'a serde_json::Value,
) -> (r: Option<&'a serde_json::Map<String, serde_json::Value>>)
    ensures
        match json_of(*value) {
            JsonValue::Object(members) => r is Some && members_of(*r.unwrap()) == members,
            _ => r is None,
        },
{
    value.as_object()
}

/// `Map::contains_key`. Trusted: whether the map has a member under `key`.
#[verifier::external_body]
pub(crate) fn contains_key(map: &serde_json::Map<String, serde_json::Value>, key: &str) -> (r: bool)
    ensures
        r == members_of(*map).contains_key(key@),
{
    map.contains_key(key)
}

/// `Value::from` of a `String`. Trusted: the string value with that text.
#[verifier::external_body]
pub(crate) fn string_value(text: String) -> (value: serde_json::Value)
    ensures
        json_of(value) == JsonValue::String(text@),
{
    serde_json::Value::from(text)
}

/// `Value::from` of an `i64`. Trusted: the integer value of that number.
#[verifier::external_body]
pub(crate) fn integer_value(number: i64) -> (value: serde_json::Value)
    ensures
        json_of(value) == JsonValue::Integer(number as int),
{
    serde_json::Value::from(number)
}

/// `Value::from` of a `Vec<Value>`. Trusted: the array of the given values, in their
/// order.
#[verifier::external_body]
pub(crate) fn array_value(items: Vec<serde_json::Value>) -> (value: serde_json::Value)
    ensures
        json_of(value) == JsonValue::Array(items_of(items@)),
{
    serde_json::Value::from(items)
}

/// `Map::new`. Trusted: a map without members.
#[verifier::external_body]
pub(crate) fn new_map() -> (map: serde_json::Map<String, serde_json::Value>)
    ensures
        members_of(map) == no_members(),
{
    serde_json::Map::new()
}

/// `Map::insert`, without the value that it replaces. Trusted: afterwards the map holds
/// `value` under `key` and is otherwise unchanged.
#[verifier::external_body]
pub(crate) fn insert_member(
    map: &mut serde_json::Map<String, serde_json::Value>,
    key: String,
    value: serde_json::Value,
)
    ensures
        members_of(*final(map)) == members_of(*old(map)).insert(key@, json_of(value)),
{
    map.insert(key, value);
}

/// `Value::from` of a `Map`. Trusted: the object with the members of the map.
#[verifier::external_body]
pub(crate) fn object_value(map: serde_json::Map<String, serde_json::Value>) -> (value: serde_json::Value)
    ensures
        json_of(value) == JsonValue::Object(members_of(map)),
{
    serde_json::Value::from(map)
}

} // verus!
