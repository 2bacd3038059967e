//! A mathematical model of JSON documents and the operations of `serde_json`
//! that the adapter relies on.
//!
//! Verus sees nothing inside a `serde_json::Value`. The contracts of this
//! module say what each operation does to the document that a value holds,
//! [`json_shape`]; they are taken from the crate's source and are not proved.

use serde_json::Value;
use vstd::hash_map::StringHashMap;
use vstd::prelude::*;

verus! {

#[verifier::external_type_specification]
#[verifier::external_body]
pub struct ExValue(serde_json::Value);

#[verifier::external_type_specification]
#[verifier::external_body]
pub struct ExJsonError(serde_json::Error);

/// What a JSON document holds. A number that is no integer keeps no more
/// than the fact that it is one: the adapter never reads it.
pub enum JsonShape {
    Null,
    Bool(bool),
    Integer(int),
    Real,
    Text(Seq<char>),
    List(Seq<JsonShape>),
    Record(Map<Seq<char>, JsonShape>),
}

impl JsonShape {
    /// The member stored under `key`, if this is an object that has one.
    pub open spec fn member(self, key: Seq<char>) -> Option<JsonShape> {
        match self {
            JsonShape::Record(members) => if members.contains_key(key) {
                Some(members[key])
            } else {
                None
            },
            _ => None,
        }
    }

    /// The elements, if this is an array.
    pub open spec fn items(self) -> Option<Seq<JsonShape>> {
        match self {
            JsonShape::List(items) => Some(items),
            _ => None,
        }
    }

    /// The characters, if this is a string.
    pub open spec fn text(self) -> Option<Seq<char>> {
        match self {
            JsonShape::Text(chars) => Some(chars),
            _ => None,
        }
    }
}

/// The document that a `serde_json::Value` holds.
pub uninterp spec fn json_shape(value: Value) -> JsonShape;

/// The document that `text` denotes, or `None` where `text` is not one JSON
/// document.
pub uninterp spec fn parsed_json(text: Seq<char>) -> Option<JsonShape>;

/// The document that `bytes` denote, or `None` where `bytes` are not one
/// JSON document in UTF-8.
pub uninterp spec fn parsed_json_bytes(bytes: Seq<u8>) -> Option<JsonShape>;

/// The entries of the JSON object of strings that `text` denotes, or `None`
/// where `text` is not a JSON object whose members are all strings.
pub uninterp spec fn parsed_string_map(text: Seq<char>) -> Option<Map<Seq<char>, Seq<char>>>;

/// The compact JSON text of a value, as UTF-8, or `None` where the value
/// cannot be written.
pub uninterp spec fn json_encoding(value: Value) -> Option<Seq<u8>>;

/// The documents that a sequence of values holds, in order.
pub open spec fn json_shapes(values: Seq<Value>) -> Seq<JsonShape> {
    values.map_values(|value: Value| json_shape(value))
}

/// The members that a list of entries with distinct keys describes.
pub open spec fn record_of(entries: Seq<(String, Value)>) -> Map<Seq<char>, JsonShape>
    decreases entries.len(),
{
    if entries.len() == 0 {
        Map::empty()
    } else {
        record_of(entries.drop_last()).insert(entries.last().0@, json_shape(entries.last().1))
    }
}

/// Whether no two entries share a key.
pub open spec fn distinct_keys(entries: Seq<(String, Value)>) -> bool {
    forall|i: int, j: int| 0 <= i < j < entries.len() ==> entries[i].0@ != entries[j].0@
}

/// `serde_json::from_str` at `Value`: reads `text` as one JSON document.
/// Whether it succeeds, and the document it then gives, depend on the text
/// alone.
#[verifier::external_body]
pub(crate) fn parse(text: &str) -> (parsed: Result<Value, serde_json::Error>)
    ensures
        match parsed {
            Ok(value) => parsed_json(text@) == Some(json_shape(value)),
            Err(_) => parsed_json(text@) is None,
        },
{
    serde_json::from_str::<Value>(text)
}

/// `serde_json::from_slice` at `Value`: reads `bytes` as one JSON document.
/// Whether it succeeds, and the document it then gives, depend on the bytes
/// alone.
#[verifier::external_body]
pub(crate) fn parse_bytes(bytes: &[u8]) -> (parsed: Result<Value, serde_json::Error>)
    ensures
        match parsed {
            Ok(value) => parsed_json_bytes(bytes@) == Some(json_shape(value)),
            Err(_) => parsed_json_bytes(bytes@) is None,
        },
{
    serde_json::from_slice::<Value>(bytes)
}

/// `serde_json::from_str` at a map from `String` to `String`: reads `text`
/// as a JSON object whose members are all strings, and hands out its
/// entries. Whether it succeeds, and the entries it then gives, depend on
/// the text alone.
#[verifier::external_body]
pub(crate) fn parse_string_map(text: &str) -> (parsed: Result<
    StringHashMap<String>,
    serde_json::Error,
>)
    ensures
        match parsed {
            Ok(entries) => parsed_string_map(text@) == Some(
                entries@.map_values(|value: String| value@),
            ),
            Err(_) => parsed_string_map(text@) is None,
        },
{
    let parsed = serde_json::from_str::<std::collections::HashMap<String, String>>(text)?;
    let mut entries = StringHashMap::new();
    for (key, value) in parsed {
        entries.insert(key, value);
    }
    Ok(entries)
}

/// The message of a `serde_json::Error`, as its `Display` writes it. Nothing
/// is claimed of the text.
#[verifier::external_body]
pub(crate) fn error_text(error: &serde_json::Error) -> String {
    error.to_string()
}

/// `Value::get` with a string index: the member of an object stored under
/// `key`, and `None` for a missing key or a value that is not an object.
#[verifier::external_body]
pub(crate) fn member<'a>(value: &'a Value, key: &str) -> (found: Option<&'a Value>)
    ensures
        match found {
            Some(inner) => json_shape(*value).member(key@) == Some(json_shape(*inner)),
            None => json_shape(*value).member(key@) is None,
        },
{
    value.get(key)
}

/// `Value::as_array`: the elements of an array, and `None` for any other
/// value.
#[verifier::external_body]
pub(crate) fn elements<'a>(value: &'a Value) -> (found: Option<&'a Vec<Value>>)
    ensures
        match found {
            Some(items) => json_shape(*value).items() == Some(json_shapes(items@)),
            None => json_shape(*value).items() is None,
        },
{
    value.as_array()
}

/// `Value::as_str`: the characters of a string, and `None` for any other
/// value.
#[verifier::external_body]
pub(crate) fn text<'a>(value: &'a Value) -> (found: Option<&'a str>)
    ensures
        match found {
            Some(chars) => json_shape(*value).text() == Some(chars@),
            None => json_shape(*value).text() is None,
        },
{
    value.as_str()
}

/// `Value::from` at `&str`: the JSON string with these characters.
#[verifier::external_body]
pub(crate) fn text_value(chars: &str) -> (value: Value)
    ensures
        json_shape(value) == JsonShape::Text(chars@),
{
    Value::from(chars)
}

/// `Value::from` at `u32`: the JSON number `n`.
#[verifier::external_body]
pub(crate) fn integer_value(n: u32) -> (value: Value)
    ensures
        json_shape(value) == JsonShape::Integer(n as int),
{
    Value::from(n)
}

/// `Value::Array`: the JSON array of these values, in order.
#[verifier::external_body]
pub(crate) fn list_value(items: Vec<Value>) -> (value: Value)
    ensures
        json_shape(value) == JsonShape::List(json_shapes(items@)),
{
    Value::Array(items)
}

/// `Value::Object` over a `serde_json::Map` collected from the entries: the
/// JSON object with these members. Two entries with one key are left out,
/// since collecting does not say which of them stays.
#[verifier::external_body]
pub(crate) fn record_value(entries: Vec<(String, Value)>) -> (value: Value)
    requires
        distinct_keys(entries@),
    ensures
        json_shape(value) == JsonShape::Record(record_of(entries@)),
{
    Value::Object(entries.into_iter().collect())
}

/// `serde_json::to_vec` at `Value`: writes the value as compact JSON text.
/// Whether it succeeds, and the bytes it then gives, depend on the value
/// alone.
#[verifier::external_body]
pub(crate) fn encode(value: &Value) -> (encoded: Result<Vec<u8>, serde_json::Error>)
    ensures
        match encoded {
            Ok(bytes) => json_encoding(*value) == Some(bytes@),
            Err(_) => json_encoding(*value) is None,
        },
{
    serde_json::to_vec(value)
}

} // verus!
