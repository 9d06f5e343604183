//! JSON objects, through the `serde_json` crate.
//!
//! Of an object the library reads and writes two kinds of members: texts and
//! integers.

use vstd::prelude::*;

verus! {

/// The members of a JSON object that are texts, and those that are integers
/// of 64 bits, each by name.
pub struct Members {
    pub texts: Map<Seq<char>, Seq<char>>,
    pub numbers: Map<Seq<char>, int>,
}

/// No text member.
pub open spec fn no_texts() -> Map<Seq<char>, Seq<char>> {
    Map::empty()
}

/// No integer member.
pub open spec fn no_numbers() -> Map<Seq<char>, int> {
    Map::empty()
}

/// A JSON object.
#[verifier::external_type_specification]
#[verifier::external_body]
#[verifier::reject_recursive_types(K)]
#[verifier::reject_recursive_types(V)]
pub struct ExJsonMap<K, V>(serde_json::Map<K, V>);

/// A JSON value.
#[verifier::external_type_specification]
#[verifier::external_body]
pub struct ExJsonValue(serde_json::Value);

/// The texts and the integers that a JSON object holds.
pub uninterp spec fn members(object: serde_json::Map<String, serde_json::Value>) -> Members;

/// `serde_json::Map::new`: an object without members.
#[verifier::external_body]
pub(crate) fn object_new() -> (object: serde_json::Map<String, serde_json::Value>)
    ensures
        members(object).texts == no_texts(),
        members(object).numbers == no_numbers(),
{
    serde_json::Map::new()
}

/// `serde_json::Map::insert` of a text: the member `key` becomes that text,
/// in place of what it was; the other members stay.
#[verifier::external_body]
pub(crate) fn object_insert_text(
    object: &mut serde_json::Map<String, serde_json::Value>,
    key: &str,
    value: &str,
)
    ensures
        members(*final(object)).texts == members(*old(object)).texts.insert(key@, value@),
        members(*final(object)).numbers == members(*old(object)).numbers.remove(key@),
{
    object.insert(key.to_string(), serde_json::Value::String(value.to_string()));
}

/// `serde_json::Map::insert` of an integer: the member `key` becomes that
/// integer, in place of what it was; the other members stay.
#[verifier::external_body]
pub(crate) fn object_insert_number(
    object: &mut serde_json::Map<String, serde_json::Value>,
    key: &str,
    value: i64,
)
    ensures
        members(*final(object)).numbers == members(*old(object)).numbers.insert(
            key@,
            value as int,
        ),
        members(*final(object)).texts == members(*old(object)).texts.remove(key@),
{
    object.insert(key.to_string(), serde_json::Value::from(value));
}

/// `serde_json::Map::get` and `Value::as_str`: the member `key` where it is a
/// text.
#[verifier::external_body]
pub(crate) fn object_text(object: &serde_json::Map<String, serde_json::Value>, key: &str) -> (r:
    Option<String>)
    ensures
        match r {
            Some(text) => members(*object).texts.contains_key(key@) && members(
                *object,
            ).texts[key@] == text@,
            None => !members(*object).texts.contains_key(key@),
        },
{
    object.get(key).and_then(|v| v.as_str()).map(|s| s.to_string())
}

/// `serde_json::Map::get` and `Value::as_i64`: the member `key` where it is
/// an integer of 64 bits.
#[verifier::external_body]
pub(crate) fn object_number(object: &serde_json::Map<String, serde_json::Value>, key: &str) -> (r:
    Option<i64>)
    ensures
        match r {
            Some(n) => members(*object).numbers.contains_key(key@) && members(
                *object,
            ).numbers[key@] == n,
            None => !members(*object).numbers.contains_key(key@),
        },
{
    object.get(key).and_then(|v| v.as_i64())
}

/// What a JSON object is written as, where `serde_json` writes it.
pub uninterp spec fn json_written(object: serde_json::Map<String, serde_json::Value>) -> Option<
    Seq<char>,
>;

/// `serde_json::to_string`: the text of an object; `None` stands for the
/// crate's error.
#[verifier::external_body]
pub(crate) fn object_to_string(object: &serde_json::Map<String, serde_json::Value>) -> (r: Option<
    String,
>)
    ensures
        match r {
            Some(text) => json_written(*object) == Some(text@),
            None => json_written(*object) is None,
        },
{
    serde_json::to_string(object).ok()
}

} // verus!
