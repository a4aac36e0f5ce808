use vstd::prelude::*;
use crate::text::text_of;

verus! {

/// A JSON value of serde_json. It is opaque here.
#[verifier::external_type_specification]
#[verifier::external_body]
pub struct ExValue(serde_json::Value);

/// A JSON object of serde_json: members by name. The library fills and
/// reads it through the wrappers below.
#[verifier::external_type_specification]
#[verifier::external_body]
#[verifier::reject_recursive_types(K)]
#[verifier::reject_recursive_types(V)]
pub struct ExMap<K, V>(serde_json::Map<K, V>);

/// A JSON object with string keys.
pub type JsonObject = serde_json::Map<String, serde_json::Value>;

/// The members of a JSON object that are strings, by name.
pub uninterp spec fn object_texts(object: serde_json::Map<String, serde_json::Value>) -> Map<
    Seq<char>,
    Seq<char>,
>;

/// The members of a JSON object that are integers of 64 bits with a sign, by
/// name.
pub uninterp spec fn object_numbers(object: serde_json::Map<String, serde_json::Value>) -> Map<
    Seq<char>,
    int,
>;

/// The names of all members of a JSON object, whatever their values are.
pub uninterp spec fn object_names(object: serde_json::Map<String, serde_json::Value>) -> Set<
    Seq<char>,
>;

/// Whether every member of the object is a string or an integer.
pub open spec fn plain_object(object: JsonObject) -> bool {
    object_names(object) == object_texts(object).dom().union(object_numbers(object).dom())
}

/// No string members.
pub open spec fn no_texts() -> Map<Seq<char>, Seq<char>> {
    Map::empty()
}

/// No integer members.
pub open spec fn no_numbers() -> Map<Seq<char>, int> {
    Map::empty()
}

/// `serde_json::Map::new`: an object without members.
#[verifier::external_body]
pub(crate) fn new_object() -> (r: JsonObject)
    ensures
        object_texts(r) == no_texts(),
        object_numbers(r) == no_numbers(),
        object_names(r) == Set::<Seq<char>>::empty(),
{
    serde_json::Map::new()
}

/// `serde_json::Map::insert` with a string value: the object then has the
/// string under `key`, in place of whatever it had there, and its other
/// members as before.
#[verifier::external_body]
pub(crate) fn insert_text(
    object: &mut JsonObject,
    key: &str,
    text: &str,
)
    ensures
        object_texts(*final(object)) == object_texts(*old(object)).insert(key@, text@),
        object_numbers(*final(object)) == object_numbers(*old(object)).remove(key@),
        object_names(*final(object)) == object_names(*old(object)).insert(key@),
{
    object.insert(key.to_string(), serde_json::Value::String(text.to_string()));
}

/// `serde_json::Map::insert` with an integer value: the object then has the
/// number under `key`, in place of whatever it had there, and its other
/// members as before.
#[verifier::external_body]
pub(crate) fn insert_number(
    object: &mut JsonObject,
    key: &str,
    number: i64,
)
    ensures
        object_numbers(*final(object)) == object_numbers(*old(object)).insert(key@, number as int),
        object_texts(*final(object)) == object_texts(*old(object)).remove(key@),
        object_names(*final(object)) == object_names(*old(object)).insert(key@),
{
    object.insert(key.to_string(), serde_json::Value::from(number));
}

/// Reads a string member with `serde_json::Map::get` and `Value::as_str`: the
/// string under `key` if the object has one there.
#[verifier::external_body]
pub(crate) fn member_text(object: &JsonObject, key: &str) -> (r:
    Option<String>)
    ensures
        r is Some <==> object_texts(*object).contains_key(key@),
        r is Some ==> r->Some_0@ == object_texts(*object)[key@],
{
    object.get(key)?.as_str().map(|s| s.to_string())
}

/// Reads an integer member with `serde_json::Map::get` and `Value::as_i64`:
/// the number under `key` if the object has one there that fits 64 bits with
/// a sign.
#[verifier::external_body]
pub(crate) fn member_number(object: &JsonObject, key: &str) -> (r:
    Option<i64>)
    ensures
        r is Some <==> object_numbers(*object).contains_key(key@),
        r is Some ==> r->Some_0 == object_numbers(*object)[key@],
{
    object.get(key)?.as_i64()
}

/// The string that the JSON document `text` holds under `key` at its top
/// level: `None` where `text` is no JSON document, where the document is no
/// object, where the object has no member `key`, and where the member is no
/// string.
pub uninterp spec fn json_string_member(text: Seq<char>, key: Seq<char>) -> Option<Seq<char>>;

/// Parses `text` with `serde_json::from_str` into a `serde_json::Value`, looks
/// `key` up with `Value::get` and reads the member with `Value::as_str`. The
/// contract names the outcome: it depends on `text` and `key` alone.
#[verifier::external_body]
pub(crate) fn string_member(text: &str, key: &str) -> (r: Option<String>)
    ensures
        text_of(r) == json_string_member(text@, key@),
{
    let document: serde_json::Value = serde_json::from_str(text).ok()?;
    document.get(key)?.as_str().map(|s| s.to_string())
}

/// Whether the JSON document `text` is the value `null`. A text that is no
/// JSON document is not.
pub uninterp spec fn json_is_null(text: Seq<char>) -> bool;

/// Parses `text` with `serde_json::from_str` into a `serde_json::Value` and
/// asks `Value::is_null`. The contract names the outcome: it depends on
/// `text` alone.
#[verifier::external_body]
pub(crate) fn is_null(text: &str) -> (r: bool)
    ensures
        r == json_is_null(text@),
{
    serde_json::from_str::<serde_json::Value>(text).map_or(false, |document| document.is_null())
}

} // verus!
