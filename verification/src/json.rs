//! The JSON layer under the message document.
//!
//! Reading and writing JSON text is `serde_json`'s work. Its values pass
//! through this crate unopened; what they hold is spoken of through a model,
//! [`Json`], and every call into `serde_json` is stated over that model.

use vstd::prelude::*;

verus! {

/// `serde_json::Value`, any JSON value.
#[verifier::external_type_specification]
#[verifier::external_body]
pub struct ExValue(serde_json::Value);

/// `serde_json::Map`, a JSON object. Without the crate's `preserve_order`
/// feature, as here, it keeps its members sorted by key.
#[verifier::external_type_specification]
#[verifier::external_body]
#[verifier::reject_recursive_types(K)]
#[verifier::reject_recursive_types(V)]
pub struct ExObject<K, V>(serde_json::Map<K, V>);

/// `serde_json::Error`, why text could not be read or a value not written.
#[verifier::external_type_specification]
#[verifier::external_body]
pub struct ExJsonError(serde_json::Error);

/// What a JSON value holds.
pub enum Json {
    Null,
    Bool(bool),
    /// A number, by the digits that stand for it in JSON text.
    Number(Seq<char>),
    Text(Seq<char>),
    Array(Seq<Json>),
    Object(Map<Seq<char>, Json>),
}

/// The members of a JSON object, by key.
pub type Members = Map<Seq<char>, Json>;

/// What `value` holds.
pub uninterp spec fn value_of(value: serde_json::Value) -> Json;

/// The members that `object` holds, by key.
pub uninterp spec fn members_of(object: serde_json::Map<String, serde_json::Value>) -> Members;

/// The members of the object that `text` is read as, where it can be read.
pub uninterp spec fn parsed_object(text: Seq<u8>) -> Option<Members>;

/// The compact JSON text of an object with these members.
pub uninterp spec fn object_text(members: Members) -> Seq<u8>;

/// Reads JSON text as an object, by `serde_json::from_slice` at
/// `Map<String, Value>`. It fails or succeeds by the text alone, and what it
/// yields is given the name `parsed_object`.
#[verifier::external_body]
pub(crate) fn parse_object(text: &[u8]) -> (outcome: Result<
    serde_json::Map<String, serde_json::Value>,
    serde_json::Error,
>)
    ensures
        match outcome {
            Ok(object) => parsed_object(text@) == Some(members_of(object)),
            Err(_) => parsed_object(text@).is_none(),
        },
{
    serde_json::from_slice::<serde_json::Map<String, serde_json::Value>>(text)
}

/// Writes an object as compact JSON text, by `serde_json::to_vec`. Writing
/// values of `serde_json`'s own into a vector has no way to fail: keys are
/// strings, numbers are finite, and the vector takes every byte. Members are
/// written in the order of their keys, so the text depends on the members
/// alone; it is given the name `object_text`.
#[verifier::external_body]
pub(crate) fn write_object(object: &serde_json::Map<String, serde_json::Value>) -> (outcome: Result<
    Vec<u8>,
    serde_json::Error,
>)
    ensures
        outcome.is_ok(),
        outcome matches Ok(text) ==> text@ == object_text(members_of(*object)),
{
    serde_json::to_vec(object)
}

/// An object without members, by `Map::new`.
#[verifier::external_body]
pub(crate) fn new_object() -> (fresh: serde_json::Map<String, serde_json::Value>)
    ensures
        members_of(fresh) == Members::empty(),
{
    serde_json::Map::new()
}

/// Sets one member, by `Map::insert`: the value stands under the key, the
/// other members stay, and what stood under the key before is handed back.
#[verifier::external_body]
pub(crate) fn insert(
    object: &mut serde_json::Map<String, serde_json::Value>,
    key: String,
    value: serde_json::Value,
) -> (previous: Option<serde_json::Value>)
    ensures
        members_of(*final(object)) == members_of(*old(object)).insert(key@, value_of(value)),
        match previous {
            Some(before) => members_of(*old(object)).contains_key(key@) && value_of(before)
                == members_of(*old(object))[key@],
            None => !members_of(*old(object)).contains_key(key@),
        },
{
    object.insert(key, value)
}

/// Takes one member out, by `Map::remove`: the value under the key is handed
/// back if there is one, and the other members stay.
#[verifier::external_body]
pub(crate) fn remove(object: &mut serde_json::Map<String, serde_json::Value>, key: &str) -> (taken:
    Option<serde_json::Value>)
    ensures
        members_of(*final(object)) == members_of(*old(object)).remove(key@),
        match taken {
            Some(value) => members_of(*old(object)).contains_key(key@) && value_of(value)
                == members_of(*old(object))[key@],
            None => !members_of(*old(object)).contains_key(key@),
        },
{
    object.remove(key)
}

/// The object inside a value, if the value is `Value::Object`.
#[verifier::external_body]
pub(crate) fn into_object(value: serde_json::Value) -> (object: Option<
    serde_json::Map<String, serde_json::Value>,
>)
    ensures
        match object {
            Some(inner) => value_of(value) == Json::Object(members_of(inner)),
            None => !(value_of(value) is Object),
        },
{
    match value {
        serde_json::Value::Object(inner) => Some(inner),
        serde_json::Value::Null => None,
        serde_json::Value::Bool(_) => None,
        serde_json::Value::Number(_) => None,
        serde_json::Value::String(_) => None,
        serde_json::Value::Array(_) => None,
    }
}

/// The string inside a value, if the value is `Value::String`.
#[verifier::external_body]
pub(crate) fn into_text(value: serde_json::Value) -> (text: Option<String>)
    ensures
        match text {
            Some(inner) => value_of(value) == Json::Text(inner@),
            None => !(value_of(value) is Text),
        },
{
    match value {
        serde_json::Value::String(inner) => Some(inner),
        serde_json::Value::Null => None,
        serde_json::Value::Bool(_) => None,
        serde_json::Value::Number(_) => None,
        serde_json::Value::Array(_) => None,
        serde_json::Value::Object(_) => None,
    }
}

/// The value that is this object: `Value::Object`.
#[verifier::external_body]
pub(crate) fn object_value(object: serde_json::Map<String, serde_json::Value>) -> (value:
    serde_json::Value)
    ensures
        value_of(value) == Json::Object(members_of(object)),
{
    serde_json::Value::Object(object)
}

/// The value that is this string: `Value::String`.
#[verifier::external_body]
pub(crate) fn text_value(text: String) -> (value: serde_json::Value)
    ensures
        value_of(value) == Json::Text(text@),
{
    serde_json::Value::String(text)
}

} // verus!
