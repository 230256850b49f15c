//! JSON values. The values themselves, their parsing and their writing belong
//! to `serde_json`; this module says what the library relies on.
//!
//! A JSON value is described by [`JsonModel`]. The items below that have no
//! body, and the functions whose bodies call `serde_json`, are taken on trust:
//! each says in its comment what it claims.
//!
//! An object is described by its members alone, without an order. That fits
//! `serde_json` as this library builds it, where an object keeps its members
//! sorted by name; it would not fit a build that keeps them in the order of
//! insertion, where two objects with the same members can be written
//! differently.

use vstd::prelude::*;

verus! {

/// A JSON number: a non-negative integer, a negative integer, or any other
/// number, which is told apart by the bits of its binary form.
pub enum JsonNumber {
    /// An integer that is not negative.
    PosInt(u64),
    /// An integer below zero.
    NegInt(i64),
    /// A number that is no integer, by its bits.
    Real(u64),
}

/// What a JSON value holds.
pub enum JsonModel {
    /// `null`.
    Null,
    /// `true` or `false`.
    Bool(bool),
    /// A number.
    Number(JsonNumber),
    /// A string.
    Text(Seq<char>),
    /// An array.
    Array(Seq<JsonModel>),
    /// An object: its members by name.
    Object(Map<Seq<char>, JsonModel>),
}

/// `serde_json::Value`, a JSON value. Nothing of its inside is visible here.
#[verifier::external_type_specification]
#[verifier::external_body]
pub struct ExJsonValue(serde_json::Value);

/// `serde_json::Map`, the members of a JSON object. Nothing of its inside is
/// visible here.
#[verifier::external_type_specification]
#[verifier::external_body]
#[verifier::reject_recursive_types(K)]
#[verifier::reject_recursive_types(V)]
pub struct ExJsonMap<K, V>(serde_json::Map<K, V>);

/// `serde_json::Error`, why a text is no JSON. Nothing of its inside is
/// visible here.
#[verifier::external_type_specification]
#[verifier::external_body]
pub struct ExJsonError(serde_json::Error);

/// The object without members.
pub open spec fn spec_no_members() -> Map<Seq<char>, JsonModel> {
    Map::empty()
}

/// What the value `value` holds.
pub uninterp spec fn json_model(value: serde_json::Value) -> JsonModel;

/// The members that the object `object` holds, by name.
pub uninterp spec fn json_members(object: serde_json::Map<String, serde_json::Value>) -> Map<
    Seq<char>,
    JsonModel,
>;

/// The message of `error`.
pub uninterp spec fn json_error_text(error: serde_json::Error) -> Seq<char>;

/// What `serde_json::from_slice` makes of `bytes`: the value they spell, or
/// the message of the error.
pub uninterp spec fn json_parsed(bytes: Seq<u8>) -> Result<JsonModel, Seq<char>>;

/// What `serde_json::to_string` writes for a value that holds `model`: its
/// compact text.
pub uninterp spec fn json_text(model: JsonModel) -> Seq<char>;

/// What `serde_json::to_vec_pretty` writes for a value that holds `model`:
/// its indented text, in bytes.
pub uninterp spec fn json_pretty(model: JsonModel) -> Seq<u8>;

/// Calls `serde_json::from_slice` for a `Value`. Claims only that the outcome
/// is the one that [`json_parsed`] names for these bytes.
#[verifier::external_body]
pub(crate) fn json_from_slice(bytes: &[u8]) -> (parsed: Result<
    serde_json::Value,
    serde_json::Error,
>)
    ensures
        match parsed {
            Ok(value) => json_parsed(bytes@) == Ok::<JsonModel, Seq<char>>(json_model(value)),
            Err(error) => json_parsed(bytes@) == Err::<JsonModel, Seq<char>>(
                json_error_text(error),
            ),
        },
{
    serde_json::from_slice::<serde_json::Value>(bytes)
}

/// Calls `to_string` on a `serde_json::Error`, which writes its message.
#[verifier::external_body]
pub(crate) fn json_error_message(error: &serde_json::Error) -> (text: String)
    ensures
        text@ == json_error_text(*error),
{
    error.to_string()
}

/// Calls `serde_json::to_string` on a `Value`. Claims that the text is the
/// one that [`json_text`] names for what the value holds, and that writing a
/// `Value` as text does not fail: its object keys are strings.
#[verifier::external_body]
pub(crate) fn json_to_string(value: &serde_json::Value) -> (text: String)
    ensures
        text@ == json_text(json_model(*value)),
{
    serde_json::to_string(value).unwrap_or_default()
}

/// Calls `serde_json::to_vec_pretty` on a `Value`. Claims that the bytes are
/// those that [`json_pretty`] names for what the value holds, and that
/// writing a `Value` does not fail: its object keys are strings.
#[verifier::external_body]
pub(crate) fn json_to_vec_pretty(value: &serde_json::Value) -> (bytes: Vec<u8>)
    ensures
        bytes@ == json_pretty(json_model(*value)),
{
    serde_json::to_vec_pretty(value).unwrap_or_default()
}

/// Calls `Value::as_object`, which gives the members of an object and
/// `None` for every other value.
#[verifier::external_body]
pub(crate) fn json_as_object(value: &serde_json::Value) -> (object: Option<
    &serde_json::Map<String, serde_json::Value>,
>)
    ensures
        match json_model(*value) {
            JsonModel::Object(members) => object matches Some(o) && json_members(*o) == members,
            _ => object is None,
        },
{
    value.as_object()
}

/// Calls `Value::as_bool`, which gives the truth value of `true` and `false`
/// and `None` for every other value.
#[verifier::external_body]
pub(crate) fn json_as_bool(value: &serde_json::Value) -> (truth: Option<bool>)
    ensures
        match json_model(*value) {
            JsonModel::Bool(b) => truth == Some(b),
            _ => truth is None,
        },
{
    value.as_bool()
}

/// Calls `Value::as_u64`, which gives a number that is an integer and not
/// negative, and `None` for every other value.
#[verifier::external_body]
pub(crate) fn json_as_u64(value: &serde_json::Value) -> (number: Option<u64>)
    ensures
        match json_model(*value) {
            JsonModel::Number(JsonNumber::PosInt(n)) => number == Some(n),
            _ => number is None,
        },
{
    value.as_u64()
}

/// Calls `Value::as_str`, which gives the text of a string and `None` for
/// every other value.
#[verifier::external_body]
pub(crate) fn json_as_str(value: &serde_json::Value) -> (text: Option<&str>)
    ensures
        match json_model(*value) {
            JsonModel::Text(t) => text matches Some(s) && s@ == t,
            _ => text is None,
        },
{
    value.as_str()
}

/// Tells an object from the other values, and hands its members out.
#[verifier::external_body]
pub(crate) fn json_into_object(value: serde_json::Value) -> (object: Option<
    serde_json::Map<String, serde_json::Value>,
>)
    ensures
        match json_model(value) {
            JsonModel::Object(members) => object matches Some(o) && json_members(o) == members,
            _ => object is None,
        },
{
    match value {
        serde_json::Value::Object(members) => Some(members),
        _ => None,
    }
}

/// Calls `Value::from` on a `u64`, which makes the number of that value.
#[verifier::external_body]
pub(crate) fn json_from_u64(number: u64) -> (value: serde_json::Value)
    ensures
        json_model(value) == JsonModel::Number(JsonNumber::PosInt(number)),
{
    serde_json::Value::from(number)
}

/// Calls `Value::from` on a `String`, which makes the string of that text.
#[verifier::external_body]
pub(crate) fn json_from_string(text: String) -> (value: serde_json::Value)
    ensures
        json_model(value) == JsonModel::Text(text@),
{
    serde_json::Value::from(text)
}

/// Calls `Value::from` on a `Map`, which makes the object of those members.
#[verifier::external_body]
pub(crate) fn json_from_object(object: serde_json::Map<String, serde_json::Value>) -> (value:
    serde_json::Value)
    ensures
        json_model(value) == JsonModel::Object(json_members(object)),
{
    serde_json::Value::from(object)
}

/// Calls `Value::clone`: the copy holds what the value holds.
#[verifier::external_body]
pub(crate) fn json_clone_value(value: &serde_json::Value) -> (copy: serde_json::Value)
    ensures
        json_model(copy) == json_model(*value),
{
    value.clone()
}

/// Calls `Map::new`, which makes an object without members.
#[verifier::external_body]
pub(crate) fn json_object_new() -> (object: serde_json::Map<String, serde_json::Value>)
    ensures
        json_members(object) == spec_no_members(),
{
    serde_json::Map::new()
}

/// Calls `Map::clone`: the copy holds the members that the object holds.
#[verifier::external_body]
pub(crate) fn json_clone_object(object: &serde_json::Map<String, serde_json::Value>) -> (copy:
    serde_json::Map<String, serde_json::Value>)
    ensures
        json_members(copy) == json_members(*object),
{
    object.clone()
}

/// Calls `Map::is_empty`, which tells whether the object has no member.
#[verifier::external_body]
pub(crate) fn json_object_is_empty(object: &serde_json::Map<String, serde_json::Value>) -> (empty:
    bool)
    ensures
        empty == (json_members(*object) == spec_no_members()),
{
    object.is_empty()
}

/// Calls `Map::get`, which gives the member of that name, or `None` where
/// the object has none.
#[verifier::external_body]
pub(crate) fn json_object_get(
    object: &serde_json::Map<String, serde_json::Value>,
    name: String,
) -> (member: Option<&serde_json::Value>)
    ensures
        match member {
            Some(v) => json_members(*object).contains_key(name@) && json_model(*v) == json_members(
                *object,
            )[name@],
            None => !json_members(*object).contains_key(name@),
        },
{
    object.get(name.as_str())
}

/// Calls `Map::insert`, which puts the member under its name, in place of a
/// member of that name.
#[verifier::external_body]
pub(crate) fn json_object_insert(
    object: &mut serde_json::Map<String, serde_json::Value>,
    name: String,
    value: serde_json::Value,
)
    ensures
        json_members(*final(object)) == json_members(*old(object)).insert(
            name@,
            json_model(value),
        ),
{
    object.insert(name, value);
}

/// Calls `Map::remove`, which takes the member of that name out of the
/// object and returns it, or returns `None` where the object has none.
#[verifier::external_body]
pub(crate) fn json_object_remove(
    object: &mut serde_json::Map<String, serde_json::Value>,
    name: &str,
) -> (member: Option<serde_json::Value>)
    ensures
        json_members(*final(object)) == json_members(*old(object)).remove(name@),
        json_members(*old(object)).contains_key(name@) ==> (member matches Some(v) && json_model(
            v,
        ) == json_members(*old(object))[name@]),
        !json_members(*old(object)).contains_key(name@) ==> member is None,
{
    object.remove(name)
}

/// Calls `Map::keys` and copies the names out. Claims that each name of a
/// member comes once and nothing else comes; the order is not stated.
#[verifier::external_body]
pub(crate) fn json_object_names(object: &serde_json::Map<String, serde_json::Value>) -> (names:
    Vec<String>)
    ensures
        forall|i: int|
            0 <= i < names@.len() ==> json_members(*object).contains_key((#[trigger] names@[i])@),
        forall|i: int, j: int|
            0 <= i < j < names@.len() ==> (#[trigger] names@[i])@ != (#[trigger] names@[j])@,
        forall|name: Seq<char>| #[trigger]
            json_members(*object).contains_key(name) ==> exists|i: int|
                0 <= i < names@.len() && (#[trigger] names@[i])@ == name,
{
    object.keys().cloned().collect()
}

} // verus!
