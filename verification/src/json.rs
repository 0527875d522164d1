//! JSON documents as `serde_json` holds, parses and prints them.
//!
//! The functions of this module are the calls into `serde_json`. Their
//! contracts are not proved: each restates, over the mathematical model
//! [`Json`], what the called function does.

use vstd::prelude::*;

verus! {

/// A JSON document as a mathematical value.
///
/// An object is a map from member names to members: the order of members is
/// not part of the model, and `serde_json` (built without `preserve_order`)
/// keeps none either, it holds and prints members sorted by name. A number
/// is carried as the text that `serde_json` prints for it.
pub enum Json {
    Null,
    Bool(bool),
    Number(Seq<char>),
    Text(Seq<char>),
    Array(Seq<Json>),
    Object(Map<Seq<char>, Json>),
}

/// `serde_json::Value`, a JSON value in memory. Nothing inside it is visible
/// to the proofs; what it holds goes by the name [`value_json`].
#[verifier::external_type_specification]
#[verifier::external_body]
pub struct ExValue(serde_json::Value);

/// `serde_json::Map`, the members of a JSON object in memory. What it holds
/// goes by the name [`object_members`].
#[verifier::external_type_specification]
#[verifier::external_body]
#[verifier::reject_recursive_types(K)]
#[verifier::reject_recursive_types(V)]
pub struct ExObject<K, V>(serde_json::Map<K, V>);

/// `serde_json::Error`, the report of a failed call. It is only carried to
/// [`error_text`].
#[verifier::external_type_specification]
#[verifier::external_body]
pub struct ExError(serde_json::Error);

/// The document that a `serde_json::Value` holds.
pub uninterp spec fn value_json(value: serde_json::Value) -> Json;

/// The members that a `serde_json::Map` holds, by name.
pub uninterp spec fn object_members(
    object: serde_json::Map<String, serde_json::Value>,
) -> Map<Seq<char>, Json>;

/// What `serde_json::from_str` reads from a text when it is asked for a
/// `Value`: the document, or `None` where it reports an error.
pub uninterp spec fn json_of_text(text: Seq<char>) -> Option<Json>;

/// The text that `serde_json::to_string_pretty` prints for a document.
pub uninterp spec fn pretty_text(document: Json) -> Seq<char>;

/// The documents that a list of values holds, in order.
pub open spec fn values_json(values: Seq<serde_json::Value>) -> Seq<Json> {
    values.map_values(|value: serde_json::Value| value_json(value))
}

/// `serde_json::from_str::<Value>`. The outcome depends on the text alone:
/// the value holds the document that [`json_of_text`] names, and an error
/// comes exactly where that names none.
#[verifier::external_body]
pub(crate) fn parse(text: &str) -> (r: Result<serde_json::Value, serde_json::Error>)
    ensures
        match json_of_text(text@) {
            Some(document) => r matches Ok(value) && value_json(value) == document,
            None => r is Err,
        },
{
    serde_json::from_str::<serde_json::Value>(text)
}

/// `serde_json::to_string_pretty` on a `Value`. The text depends on the
/// document alone. The call is taken to succeed: the crate documents two
/// causes of failure, a `Serialize` impl that fails of its own accord and a
/// map whose keys are not strings, and a `Value` has neither.
#[verifier::external_body]
pub(crate) fn print_pretty(value: &serde_json::Value) -> (r: Result<String, serde_json::Error>)
    ensures
        r is Ok,
        r->Ok_0@ == pretty_text(value_json(*value)),
{
    serde_json::to_string_pretty(value)
}

/// The message of a `serde_json::Error`, as its `Display` impl writes it.
/// Nothing is claimed of the message.
#[verifier::external_body]
pub(crate) fn error_text(error: &serde_json::Error) -> String {
    error.to_string()
}

/// `Value::as_str`: the text of a string, `None` for any other value.
#[verifier::external_body]
pub(crate) fn as_text(value: &serde_json::Value) -> (r: Option<&str>)
    ensures
        match value_json(*value) {
            Json::Text(text) => r matches Some(s) && s@ == text,
            _ => r is None,
        },
{
    value.as_str()
}

/// `Value::as_array`: the items of an array, `None` for any other value.
#[verifier::external_body]
pub(crate) fn as_array(value: &serde_json::Value) -> (r: Option<&Vec<serde_json::Value>>)
    ensures
        match value_json(*value) {
            Json::Array(items) => r matches Some(list) && values_json(list@) == items,
            _ => r is None,
        },
{
    value.as_array()
}

/// `Value::as_object`: the members of an object, `None` for any other value.
#[verifier::external_body]
pub(crate) fn as_object(value: &serde_json::Value) -> (r: Option<
    &serde_json::Map<String, serde_json::Value>,
>)
    ensures
        match value_json(*value) {
            Json::Object(members) => r matches Some(object) && object_members(*object) == members,
            _ => r is None,
        },
{
    value.as_object()
}

/// `Map::get`: the member of that name, `None` where the object has none.
#[verifier::external_body]
pub(crate) fn member<'a>(
    object: &'a serde_json::Map<String, serde_json::Value>,
    name: &str,
) -> (r: Option<&'a serde_json::Value>)
    ensures
        match r {
            Some(value) => object_members(*object).contains_key(name@) && value_json(*value)
                == object_members(*object)[name@],
            None => !object_members(*object).contains_key(name@),
        },
{
    object.get(name)
}

/// `Map::keys`, each key copied: every member's name, each once.
#[verifier::external_body]
pub(crate) fn member_names(object: &serde_json::Map<String, serde_json::Value>) -> (names: Vec<
    String,
>)
    ensures
        forall|i: int, j: int| 0 <= i < j < names.len() ==> names[i]@ != names[j]@,
        forall|i: int|
            0 <= i < names.len() ==> object_members(*object).contains_key(#[trigger] names[i]@),
        forall|name: Seq<char>| #[trigger]
            object_members(*object).contains_key(name) ==> exists|i: int|
                0 <= i < names.len() && #[trigger] names[i]@ == name,
{
    object.keys().cloned().collect()
}

/// `Value::String`: the string value of a text.
#[verifier::external_body]
pub(crate) fn text_value(text: String) -> (value: serde_json::Value)
    ensures
        value_json(value) == Json::Text(text@),
{
    serde_json::Value::String(text)
}

/// `Value::Array`: the array of the given items, in their order.
#[verifier::external_body]
pub(crate) fn array_value(items: Vec<serde_json::Value>) -> (value: serde_json::Value)
    ensures
        value_json(value) == Json::Array(values_json(items@)),
{
    serde_json::Value::Array(items)
}

/// `Value::Object`: the object of the given members.
#[verifier::external_body]
pub(crate) fn object_value(object: serde_json::Map<String, serde_json::Value>) -> (value:
    serde_json::Value)
    ensures
        value_json(value) == Json::Object(object_members(object)),
{
    serde_json::Value::Object(object)
}

/// `Map::new`: an object without members.
#[verifier::external_body]
pub(crate) fn empty_object() -> (object: serde_json::Map<String, serde_json::Value>)
    ensures
        object_members(object) =~= Map::empty(),
{
    serde_json::Map::new()
}

/// `Map::insert`: the object gains the member, in place of any member that
/// it had under that name.
#[verifier::external_body]
pub(crate) fn put_member(
    object: &mut serde_json::Map<String, serde_json::Value>,
    name: String,
    value: serde_json::Value,
)
    ensures
        object_members(*final(object)) == object_members(*old(object)).insert(
            name@,
            value_json(value),
        ),
{
    object.insert(name, value);
}

} // verus!
