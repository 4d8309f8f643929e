//! JSON values of `serde_json` and the members that the extension reads and writes.
use vstd::prelude::*;

verus! {

/// The mathematical content of a JSON value. The members of an object form a map: their order in
/// the text carries no meaning.
pub enum JsonView {
    Null,
    Bool(bool),
    /// A number, by its text.
    Number(Seq<char>),
    Text(Seq<char>),
    Array(Seq<JsonView>),
    Object(Map<Seq<char>, JsonView>),
}

/// A JSON value of `serde_json`.
#[verifier::external_type_specification]
#[verifier::external_body]
pub struct ExValue(serde_json::Value);

/// The member table of a JSON object of `serde_json`.
#[verifier::external_type_specification]
#[verifier::external_body]
#[verifier::reject_recursive_types(K)]
#[verifier::reject_recursive_types(V)]
pub struct ExMembers<K, V>(serde_json::Map<K, V>);

/// The reason why `serde_json` refused a text.
#[verifier::external_type_specification]
#[verifier::external_body]
pub struct ExError(serde_json::Error);

/// What a JSON value holds.
pub uninterp spec fn json_content(value: serde_json::Value) -> JsonView;

/// What the member table of a JSON object holds.
pub uninterp spec fn json_members(members: serde_json::Map<String, serde_json::Value>) -> Map<
    Seq<char>,
    JsonView,
>;

/// The value that a JSON text denotes, if it is one and is not nested beyond what `serde_json`
/// reads.
pub uninterp spec fn json_of_text(text: Seq<char>) -> Option<JsonView>;

/// The members of the empty object.
pub open spec fn empty_members() -> Map<Seq<char>, JsonView> {
    Map::empty()
}

/// The member of a JSON value under a key: only objects have members.
pub open spec fn json_member(value: JsonView, key: Seq<char>) -> Option<JsonView> {
    match value {
        JsonView::Object(members) => if members.contains_key(key) {
            Some(members[key])
        } else {
            None
        },
        _ => None,
    }
}

/// The text of a JSON value, if it is a string.
pub open spec fn json_text(value: JsonView) -> Option<Seq<char>> {
    match value {
        JsonView::Text(text) => Some(text),
        _ => None,
    }
}

/// The text under a key of a JSON value: none if the value is no object, has no such member, or
/// its member is no string.
pub open spec fn json_member_text(value: JsonView, key: Seq<char>) -> Option<Seq<char>> {
    match json_member(value, key) {
        Some(member) => json_text(member),
        None => None,
    }
}

/// `serde_json::from_str` for a `serde_json::Value`: succeeds with the value that the text denotes.
/// It fails where the text is no JSON, and where it is nested deeper than `serde_json` reads; which
/// texts these are is left to the name `json_of_text`.
#[verifier::external_body]
fn parse_value(text: &str) -> (result: Result<serde_json::Value, serde_json::Error>)
    ensures
        match result {
            Ok(value) => json_of_text(text@) == Some(json_content(value)),
            Err(_) => json_of_text(text@) is None,
        },
{
    serde_json::from_str(text)
}

/// `serde_json::Value::get` with a string index: the member of an object under that key; none
/// for a value that is no object or has no such member.
#[verifier::external_body]
fn value_member<'a>(value: &'a serde_json::Value, key: &str) -> (result: Option<
    &'a serde_json::Value,
>)
    ensures
        match result {
            Some(member) => json_member(json_content(*value), key@) == Some(json_content(*member)),
            None => json_member(json_content(*value), key@) is None,
        },
{
    value.get(key)
}

/// `serde_json::Value::as_str`: the text of a string; none for any other value.
#[verifier::external_body]
fn value_text<'a>(value: &'a serde_json::Value) -> (result: Option<&'a str>)
    ensures
        match result {
            Some(text) => json_text(json_content(*value)) == Some(text@),
            None => json_text(json_content(*value)) is None,
        },
{
    value.as_str()
}

/// `serde_json::Map::new`: a table without members.
#[verifier::external_body]
fn no_members() -> (members: serde_json::Map<String, serde_json::Value>)
    ensures
        json_members(members) == empty_members(),
{
    serde_json::Map::new()
}

/// `serde_json::Map::insert`: puts a value under a key, in place of the one that was there.
#[verifier::external_body]
fn insert_member(
    members: &mut serde_json::Map<String, serde_json::Value>,
    key: String,
    value: serde_json::Value,
)
    ensures
        json_members(*final(members)) == json_members(*old(members)).insert(
            key@,
            json_content(value),
        ),
{
    members.insert(key, value);
}

/// `serde_json::Value::Object`: the object with the given members.
#[verifier::external_body]
fn object_value(members: serde_json::Map<String, serde_json::Value>) -> (value: serde_json::Value)
    ensures
        json_content(value) == JsonView::Object(json_members(members)),
{
    serde_json::Value::Object(members)
}

/// The object without members.
pub fn empty_object() -> (value: serde_json::Value)
    ensures
        json_content(value) == JsonView::Object(empty_members()),
{
    object_value(no_members())
}

/// The object with one member.
pub fn object_with_member(key: String, member: serde_json::Value) -> (value: serde_json::Value)
    ensures
        json_content(value) == JsonView::Object(
            empty_members().insert(key@, json_content(member)),
        ),
{
    let mut members = no_members();
    insert_member(&mut members, key, member);
    object_value(members)
}

/// The text under a key of a JSON value.
pub fn member_text(value: &serde_json::Value, key: &str) -> (result: Option<String>)
    ensures
        result.deep_view() == json_member_text(json_content(*value), key@),
{
    match value_member(value, key) {
        Some(member) => match value_text(member) {
            Some(text) => Some(text.to_string()),
            None => None,
        },
        None => None,
    }
}

/// The text under a key of the value that a JSON text denotes; none if the text is no JSON.
pub fn text_member_text(text: &str, key: &str) -> (result: Option<String>)
    ensures
        result.deep_view() == match json_of_text(text@) {
            Some(value) => json_member_text(value, key@),
            None => None,
        },
{
    match parse_value(text) {
        Ok(value) => member_text(&value, key),
        Err(_) => None,
    }
}

} // verus!
