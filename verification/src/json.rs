//! The members of JSON objects that the node reads.

use vstd::prelude::*;

verus! {

/// `serde_json::Value`, a JSON value.
#[verifier::external_type_specification]
#[verifier::external_body]
pub struct ExValue(serde_json::Value);

/// `serde_json::Error`, why a JSON value is not of the wanted type.
#[verifier::external_type_specification]
#[verifier::external_body]
pub struct ExError(serde_json::Error);

/// The members of a JSON object that are not null: the text of each that is a
/// string, `None` for each of another type. A value that is no object has no
/// members.
pub uninterp spec fn json_members(value: serde_json::Value) -> Map<Seq<char>, Option<Seq<char>>>;

/// Whether the member `name` of the JSON value is the string `text`.
pub open spec fn has_text(value: serde_json::Value, name: Seq<char>, text: Seq<char>) -> bool {
    json_members(value).contains_key(name) && json_members(value)[name] == Some(text)
}

/// Whether the member `name` of the JSON value is a string.
pub open spec fn is_text(value: serde_json::Value, name: Seq<char>) -> bool {
    json_members(value).contains_key(name) && json_members(value)[name] is Some
}

/// What a member of a JSON object holds.
#[derive(Debug)]
pub enum Member {
    /// Null, or no such member.
    Null,
    /// A string.
    Text(String),
    /// A value of another type.
    Other,
}

/// Indexes a `serde_json::Value` by a name and tells the type of what is
/// there. Claimed of it: a missing member, and any member of a value that is
/// no object, is null.
#[verifier::external_body]
pub(crate) fn member(value: &serde_json::Value, name: &str) -> (member: Member)
    ensures
        match member {
            Member::Null => !json_members(*value).contains_key(name@),
            Member::Text(text) => has_text(*value, name@, text@),
            Member::Other => json_members(*value).contains_key(name@) && !is_text(*value, name@),
        },
{
    match &value[name] {
        serde_json::Value::Null => Member::Null,
        serde_json::Value::String(text) => Member::Text(text.clone()),
        serde_json::Value::Bool(_) => Member::Other,
        serde_json::Value::Number(_) => Member::Other,
        serde_json::Value::Array(_) => Member::Other,
        serde_json::Value::Object(_) => Member::Other,
    }
}

/// Calls `serde_json::from_value` for a `String` on the member `name`. Claimed
/// of it: it gives the text of a member that is a string, and fails on every
/// other.
#[verifier::external_body]
pub(crate) fn member_text(value: &serde_json::Value, name: &str) -> (text: Result<
    String,
    serde_json::Error,
>)
    ensures
        match text {
            Ok(text) => has_text(*value, name@, text@),
            Err(_) => !is_text(*value, name@),
        },
{
    serde_json::from_value(value[name].clone())
}

/// A member is a string where the object has it with a text, and it is the
/// string of that whole text.
pub proof fn strings_are_members_with_a_text(
    value: serde_json::Value,
    name: Seq<char>,
    text: Seq<char>,
)
    ensures
        has_text(value, name, text) <==> json_members(value).contains_key(name) && json_members(
            value,
        )[name] == Some(text),
        is_text(value, name) <==> json_members(value).contains_key(name) && json_members(
            value,
        )[name] is Some,
{
}

} // verus!
