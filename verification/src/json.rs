//! JSON payloads.
//!
//! A payload is a `serde_json::Value` that the library carries from one place to
//! another without looking inside. The few payloads that the library makes
//! itself are built here, by `serde_json`.

use vstd::prelude::*;

verus! {

/// `serde_json::Value`, opaque to the verifier.
#[verifier::external_type_specification]
#[verifier::external_body]
pub struct ExJsonValue(serde_json::Value);

/// The JSON string that `serde_json` makes of a text.
pub uninterp spec fn json_text_of(text: Seq<char>) -> serde_json::Value;

/// The JSON number that `serde_json` makes of an unsigned integer.
pub uninterp spec fn json_number_of(number: u32) -> serde_json::Value;

/// The JSON boolean that `serde_json` makes of a `bool`.
pub uninterp spec fn json_bool_of(flag: bool) -> serde_json::Value;

/// The JSON object that `serde_json` collects from a list of members.
pub uninterp spec fn json_object_of(members: Seq<(Seq<char>, serde_json::Value)>) -> serde_json::Value;

/// The members of a list, with their names as plain text.
pub open spec fn members_view(members: Seq<(String, serde_json::Value)>) -> Seq<
    (Seq<char>, serde_json::Value),
> {
    members.map_values(|member: (String, serde_json::Value)| (member.0@, member.1))
}

/// The object with the single member `name`, a string.
pub open spec fn text_member(name: Seq<char>, text: Seq<char>) -> serde_json::Value {
    json_object_of(seq![(name, json_text_of(text))])
}

/// Calls `serde_json::Value::from(&str)`, which makes a `Value::String` of the
/// text. The contract only names the result.
#[verifier::external_body]
pub(crate) fn json_text(text: &str) -> (value: serde_json::Value)
    ensures
        value == json_text_of(text@),
{
    serde_json::Value::from(text)
}

/// Calls `serde_json::Value::from(u32)`, which makes a `Value::Number`. The
/// contract only names the result.
#[verifier::external_body]
pub(crate) fn json_number(number: u32) -> (value: serde_json::Value)
    ensures
        value == json_number_of(number),
{
    serde_json::Value::from(number)
}

/// Calls `serde_json::Value::from(bool)`, which makes a `Value::Bool`. The
/// contract only names the result.
#[verifier::external_body]
pub(crate) fn json_bool(flag: bool) -> (value: serde_json::Value)
    ensures
        value == json_bool_of(flag),
{
    serde_json::Value::from(flag)
}

/// Calls `serde_json::Value`'s `FromIterator<(K, V)>`, which collects the
/// members into a `Value::Object`. The contract only names the result: the
/// same members give the same object.
#[verifier::external_body]
pub(crate) fn json_object(members: Vec<(String, serde_json::Value)>) -> (value: serde_json::Value)
    ensures
        value == json_object_of(members_view(members@)),
{
    members.into_iter().collect()
}

/// Builds the object with the single member `name`, a string.
pub fn json_text_member(name: &str, text: &str) -> (value: serde_json::Value)
    ensures
        value == text_member(name@, text@),
{
    let mut members: Vec<(String, serde_json::Value)> = Vec::new();
    members.push((name.to_owned(), json_text(text)));
    assert(members_view(members@) =~= seq![(name@, json_text_of(text@))]);
    json_object(members)
}

} // verus!
