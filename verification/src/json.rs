use vstd::prelude::*;

verus! {

/// A parsed JSON document, as `serde_json` holds it. Nothing inside it is
/// visible to the proofs: it is read through the functions of this module.
#[verifier::external_type_specification]
#[verifier::external_body]
pub struct ExJsonValue(serde_json::Value);

/// The failure that `serde_json` reports when text is not the JSON that was
/// asked for, or a value cannot be written as JSON.
#[verifier::external_type_specification]
#[verifier::external_body]
pub struct ExJsonError(serde_json::Error);

/// The document that `serde_json::from_str` reads from `text`, or `None` where
/// it reports a failure.
pub uninterp spec fn json_decoded(text: Seq<char>) -> Option<serde_json::Value>;

/// The text that `serde_json::to_string` writes for `value`, or `None` where it
/// reports a failure.
pub uninterp spec fn json_encoded(value: serde_json::Value) -> Option<Seq<char>>;

/// What `serde_json::Value::get` finds in `value` under the text `key`: the
/// member of that name where `value` is an object that has one.
pub uninterp spec fn json_member(value: serde_json::Value, key: Seq<char>) -> Option<
    serde_json::Value,
>;

/// What `serde_json::Value::as_str` finds in `value`: its text where `value` is
/// a JSON string.
pub uninterp spec fn json_text(value: serde_json::Value) -> Option<Seq<char>>;

/// The object with the single member `key`, a JSON string holding `text`.
pub uninterp spec fn json_labelled(key: Seq<char>, text: Seq<char>) -> serde_json::Value;

/// Whether `value` has, under `key`, a member that is a JSON string holding
/// `text`, and no member under any other name.
pub open spec fn holds_only(value: serde_json::Value, key: Seq<char>, text: Seq<char>) -> bool {
    &&& json_member(value, key) matches Some(inner) && json_text(inner) == Some(text)
    &&& forall|other: Seq<char>| other != key ==> #[trigger] json_member(value, other) is None
}

/// Calls `serde_json::from_str` for a `serde_json::Value`. Trusted: the outcome
/// is the one that `json_decoded` names for the same text, the document on
/// success and a failure otherwise.
#[verifier::external_body]
pub(crate) fn parse(text: &str) -> (parsed: Result<serde_json::Value, serde_json::Error>)
    ensures
        match parsed {
            Ok(value) => json_decoded(text@) == Some(value),
            Err(_) => json_decoded(text@) is None,
        },
{
    serde_json::from_str::<serde_json::Value>(text)
}

/// Calls `serde_json::to_string` on a `serde_json::Value`. Trusted: the outcome
/// is the one that `json_encoded` names for the same value, the text on success
/// and a failure otherwise. Nothing is claimed of which values it fails on.
#[verifier::external_body]
pub(crate) fn render(value: &serde_json::Value) -> (written: Result<String, serde_json::Error>)
    ensures
        match written {
            Ok(text) => json_encoded(*value) == Some(text@),
            Err(_) => json_encoded(*value) is None,
        },
{
    serde_json::to_string(value)
}

/// Calls `serde_json::Value::get` with a text key and copies what it finds.
/// Trusted: the result is the one that `json_member` names.
#[verifier::external_body]
pub(crate) fn member(value: &serde_json::Value, key: &str) -> (found: Option<serde_json::Value>)
    ensures
        found == json_member(*value, key@),
{
    value.get(key).cloned()
}

/// Calls `serde_json::Value::as_str` and copies what it finds. Trusted: the
/// result is the text that `json_text` names, or `None` where it names none.
#[verifier::external_body]
pub(crate) fn text(value: &serde_json::Value) -> (found: Option<String>)
    ensures
        match found {
            Some(text) => json_text(*value) == Some(text@),
            None => json_text(*value) is None,
        },
{
    value.as_str().map(String::from)
}

/// Builds a `serde_json::Value::Object` whose only member, under `key`, is the
/// `serde_json::Value::String` of `text`. Trusted: the result is the value that
/// `json_labelled` names; `Value::get` finds that string under `key` and
/// nothing under any other name, and `Value::as_str` finds `text` in it.
#[verifier::external_body]
pub(crate) fn labelled(key: &str, text: &str) -> (value: serde_json::Value)
    ensures
        value == json_labelled(key@, text@),
        holds_only(value, key@, text@),
{
    let mut members = serde_json::Map::new();
    members.insert(String::from(key), serde_json::Value::String(String::from(text)));
    serde_json::Value::Object(members)
}

/// Calls `serde::de::Error::custom` for a `serde_json::Error` that carries
/// `message`. Nothing is claimed of the failure it returns.
#[verifier::external_body]
pub(crate) fn failure(message: &str) -> serde_json::Error {
    serde::de::Error::custom(message)
}

} // verus!
