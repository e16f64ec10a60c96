//! JSON documents as plain data, read from text by `serde_json`.

use vstd::prelude::*;

verus! {

/// A member of a JSON object.
#[derive(Debug, PartialEq, Eq)]
pub struct Member {
    pub key: String,
    pub value: Json,
}

/// A JSON value. A number is kept as the text that stands for it.
#[derive(Debug, PartialEq, Eq)]
pub enum Json {
    Null,
    Bool(bool),
    Number(String),
    Text(String),
    Array(Vec<Json>),
    Object(Vec<Member>),
}

/// `serde_json::Value`, a parsed JSON value. Nothing of its inside is known here.
#[verifier::external_type_specification]
#[verifier::external_body]
pub struct ExJsonValue(serde_json::Value);

/// `serde_json::Error`, the reason why a text did not parse. Nothing of its
/// inside is known here.
#[verifier::external_type_specification]
#[verifier::external_body]
pub struct ExJsonError(serde_json::Error);

/// What `serde_json::from_str` makes of a text at the type
/// `serde_json::Value`: the value, or `None` where it reports an error.
pub uninterp spec fn parsed_value(text: Seq<char>) -> Option<serde_json::Value>;

/// What a `serde_json::Value` holds, variant by variant, as a `Json`.
pub uninterp spec fn value_json(value: serde_json::Value) -> Json;

/// The document that `text` denotes, or `None` where `text` is not JSON.
pub open spec fn json_document(text: Seq<char>) -> Option<Json> {
    match parsed_value(text) {
        Some(value) => Some(value_json(value)),
        None => None,
    }
}

/// `serde_json::from_str` at the type `serde_json::Value`. The contract
/// claims only that the outcome is determined by the text: whether it parses,
/// and to which value.
#[verifier::external_body]
fn parse_value(text: &str) -> (parsed: Result<serde_json::Value, serde_json::Error>)
    ensures
        match parsed {
            Ok(value) => parsed_value(text@) == Some(value),
            Err(_) => parsed_value(text@).is_none(),
        },
{
    serde_json::from_str::<serde_json::Value>(text)
}

/// Takes a `serde_json::Value` apart along its variants and puts it together
/// again as a `Json`: a number becomes the text that its `Display` writes, and
/// the members of an object come in the order in which its map hands them out.
/// The contract claims only that the result is determined by the value.
#[verifier::external_body]
fn json_of(value: serde_json::Value) -> (json: Json)
    ensures
        json == value_json(value),
{
    match value {
        serde_json::Value::Null => Json::Null,
        serde_json::Value::Bool(flag) => Json::Bool(flag),
        serde_json::Value::Number(number) => Json::Number(number.to_string()),
        serde_json::Value::String(text) => Json::Text(text),
        serde_json::Value::Array(items) => Json::Array(items.into_iter().map(json_of).collect()),
        serde_json::Value::Object(map) => Json::Object(
            map.into_iter().map(|(key, value)| Member { key, value: json_of(value) }).collect(),
        ),
    }
}

/// The text of a `serde_json::Error`, as its `Display` writes it. Nothing is
/// claimed of the text.
#[verifier::external_body]
fn error_text(error: &serde_json::Error) -> String {
    error.to_string()
}

/// Why a text could not be read as JSON; the message says where it went wrong.
#[derive(Debug, Clone, PartialEq, Eq)]
pub struct JsonError {
    pub message: String,
}

/// Reads a JSON document from text.
pub fn parse_json(text: &str) -> (parsed: Result<Json, JsonError>)
    ensures
        match parsed {
            Ok(document) => json_document(text@) == Some(document),
            Err(_) => json_document(text@).is_none(),
        },
{
    match parse_value(text) {
        Ok(value) => Ok(json_of(value)),
        Err(error) => Err(JsonError { message: error_text(&error) }),
    }
}

} // verus!
