//! JSON values as far as the gateway reads them: the text and the integer
//! members of an object.

use vstd::prelude::*;

verus! {

/// The text members of a JSON object, by name; empty for any other value.
pub uninterp spec fn json_texts(value: serde_json::Value) -> Map<Seq<char>, Seq<char>>;

/// The members of a JSON object that are integers from 0 to `u64::MAX`, by
/// name; empty for any other value.
pub uninterp spec fn json_counts(value: serde_json::Value) -> Map<Seq<char>, u64>;

/// The text members of the JSON document `bytes`, by name; `None` where
/// `bytes` is no JSON document.
pub uninterp spec fn document_texts(bytes: Seq<u8>) -> Option<Map<Seq<char>, Seq<char>>>;

/// `serde_json::Value`, carried as it is: nothing is known of what it holds
/// but through `json_texts` and `json_counts`.
#[verifier::external_type_specification]
#[verifier::external_body]
pub struct ExJsonValue(serde_json::Value);

/// `serde_json::Error`, the failure of `serde_json::from_slice`; only its
/// presence is used.
#[verifier::external_type_specification]
#[verifier::external_body]
pub struct ExJsonFault(serde_json::Error);

/// `serde_json::Value::get` with a name, then `Value::as_str`: the text stored
/// under `name`, where the value is an object that has such a member.
#[verifier::external_body]
pub(crate) fn json_text(value: &serde_json::Value, name: &str) -> (text: Option<String>)
    ensures
        text is Some <==> json_texts(*value).contains_key(name@),
        text matches Some(t) ==> t@ == json_texts(*value)[name@],
{
    value.get(name).and_then(|member| member.as_str()).map(|text| text.to_owned())
}

/// `serde_json::Value::get` with a name, then `Value::as_u64`: the integer
/// stored under `name`, where the value is an object that has such a member
/// and the integer is not negative and fits 64 bits.
#[verifier::external_body]
pub(crate) fn json_count(value: &serde_json::Value, name: &str) -> (count: Option<u64>)
    ensures
        count is Some <==> json_counts(*value).contains_key(name@),
        count matches Some(c) ==> c == json_counts(*value)[name@],
{
    value.get(name).and_then(|member| member.as_u64())
}

/// `serde_json::from_slice` for a value of any shape: whether `bytes` parse
/// and what text members the value then has depend on `bytes` alone.
#[verifier::external_body]
pub(crate) fn json_parse(bytes: &[u8]) -> (res: Result<serde_json::Value, serde_json::Error>)
    ensures
        res is Ok <==> document_texts(bytes@) is Some,
        res matches Ok(value) ==> document_texts(bytes@) == Some(json_texts(value)),
{
    serde_json::from_slice::<serde_json::Value>(bytes)
}

/// Why a text could not be read out of a document.
#[derive(Clone, Copy, Debug, PartialEq, Eq, Structural)]
pub enum MemberError {
    /// The bytes are no JSON document.
    NotJson,
    /// The document is no object with a text under the name.
    NoText,
}

/// The text under `name` in the JSON document `bytes`.
pub open spec fn text_in_document(bytes: Seq<u8>, name: Seq<char>) -> Result<
    Seq<char>,
    MemberError,
> {
    match document_texts(bytes) {
        None => Err(MemberError::NotJson),
        Some(texts) => if texts.contains_key(name) {
            Ok(texts[name])
        } else {
            Err(MemberError::NoText)
        },
    }
}

/// Reads the text stored under `name` in the JSON object that `bytes` hold.
pub fn text_member(bytes: &[u8], name: &str) -> (res: Result<String, MemberError>)
    ensures
        match res {
            Ok(text) => text_in_document(bytes@, name@) == Ok::<Seq<char>, MemberError>(text@),
            Err(e) => text_in_document(bytes@, name@) == Err::<Seq<char>, MemberError>(e),
        },
{
    match json_parse(bytes) {
        Err(_) => Err(MemberError::NotJson),
        Ok(value) => match json_text(&value, name) {
            Some(text) => Ok(text),
            None => Err(MemberError::NoText),
        },
    }
}

} // verus!
