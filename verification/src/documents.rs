//! What is read out of the deployment tool's documents: the service id of a
//! manifest, the id of a store, the master secret of the service's answer.

use vstd::prelude::*;
use vstd::string::StringSliceAdditionalSpecFns;
use crate::json::{text_in_document, text_member, MemberError};
use crate::text::{trim, trimmed};

verus! {

/// The members of a table by name: the text of a member that is a text,
/// `None` for a member of another kind. Empty for a value that is no table.
pub uninterp spec fn table_members(value: toml::Value) -> Map<Seq<char>, Option<Seq<char>>>;

/// The members of the TOML document `text`; `None` where `text` is no TOML
/// document.
pub uninterp spec fn toml_document(text: Seq<char>) -> Option<Map<Seq<char>, Option<Seq<char>>>>;

/// The members of the JSON document `bytes`, read as a table; `None` where
/// `bytes` are no JSON document or hold what a table cannot, such as `null`.
pub uninterp spec fn json_table(bytes: Seq<u8>) -> Option<Map<Seq<char>, Option<Seq<char>>>>;

/// The text that `bytes` stand for, with a replacement character for every
/// sequence that is not UTF-8.
pub uninterp spec fn lossy_text(bytes: Seq<u8>) -> Seq<char>;

/// `toml::Value`, carried as it is: nothing is known of what it holds but
/// through `table_members`.
#[verifier::external_type_specification]
#[verifier::external_body]
pub struct ExTable(toml::Value);

/// `toml::de::Error`, the failure of `toml::from_str`; only its presence is
/// used.
#[verifier::external_type_specification]
#[verifier::external_body]
pub struct ExTomlFault(toml::de::Error);

/// A member of a table, looked up by name.
enum Member {
    /// The member is this text.
    Text(String),
    /// The member is there but is no text.
    NotText,
    /// The table has no such member.
    Absent,
}

/// The member `name` of `members`.
pub open spec fn member_of(members: Map<Seq<char>, Option<Seq<char>>>, name: Seq<char>) -> Result<
    Seq<char>,
    LookupError,
> {
    if !members.contains_key(name) {
        Err(LookupError::Missing)
    } else {
        match members[name] {
            Some(text) => Ok(text),
            None => Err(LookupError::NotText),
        }
    }
}

/// Why a text could not be read out of a document.
#[derive(Clone, Copy, Debug, PartialEq, Eq, Structural)]
pub enum LookupError {
    /// The document holds nothing but white space.
    Empty,
    /// The document cannot be read.
    Unreadable,
    /// The document has no member of the name.
    Missing,
    /// The member is no text.
    NotText,
}

/// `toml::from_str` for a value of any shape: whether `text` parses and what
/// members the value then has depend on `text` alone.
#[verifier::external_body]
fn toml_parse(text: &str) -> (res: Result<toml::Value, toml::de::Error>)
    ensures
        res is Ok <==> toml_document(text@) is Some,
        res matches Ok(value) ==> toml_document(text@) == Some(table_members(value)),
{
    toml::from_str::<toml::Value>(text)
}

/// `serde_json::from_slice` into a `toml::Value`: whether `bytes` can be read
/// so and what members the value then has depend on `bytes` alone.
#[verifier::external_body]
fn json_parse_table(bytes: &[u8]) -> (res: Result<toml::Value, serde_json::Error>)
    ensures
        res is Ok <==> json_table(bytes@) is Some,
        res matches Ok(value) ==> json_table(bytes@) == Some(table_members(value)),
{
    serde_json::from_slice::<toml::Value>(bytes)
}

/// `toml::Value::get` with a name, then `Value::as_str`: the member of that
/// name, where the value is a table that has one.
#[verifier::external_body]
fn table_member(value: &toml::Value, name: &str) -> (member: Member)
    ensures
        member is Absent <==> !table_members(*value).contains_key(name@),
        member is NotText ==> table_members(*value)[name@] is None,
        member matches Member::Text(text) ==> table_members(*value)[name@] == Some(text@),
{
    match value.get(name) {
        None => Member::Absent,
        Some(found) => match found.as_str() {
            Some(text) => Member::Text(text.to_owned()),
            None => Member::NotText,
        },
    }
}

/// `String::from_utf8_lossy` of std, made owned: the text depends on the
/// bytes alone.
#[verifier::external_body]
fn from_utf8_lossy(bytes: &[u8]) -> (text: String)
    ensures
        text@ == lossy_text(bytes@),
{
    String::from_utf8_lossy(bytes).into_owned()
}

/// Reads the text member `name` of a table.
fn read_member(value: &toml::Value, name: &str) -> (res: Result<String, LookupError>)
    ensures
        match res {
            Ok(text) => member_of(table_members(*value), name@) == Ok::<Seq<char>, LookupError>(
                text@,
            ),
            Err(e) => member_of(table_members(*value), name@) == Err::<Seq<char>, LookupError>(e),
        },
{
    match table_member(value, name) {
        Member::Text(text) => Ok(text),
        Member::NotText => Err(LookupError::NotText),
        Member::Absent => Err(LookupError::Missing),
    }
}

/// The service id that the manifest `manifest` names.
pub open spec fn service_id_in(manifest: Seq<char>) -> Result<Seq<char>, LookupError> {
    match toml_document(manifest) {
        None => Err(LookupError::Unreadable),
        Some(members) => member_of(members, "service_id"@),
    }
}

/// The id of the store that the tool's output `described` describes.
pub open spec fn store_id_in(described: Seq<u8>) -> Result<Seq<char>, LookupError> {
    if trimmed(lossy_text(described)).len() == 0 {
        Err(LookupError::Empty)
    } else {
        match json_table(described) {
            None => Err(LookupError::Unreadable),
            Some(members) => member_of(members, "id"@),
        }
    }
}

/// Reads the service id out of the text of a service manifest.
pub fn service_id(manifest: &str) -> (res: Result<String, LookupError>)
    ensures
        match res {
            Ok(id) => service_id_in(manifest@) == Ok::<Seq<char>, LookupError>(id@),
            Err(e) => service_id_in(manifest@) == Err::<Seq<char>, LookupError>(e),
        },
{
    match toml_parse(manifest) {
        Err(_) => Err(LookupError::Unreadable),
        Ok(value) => read_member(&value, "service_id"),
    }
}

/// Reads the id of a store out of the tool's description of it, a JSON
/// document.
pub fn store_id(described: &[u8]) -> (res: Result<String, LookupError>)
    ensures
        match res {
            Ok(id) => store_id_in(described@) == Ok::<Seq<char>, LookupError>(id@),
            Err(e) => store_id_in(described@) == Err::<Seq<char>, LookupError>(e),
        },
{
    let text = from_utf8_lossy(described);
    if trim(text.as_str()).as_str().unicode_len() == 0 {
        return Err(LookupError::Empty);
    }
    match json_parse_table(described) {
        Err(_) => Err(LookupError::Unreadable),
        Ok(value) => read_member(&value, "id"),
    }
}

/// Reads the master secret out of the service's answer, a JSON object with
/// the secret under `secret`.
pub fn api_secret(answer: &str) -> (res: Result<String, MemberError>)
    ensures
        match res {
            Ok(secret) => text_in_document(answer.spec_bytes(), "secret"@) == Ok::<
                Seq<char>,
                MemberError,
            >(secret@),
            Err(e) => text_in_document(answer.spec_bytes(), "secret"@) == Err::<
                Seq<char>,
                MemberError,
            >(e),
        },
{
    text_member(answer.as_bytes(), "secret")
}

} // verus!
