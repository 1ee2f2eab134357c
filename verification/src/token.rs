//! Bearer tokens: where a request carries one, and its verification against
//! the derived signing key.

use vstd::prelude::*;
use crate::headers::{first_value, Entries, HeaderMap};
use crate::json::{json_count, json_counts, json_text, json_texts};
use crate::query::{find_pair, first_with_name, parse_query, query_pairs};
use crate::secret::{derive_jwt_secret, DeriveError};
use crate::text::{chars_of, has_prefix, starts_with};

verus! {

/// What a verified token states.
#[derive(Debug, PartialEq, Eq)]
pub struct Claims {
    /// The session or user that the token was issued to.
    pub subject_key: String,
    /// When the token expires, in seconds since the epoch.
    pub expiry: u64,
}

/// The mathematical model of `Claims`.
pub struct ClaimsView {
    pub subject_key: Seq<char>,
    pub expiry: u64,
}

impl View for Claims {
    type V = ClaimsView;

    open spec fn view(&self) -> ClaimsView {
        ClaimsView { subject_key: self.subject_key@, expiry: self.expiry }
    }
}

impl Clone for Claims {
    fn clone(&self) -> (out: Self)
        ensures
            out@ == self@,
    {
        Claims { subject_key: self.subject_key.clone(), expiry: self.expiry }
    }
}

/// Why a token was refused. The classes serve diagnostics only: a client
/// learns the same of each.
#[derive(Clone, Copy, Debug, PartialEq, Eq, Structural)]
pub enum TokenError {
    /// The signature does not match the signing key.
    InvalidSignature,
    /// The token has expired.
    Expired,
    /// The text does not have the shape of a signed token.
    Malformed,
    /// Any other failure of validation.
    Other,
}

/// The claims that a token's JSON payload holds: the text under `user_key`
/// and the integer under `exp`. Both are required.
pub open spec fn claims_in(value: serde_json::Value) -> Result<ClaimsView, TokenError> {
    if json_texts(value).contains_key("user_key"@) && json_counts(value).contains_key("exp"@) {
        Ok(
            ClaimsView {
                subject_key: json_texts(value)["user_key"@],
                expiry: json_counts(value)["exp"@],
            },
        )
    } else {
        Err(TokenError::Other)
    }
}

/// `jsonwebtoken::errors::Error`, the failure of `jsonwebtoken::decode`; its
/// kind is read by `fault_class`.
#[verifier::external_type_specification]
#[verifier::external_body]
pub struct ExTokenFault(jsonwebtoken::errors::Error);

/// `jsonwebtoken::decode` with an HMAC key made of `key` and the default
/// validation (HS256, `exp` required and checked against the clock). The
/// outcome depends on the time of the call, so nothing is stated of it.
#[verifier::external_body]
fn jwt_decode(token: &str, key: &[u8]) -> (res: Result<serde_json::Value, jsonwebtoken::errors::Error>)
{
    let key = jsonwebtoken::DecodingKey::from_secret(key);
    let validation = jsonwebtoken::Validation::default();
    jsonwebtoken::decode::<serde_json::Value>(token, &key, &validation).map(|data| data.claims)
}

/// `jsonwebtoken::errors::Error::kind`, its variants told apart.
#[verifier::external_body]
fn fault_class(fault: &jsonwebtoken::errors::Error) -> (class: TokenError)
{
    match fault.kind() {
        jsonwebtoken::errors::ErrorKind::InvalidSignature => TokenError::InvalidSignature,
        jsonwebtoken::errors::ErrorKind::ExpiredSignature => TokenError::Expired,
        jsonwebtoken::errors::ErrorKind::InvalidToken => TokenError::Malformed,
        _ => TokenError::Other,
    }
}

/// Reads the claims out of the payload of a token whose signature and expiry
/// were found in order.
pub fn claims_of(payload: &serde_json::Value) -> (res: Result<Claims, TokenError>)
    ensures
        match res {
            Ok(claims) => claims_in(*payload) == Ok::<ClaimsView, TokenError>(claims@),
            Err(e) => claims_in(*payload) == Err::<ClaimsView, TokenError>(e),
        },
{
    let subject = json_text(payload, "user_key");
    let expiry = json_count(payload, "exp");
    match (subject, expiry) {
        (Some(subject_key), Some(expiry)) => Ok(Claims { subject_key, expiry }),
        _ => Err(TokenError::Other),
    }
}

/// Checks `token` against the signing key `key`: its shape, its HS256
/// signature, its expiry against the clock, and its claims.
///
/// Whether a token is accepted depends on the time of the call. Whatever the
/// outcome, a token is accepted only with the claims of its payload.
pub fn check_token(token: &str, key: &[u8]) -> (res: Result<Claims, TokenError>)
    ensures
        res matches Ok(claims) ==> exists|payload: serde_json::Value|
            claims_in(payload) == Ok::<ClaimsView, TokenError>(claims@),
{
    match jwt_decode(token, key) {
        Ok(payload) => claims_of(&payload),
        Err(fault) => Err(fault_class(&fault)),
    }
}

/// Verifies `token` for the client `api_key` under `master_secret`, with the
/// signing key derived from the two.
pub fn verify_token(token: &str, api_key: &str, master_secret: &[u8]) -> (res: Result<
    Claims,
    TokenError,
>)
    ensures
        res matches Ok(claims) ==> exists|payload: serde_json::Value|
            claims_in(payload) == Ok::<ClaimsView, TokenError>(claims@),
{
    match derive_jwt_secret(api_key, master_secret) {
        Ok(key) => check_token(token, key.as_slice()),
        Err(DeriveError::KeyRejected) => Err(TokenError::Other),
    }
}

/// The token of an `Authorization` value of the form `Bearer <token>`.
pub open spec fn bearer_token(value: Seq<char>) -> Option<Seq<char>> {
    if has_prefix(value, "Bearer "@) {
        Some(value.subrange("Bearer "@.len() as int, value.len() as int))
    } else {
        None
    }
}

/// The token that a request carries: the bearer token of its first
/// `Authorization` header, else the first `token` parameter of its query.
pub open spec fn token_of(headers: Entries, query: Option<Seq<char>>) -> Option<Seq<char>> {
    let from_header = match first_value(headers, "Authorization"@) {
        Some(value) => bearer_token(value),
        None => None,
    };
    match from_header {
        Some(token) => Some(token),
        None => first_with_name(query_pairs(query), "token"@),
    }
}

/// Takes the token out of an `Authorization` value, if it is a bearer token.
pub fn parse_bearer(value: &str) -> (token: Option<String>)
    ensures
        token is Some == bearer_token(value@) is Some,
        token matches Some(t) ==> bearer_token(value@) == Some(t@),
{
    let chars = chars_of(value);
    let scheme = chars_of("Bearer ");
    if starts_with(&chars, &scheme) {
        Some(value.substring_char(scheme.len(), chars.len()).to_owned())
    } else {
        None
    }
}

/// Finds the token of a request. An `Authorization: Bearer` header takes
/// precedence over a `token` query parameter.
pub fn locate_token(headers: &HeaderMap, query: &Option<String>) -> (token: Option<String>)
    ensures
        token is Some == token_of(
            headers@,
            match *query {
                Some(q) => Some(q@),
                None => None,
            },
        ) is Some,
        token matches Some(t) ==> token_of(
            headers@,
            match *query {
                Some(q) => Some(q@),
                None => None,
            },
        ) == Some(t@),
{
    let from_header = match headers.get("Authorization") {
        Some(value) => parse_bearer(value.as_str()),
        None => None,
    };
    match from_header {
        Some(token) => Some(token),
        None => {
            let pairs = parse_query(query);
            find_pair(&pairs, "token")
        },
    }
}

} // verus!
