//! The master secret and the per-client signing key derived from it.

use hmac::Mac;
use vstd::prelude::*;
use vstd::string::StringSliceAdditionalSpecFns;

verus! {

/// The value of one hexadecimal digit, given as its ASCII code.
pub open spec fn hex_digit(b: u8) -> Option<u8> {
    if 0x30 <= b <= 0x39 {
        Some((b - 0x30) as u8)
    } else if 0x61 <= b <= 0x66 {
        Some((b - 0x61 + 10) as u8)
    } else if 0x41 <= b <= 0x46 {
        Some((b - 0x41 + 10) as u8)
    } else {
        None
    }
}

/// Every byte of `text` is a hexadecimal digit, and their number is even.
pub open spec fn is_hex(text: Seq<u8>) -> bool {
    text.len() % 2 == 0 && forall|i: int| 0 <= i < text.len() ==> hex_digit(#[trigger] text[i]) is Some
}

/// The bytes that the digit pairs of `text` stand for, most significant digit
/// first; `None` unless `text` is hexadecimal.
pub open spec fn hex_decoded(text: Seq<u8>) -> Option<Seq<u8>> {
    if is_hex(text) {
        Some(
            Seq::new(
                text.len() / 2,
                |i: int| (hex_digit(text[2 * i])->0 * 16 + hex_digit(text[2 * i + 1])->0) as u8,
            ),
        )
    } else {
        None
    }
}

/// The HMAC-SHA256 tag of `message` under `key`.
pub uninterp spec fn hmac_sha256_tag(key: Seq<u8>, message: Seq<u8>) -> Seq<u8>;

/// The signing key of the client `api_key` under `master_secret`: the
/// HMAC-SHA256 tag, keyed by the master secret, of the UTF-8 bytes of
/// `jwt_secret:` followed by the API key as it stands.
pub open spec fn derived_key(api_key: Seq<char>, master_secret: Seq<u8>) -> Seq<u8> {
    hmac_sha256_tag(master_secret, vstd::utf8::encode_utf8("jwt_secret:"@ + api_key))
}

/// `hex::FromHexError`, the failure of `hex::decode`; only its presence is
/// used.
#[verifier::external_type_specification]
#[verifier::external_body]
pub struct ExFromHexError(hex::FromHexError);

/// `hmac::digest::InvalidLength`, the failure to key a MAC; only its
/// presence is used.
#[verifier::external_type_specification]
#[verifier::external_body]
pub struct ExInvalidLength(hmac::digest::InvalidLength);

/// `hex::decode`: succeeds exactly on an even number of hexadecimal digits of
/// either case, and then yields one byte per pair of digits, the first digit
/// of a pair being the upper half of the byte.
#[verifier::external_body]
fn hex_decode(text: &str) -> (res: Result<Vec<u8>, hex::FromHexError>)
    ensures
        res is Ok <==> hex_decoded(text.spec_bytes()) is Some,
        res matches Ok(bytes) ==> hex_decoded(text.spec_bytes()) == Some(bytes@),
{
    hex::decode(text)
}

/// `Hmac::<Sha256>::new_from_slice`, `update` and `finalize` of the `hmac`
/// crate: a key of any length is accepted, and the tag depends on the key and
/// the message alone.
#[verifier::external_body]
fn hmac_sha256(key: &[u8], message: &[u8]) -> (res: Result<Vec<u8>, hmac::digest::InvalidLength>)
    ensures
        res is Ok,
        res matches Ok(tag) ==> tag@ == hmac_sha256_tag(key@, message@),
{
    let mut mac = hmac::Hmac::<sha2::Sha256>::new_from_slice(key)?;
    mac.update(message);
    Ok(mac.finalize().into_bytes().to_vec())
}

/// Why a signing key could not be derived.
#[derive(Clone, Copy, Debug, PartialEq, Eq, Structural)]
pub enum DeriveError {
    /// The MAC refused the master secret as its key.
    KeyRejected,
}

/// Why a stored master secret could not be used.
#[derive(Clone, Copy, Debug, PartialEq, Eq, Structural)]
pub enum SecretError {
    /// Nothing but white space is stored.
    Empty,
    /// What is stored is not an even number of hexadecimal digits.
    NotHex,
}

/// The master secret that the stored text `stored` stands for: its
/// hexadecimal digits, white space around them set aside.
pub open spec fn master_secret_of(stored: Seq<char>) -> Result<Seq<u8>, SecretError> {
    let digits = crate::text::trimmed(stored);
    if digits.len() == 0 {
        Err(SecretError::Empty)
    } else {
        match hex_decoded(vstd::utf8::encode_utf8(digits)) {
            Some(bytes) => Ok(bytes),
            None => Err(SecretError::NotHex),
        }
    }
}

/// Decodes the master secret from the text under which it is stored.
pub fn decode_master_secret(stored: &str) -> (res: Result<Vec<u8>, SecretError>)
    ensures
        match res {
            Ok(bytes) => master_secret_of(stored@) == Ok::<Seq<u8>, SecretError>(bytes@),
            Err(e) => master_secret_of(stored@) == Err::<Seq<u8>, SecretError>(e),
        },
{
    let digits = crate::text::trim(stored);
    if digits.as_str().unicode_len() == 0 {
        return Err(SecretError::Empty);
    }
    match hex_decode(digits.as_str()) {
        Ok(bytes) => Ok(bytes),
        Err(_) => Err(SecretError::NotHex),
    }
}

/// Derives the signing key of a client from its API key and the master secret.
///
/// The key is bound to the API key: another client's key cannot be computed
/// without the master secret.
pub fn derive_jwt_secret(api_key: &str, master_secret: &[u8]) -> (res: Result<Vec<u8>, DeriveError>)
    ensures
        res is Ok,
        res matches Ok(key) ==> key@ == derived_key(api_key@, master_secret@),
{
    let mut message = "jwt_secret:".to_owned();
    message.append(api_key);
    match hmac_sha256(master_secret, message.as_str().as_bytes()) {
        Ok(tag) => Ok(tag),
        Err(_) => Err(DeriveError::KeyRejected),
    }
}

/// Two derivations from the same API key and master secret give the same key.
pub proof fn law_derive_is_deterministic(
    api_key_a: Seq<char>,
    master_secret_a: Seq<u8>,
    api_key_b: Seq<char>,
    master_secret_b: Seq<u8>,
)
    requires
        api_key_a == api_key_b,
        master_secret_a == master_secret_b,
    ensures
        derived_key(api_key_a, master_secret_a) == derived_key(api_key_b, master_secret_b),
{
}

} // verus!
