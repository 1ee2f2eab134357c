use hmac::Mac;
use watermark_gateway::secret::{decode_master_secret, derive_jwt_secret, SecretError};

fn hex(bytes: &[u8]) -> String {
    let mut out = String::new();
    for b in bytes {
        out.push_str(&format!("{:02x}", b));
    }
    out
}

#[test]
fn derive_matches_known_tag() {
    let key = derive_jwt_secret("key-1", b"secret").unwrap();
    assert_eq!(hex(&key), "8b1a6b3e72ad0010f03869d2e2775b2c64821833312e3c32a65a29f491847e7c");
}

#[test]
fn derive_from_decoded_master_secret() {
    let master = decode_master_secret("00112233445566778899aabbccddeeff").unwrap();
    let key = derive_jwt_secret("client-42", &master).unwrap();
    assert_eq!(hex(&key), "1b47e396fe650382c0fbd62a84cb8c3ce1bde576fe994bb36d0fb856dceba8b0");
}

#[test]
fn derive_accepts_empty_inputs() {
    let key = derive_jwt_secret("", b"").unwrap();
    assert_eq!(hex(&key), "bcc1c332a6dd123d171f569b5a7c0b749dc8508550564fcc14e975729726ef8c");
}

#[test]
fn derive_is_deterministic() {
    let first = derive_jwt_secret("client", &[1, 2, 3, 4]).unwrap();
    let second = derive_jwt_secret("client", &[1, 2, 3, 4]).unwrap();
    assert_eq!(first, second);
    assert_eq!(first.len(), 32);
}

#[test]
fn derive_binds_the_api_key_and_the_secret() {
    let base = derive_jwt_secret("client-a", &[9; 16]).unwrap();
    assert_ne!(base, derive_jwt_secret("client-b", &[9; 16]).unwrap());
    assert_ne!(base, derive_jwt_secret("client-a", &[8; 16]).unwrap());
    assert_ne!(base, derive_jwt_secret("client-a ", &[9; 16]).unwrap());
}

#[test]
fn derive_agrees_with_the_mac_itself() {
    let mut mac = hmac::Hmac::<sha2::Sha256>::new_from_slice(&[7; 80]).unwrap();
    mac.update(b"jwt_secret:");
    mac.update("schl\u{fc}ssel".as_bytes());
    let expected = mac.finalize().into_bytes().to_vec();
    assert_eq!(derive_jwt_secret("schl\u{fc}ssel", &[7; 80]).unwrap(), expected);
}

#[test]
fn master_secret_decodes_both_cases() {
    assert_eq!(decode_master_secret("0aFF10"), Ok(vec![0x0a, 0xff, 0x10]));
    assert_eq!(decode_master_secret("ABCDEFabcdef0123456789"), Ok(vec![
        0xab, 0xcd, 0xef, 0xab, 0xcd, 0xef, 0x01, 0x23, 0x45, 0x67, 0x89
    ]));
}

#[test]
fn master_secret_ignores_surrounding_white_space() {
    assert_eq!(decode_master_secret("  dead  \n"), Ok(vec![0xde, 0xad]));
    assert_eq!(decode_master_secret("\t\u{a0}beef\u{3000}\r\n"), Ok(vec![0xbe, 0xef]));
}

#[test]
fn master_secret_must_not_be_empty() {
    assert_eq!(decode_master_secret(""), Err(SecretError::Empty));
    assert_eq!(decode_master_secret(" \n\t "), Err(SecretError::Empty));
}

#[test]
fn master_secret_must_be_hexadecimal() {
    assert_eq!(decode_master_secret("abc"), Err(SecretError::NotHex));
    assert_eq!(decode_master_secret("zz"), Err(SecretError::NotHex));
    assert_eq!(decode_master_secret("de ad"), Err(SecretError::NotHex));
    assert_eq!(decode_master_secret("0x1f"), Err(SecretError::NotHex));
    assert_eq!(decode_master_secret("d\u{e9}"), Err(SecretError::NotHex));
}

#[test]
fn short_master_secrets_are_padded_with_zeros() {
    // the MAC pads a key below its block size with zero bytes
    assert_eq!(
        derive_jwt_secret("client", &[1, 2, 3]).unwrap(),
        derive_jwt_secret("client", &[1, 2, 3, 0]).unwrap()
    );
}
