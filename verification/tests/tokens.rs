use watermark_gateway::headers::HeaderMap;
use watermark_gateway::secret::derive_jwt_secret;
use watermark_gateway::token::{
    check_token, claims_of, locate_token, parse_bearer, verify_token, Claims, TokenError,
};

const FAR_FUTURE: u64 = 4_102_444_800;

fn payload(subject: Option<&str>, expiry: Option<u64>) -> serde_json::Value {
    let mut members = serde_json::Map::new();
    if let Some(subject) = subject {
        members.insert("user_key".to_string(), serde_json::Value::String(subject.to_string()));
    }
    if let Some(expiry) = expiry {
        members.insert("exp".to_string(), serde_json::Value::Number(serde_json::Number::from(expiry)));
    }
    serde_json::Value::Object(members)
}

fn sign(payload: &serde_json::Value, key: &[u8]) -> String {
    jsonwebtoken::encode(
        &jsonwebtoken::Header::default(),
        payload,
        &jsonwebtoken::EncodingKey::from_secret(key),
    )
    .unwrap()
}

fn issue(subject: &str, expiry: u64, api_key: &str, master_secret: &[u8]) -> String {
    let key = derive_jwt_secret(api_key, master_secret).unwrap();
    sign(&payload(Some(subject), Some(expiry)), &key)
}

#[test]
fn token_signed_with_the_derived_key_verifies() {
    let token = issue("session-7", FAR_FUTURE, "client-key", &[1, 2, 3]);
    assert_eq!(
        verify_token(&token, "client-key", &[1, 2, 3]),
        Ok(Claims { subject_key: "session-7".to_string(), expiry: FAR_FUTURE })
    );
}

#[test]
fn token_fails_under_another_api_key() {
    let token = issue("session-7", FAR_FUTURE, "client-key", &[1, 2, 3]);
    assert_eq!(verify_token(&token, "client-kez", &[1, 2, 3]), Err(TokenError::InvalidSignature));
    assert_eq!(verify_token(&token, "client-key ", &[1, 2, 3]), Err(TokenError::InvalidSignature));
    assert_eq!(verify_token(&token, "", &[1, 2, 3]), Err(TokenError::InvalidSignature));
}

#[test]
fn token_fails_under_another_master_secret() {
    let token = issue("session-7", FAR_FUTURE, "client-key", &[1, 2, 3]);
    assert_eq!(verify_token(&token, "client-key", &[1, 2, 4]), Err(TokenError::InvalidSignature));
    assert_eq!(verify_token(&token, "client-key", &[]), Err(TokenError::InvalidSignature));
}

#[test]
fn token_signed_with_the_raw_api_key_fails() {
    let token = sign(&payload(Some("s"), Some(FAR_FUTURE)), b"client-key");
    assert_eq!(verify_token(&token, "client-key", &[1, 2, 3]), Err(TokenError::InvalidSignature));
}

#[test]
fn expired_token_is_refused() {
    let token = issue("session-7", 1_000_000_000, "client-key", &[1, 2, 3]);
    assert_eq!(verify_token(&token, "client-key", &[1, 2, 3]), Err(TokenError::Expired));
}

#[test]
fn text_without_the_shape_of_a_token_is_malformed() {
    assert_eq!(verify_token("", "k", &[1]), Err(TokenError::Malformed));
    assert_eq!(verify_token("not-a-token", "k", &[1]), Err(TokenError::Malformed));
    assert_eq!(verify_token("a.b", "k", &[1]), Err(TokenError::Malformed));
}

#[test]
fn three_parts_that_do_not_decode_are_another_failure() {
    assert_eq!(verify_token("a.b.c", "k", &[1]), Err(TokenError::Other));
    assert_eq!(verify_token("a.b.c.d", "k", &[1]), Err(TokenError::Other));
    assert_eq!(verify_token("..", "k", &[1]), Err(TokenError::Other));
}

#[test]
fn tampered_payload_is_refused() {
    let token = issue("session-7", FAR_FUTURE, "client-key", &[1, 2, 3]);
    let other = issue("session-8", FAR_FUTURE, "client-key", &[1, 2, 3]);
    let parts: Vec<&str> = token.split('.').collect();
    let other_parts: Vec<&str> = other.split('.').collect();
    let forged = format!("{}.{}.{}", parts[0], other_parts[1], parts[2]);
    assert_eq!(verify_token(&forged, "client-key", &[1, 2, 3]), Err(TokenError::InvalidSignature));
}

#[test]
fn token_without_subject_is_refused() {
    let key = derive_jwt_secret("k", &[5]).unwrap();
    let token = sign(&payload(None, Some(FAR_FUTURE)), &key);
    assert_eq!(check_token(&token, &key), Err(TokenError::Other));
}

#[test]
fn token_without_expiry_is_refused() {
    let key = derive_jwt_secret("k", &[5]).unwrap();
    let token = sign(&payload(Some("s"), None), &key);
    assert_eq!(check_token(&token, &key), Err(TokenError::Other));
}

#[test]
fn check_token_takes_the_key_as_it_is() {
    let token = sign(&payload(Some("s"), Some(FAR_FUTURE)), b"plain-key");
    assert_eq!(
        check_token(&token, b"plain-key"),
        Ok(Claims { subject_key: "s".to_string(), expiry: FAR_FUTURE })
    );
    assert_eq!(check_token(&token, b"plain-kex"), Err(TokenError::InvalidSignature));
}

#[test]
fn claims_need_a_text_subject_and_an_integer_expiry() {
    assert_eq!(
        claims_of(&payload(Some("u"), Some(7))),
        Ok(Claims { subject_key: "u".to_string(), expiry: 7 })
    );
    assert_eq!(claims_of(&payload(None, Some(7))), Err(TokenError::Other));
    assert_eq!(claims_of(&payload(Some("u"), None)), Err(TokenError::Other));
    assert_eq!(claims_of(&serde_json::Value::Null), Err(TokenError::Other));

    let mut members = serde_json::Map::new();
    members.insert("user_key".to_string(), serde_json::Value::Number(serde_json::Number::from(3u64)));
    members.insert("exp".to_string(), serde_json::Value::Number(serde_json::Number::from(7u64)));
    assert_eq!(claims_of(&serde_json::Value::Object(members)), Err(TokenError::Other));

    let mut members = serde_json::Map::new();
    members.insert("user_key".to_string(), serde_json::Value::String("u".to_string()));
    members.insert("exp".to_string(), serde_json::Value::Number(serde_json::Number::from(-7i64)));
    assert_eq!(claims_of(&serde_json::Value::Object(members)), Err(TokenError::Other));

    let mut members = serde_json::Map::new();
    members.insert("user_key".to_string(), serde_json::Value::String("u".to_string()));
    members.insert("exp".to_string(), serde_json::Value::String("7".to_string()));
    assert_eq!(claims_of(&serde_json::Value::Object(members)), Err(TokenError::Other));
}

#[test]
fn claims_ignore_other_members() {
    let mut value = payload(Some("u"), Some(9));
    value.as_object_mut().unwrap().insert("role".to_string(), serde_json::Value::Bool(true));
    assert_eq!(claims_of(&value), Ok(Claims { subject_key: "u".to_string(), expiry: 9 }));
}

#[test]
fn bearer_scheme_is_exact() {
    assert_eq!(parse_bearer("Bearer abc.def"), Some("abc.def".to_string()));
    assert_eq!(parse_bearer("Bearer "), Some(String::new()));
    assert_eq!(parse_bearer("Bearer  x"), Some(" x".to_string()));
    assert_eq!(parse_bearer("Bearer"), None);
    assert_eq!(parse_bearer("bearer abc"), None);
    assert_eq!(parse_bearer("Basic abc"), None);
    assert_eq!(parse_bearer(""), None);
    assert_eq!(parse_bearer("Bearer t\u{f6}ken"), Some("t\u{f6}ken".to_string()));
}

#[test]
fn header_takes_precedence_over_query() {
    let mut headers = HeaderMap::new();
    headers.append("authorization", "Bearer from-header");
    let query = Some("token=from-query".to_string());
    assert_eq!(locate_token(&headers, &query), Some("from-header".to_string()));
}

#[test]
fn query_parameter_is_the_fallback() {
    let query = Some("a=1&token=from%2Dquery&token=second".to_string());
    assert_eq!(locate_token(&HeaderMap::new(), &query), Some("from-query".to_string()));

    let mut headers = HeaderMap::new();
    headers.append("Authorization", "Basic dXNlcg==");
    assert_eq!(locate_token(&headers, &query), Some("from-query".to_string()));
}

#[test]
fn only_the_first_authorization_header_counts() {
    let mut headers = HeaderMap::new();
    headers.append("Authorization", "Basic dXNlcg==");
    headers.append("Authorization", "Bearer second");
    assert_eq!(locate_token(&headers, &None), None);
}

#[test]
fn request_without_credential_has_no_token() {
    let mut headers = HeaderMap::new();
    headers.append("X-API-Key", "k");
    assert_eq!(locate_token(&headers, &None), None);
    assert_eq!(locate_token(&headers, &Some("tokens=1&Token=2".to_string())), None);
}
