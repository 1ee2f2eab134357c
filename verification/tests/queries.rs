use watermark_gateway::query::{build_watermark_query, encode_pairs, find_pair, parse_query, QueryPair};

fn pair(name: &str, value: &str) -> QueryPair {
    QueryPair { name: name.to_string(), value: value.to_string() }
}

#[test]
fn absent_query_has_no_pairs() {
    assert_eq!(parse_query(&None), Vec::<QueryPair>::new());
    assert_eq!(parse_query(&Some(String::new())), Vec::<QueryPair>::new());
}

#[test]
fn pairs_are_split_and_decoded() {
    let pairs = parse_query(&Some("a=1&b=two+words&c=%2Fx%3D&&d&=e".to_string()));
    assert_eq!(
        pairs,
        vec![pair("a", "1"), pair("b", "two words"), pair("c", "/x="), pair("d", ""), pair("", "e")]
    );
}

#[test]
fn find_pair_takes_the_first_exact_name() {
    let pairs = parse_query(&Some("Token=x&token=first&token=second".to_string()));
    assert_eq!(find_pair(&pairs, "token"), Some("first".to_string()));
    assert_eq!(find_pair(&pairs, "Token"), Some("x".to_string()));
    assert_eq!(find_pair(&pairs, "toke"), None);
    assert_eq!(find_pair(&Vec::new(), "token"), None);
}

#[test]
fn encoding_keeps_unreserved_bytes_only() {
    let pairs = vec![pair("AZaz09-._~", "user 1/\u{e9}"), pair("k&=", "+%")];
    assert_eq!(encode_pairs(&pairs), "AZaz09-._~=user%201%2F%C3%A9&k%26%3D=%2B%25");
    assert_eq!(encode_pairs(&Vec::new()), "");
    assert_eq!(encode_pairs(&vec![pair("", "")]), "=");
}

#[test]
fn watermark_query_appends_the_subject() {
    assert_eq!(build_watermark_query(&None, "session-1"), "subject_key=session-1");
    assert_eq!(
        build_watermark_query(&Some("token=abc.def&q=a+b".to_string()), "u/1"),
        "token=abc.def&q=a%20b&subject_key=u%2F1"
    );
}

#[test]
fn watermark_query_keeps_a_client_supplied_subject_first() {
    assert_eq!(
        build_watermark_query(&Some("subject_key=forged".to_string()), "real"),
        "subject_key=forged&subject_key=real"
    );
}
