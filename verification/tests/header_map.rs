use watermark_gateway::headers::HeaderMap;

fn sample() -> HeaderMap {
    let mut h = HeaderMap::new();
    h.append("Content-Type", "video/mp4");
    h.append("Set-Cookie", "a=1");
    h.append("set-cookie", "b=2");
    h.append("X-Trace", "t");
    h
}

#[test]
fn new_map_is_empty() {
    let h = HeaderMap::new();
    assert!(h.is_empty());
    assert_eq!(h.len(), 0);
    assert_eq!(h.get("anything"), None);
    assert!(!h.contains("anything"));
}

#[test]
fn get_ignores_case_and_takes_the_first() {
    let h = sample();
    assert_eq!(h.get("content-type"), Some("video/mp4".to_string()));
    assert_eq!(h.get("CONTENT-TYPE"), Some("video/mp4".to_string()));
    assert_eq!(h.get("Set-Cookie"), Some("a=1".to_string()));
    assert_eq!(h.get("SET-COOKIE"), Some("a=1".to_string()));
    assert_eq!(h.get("Content-Typ"), None);
    assert_eq!(h.get("Content-Type "), None);
}

#[test]
fn case_folding_is_ascii_only() {
    let mut h = HeaderMap::new();
    h.append("x-\u{e9}", "lower");
    assert_eq!(h.get("X-\u{e9}"), Some("lower".to_string()));
    assert_eq!(h.get("x-\u{c9}"), None);
    // '@' and '`' differ by 32 but are no letters
    h.append("a@", "at");
    assert_eq!(h.get("a`"), None);
    h.append("a[", "bracket");
    assert_eq!(h.get("a{"), None);
}

#[test]
fn append_keeps_order_and_duplicates() {
    let h = sample();
    assert_eq!(h.len(), 4);
    assert_eq!(h.name_at(1), "Set-Cookie");
    assert_eq!(h.value_at(1), "a=1");
    assert_eq!(h.name_at(2), "set-cookie");
    assert_eq!(h.value_at(2), "b=2");
    assert!(h.contains("x-trace"));
}

#[test]
fn remove_drops_every_entry_of_the_name() {
    let mut h = sample();
    h.remove("SET-cookie");
    assert_eq!(h.len(), 2);
    assert_eq!(h.name_at(0), "Content-Type");
    assert_eq!(h.name_at(1), "X-Trace");
    assert!(!h.contains("set-cookie"));
    h.remove("absent");
    assert_eq!(h.len(), 2);
}

#[test]
fn set_replaces_every_entry_by_one_last_entry() {
    let mut h = sample();
    h.set("Set-Cookie", "c=3");
    assert_eq!(h.len(), 3);
    assert_eq!(h.name_at(0), "Content-Type");
    assert_eq!(h.name_at(1), "X-Trace");
    assert_eq!(h.name_at(2), "Set-Cookie");
    assert_eq!(h.value_at(2), "c=3");
    h.set("New", "n");
    assert_eq!(h.len(), 4);
    assert_eq!(h.get("new"), Some("n".to_string()));
}

#[test]
fn clone_is_equal() {
    let h = sample();
    assert_eq!(h.clone(), h);
}
