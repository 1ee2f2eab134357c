use watermark_gateway::documents::{api_secret, service_id, store_id, LookupError};
use watermark_gateway::json::{text_member, MemberError};
use watermark_gateway::provision::{
    creation_outcome, final_word, install_entries, keys_to_update, plan_update, service_domain,
    shown_value, Creation, Settings, StoreEntry, UpdateStep,
};
use watermark_gateway::text::{contains_text, split, trim};

fn entry(store: &str, key: &str, value: &str) -> StoreEntry {
    StoreEntry { store: store.to_string(), key: key.to_string(), value: value.to_string() }
}

#[test]
fn split_keeps_empty_pieces() {
    assert_eq!(split("a,b,,c", ','), vec!["a", "b", "", "c"]);
    assert_eq!(split("", ','), vec![""]);
    assert_eq!(split(",", ','), vec!["", ""]);
    assert_eq!(split("no separator", ','), vec!["no separator"]);
    assert_eq!(split("\u{e9}\n\u{4e2d}\n", '\n'), vec!["\u{e9}", "\u{4e2d}", ""]);
}

#[test]
fn trim_removes_unicode_white_space_at_both_ends() {
    assert_eq!(trim("  a b \t\r\n"), "a b");
    assert_eq!(trim("\u{2003}x\u{a0}"), "x");
    assert_eq!(trim("   "), "");
    assert_eq!(trim(""), "");
    assert_eq!(trim("x"), "x");
    assert_eq!(trim("\u{200b}x"), "\u{200b}x");
}

#[test]
fn contains_text_finds_substrings() {
    assert!(contains_text("store already exists", "already exists"));
    assert!(contains_text("already exists", "already exists"));
    assert!(contains_text("abc", ""));
    assert!(contains_text("", ""));
    assert!(!contains_text("already exist", "already exists"));
    assert!(!contains_text("", "a"));
    assert!(contains_text("aab", "ab"));
}

#[test]
fn defaults_hold_the_encoding_parameters() {
    let s = Settings::defaults();
    assert_eq!(s.get("FMP4_AAC_PROFILE"), Some("AAC-LC".to_string()));
    assert_eq!(s.get("FMP4_SAMPLE_RATE"), Some("44100".to_string()));
    assert_eq!(s.get("FMP4_CHANNELS"), Some("2".to_string()));
    assert_eq!(s.get("FMP4_TRACK_ID"), Some("1".to_string()));
    assert_eq!(s.get("STEGAWAVE_API_KEY"), None);
    assert_eq!(Settings::new().get("FMP4_CHANNELS"), None);
}

#[test]
fn later_assignment_counts() {
    let mut s = Settings::new();
    s.set("k", "1");
    s.set("other", "x");
    s.set("k", "2");
    assert_eq!(s.get("k"), Some("2".to_string()));
    assert_eq!(s.get("K"), None);
    assert_eq!(s.get_or("k", "d"), "2");
    assert_eq!(s.get_or("missing", "d"), "d");
}

#[test]
fn load_reads_assignments_and_skips_the_rest() {
    let content = "# comment\n\n  FMP4_CHANNELS = 6  \r\nFMP4_TRACK_ID=\nSTEGAWAVE_API_KEY=abc=def\n   # FMP4_SAMPLE_RATE=1\nno assignment here\n=value\nFASTLY_API_TOKEN = t ";
    let s = Settings::load(content);
    assert_eq!(s.get("FMP4_CHANNELS"), Some("6".to_string()));
    assert_eq!(s.get("FMP4_TRACK_ID"), Some("1".to_string()));
    assert_eq!(s.get("FMP4_SAMPLE_RATE"), Some("44100".to_string()));
    assert_eq!(s.get("FMP4_AAC_PROFILE"), Some("AAC-LC".to_string()));
    assert_eq!(s.get("STEGAWAVE_API_KEY"), Some("abc=def".to_string()));
    assert_eq!(s.get("FASTLY_API_TOKEN"), Some("t".to_string()));
    assert_eq!(s.get(""), Some("value".to_string()));
    assert_eq!(s.get("no assignment here"), None);
}

#[test]
fn load_of_nothing_gives_the_defaults() {
    assert_eq!(Settings::load(""), Settings::defaults());
    assert_eq!(Settings::load("\n\n# only comments\n"), Settings::defaults());
}

#[test]
fn apply_line_follows_the_first_equals_sign() {
    let mut s = Settings::new();
    s.apply_line(" a = b = c ");
    assert_eq!(s.get("a"), Some("b = c".to_string()));
    s.apply_line("#a=z");
    s.apply_line("a");
    s.apply_line("a=   ");
    assert_eq!(s.get("a"), Some("b = c".to_string()));
}

#[test]
fn render_writes_the_settings_file() {
    let mut s = Settings::defaults();
    s.set("STEGAWAVE_API_KEY", "key-1");
    s.set("FMP4_CHANNELS", "1");
    let expected = "# StegaWave Configuration
# This file contains default values for KV store entries.
# Edit these values as needed for your deployment.

# === Audio Encoding Configuration ===
# These values control how audio segments are processed for watermarking

# AAC Profile to use for encoding (typically AAC-LC)
FMP4_AAC_PROFILE=AAC-LC

# Sample rate in Hz (44100 is standard CD quality)
FMP4_SAMPLE_RATE=44100

# Number of audio channels (2 for stereo)
FMP4_CHANNELS=1

# Track ID for the audio track in the FMP4 container
FMP4_TRACK_ID=1

# === Service Configuration ===
# These values are automatically populated during setup but can be updated

# Your StegaWave API key (will be set during setup)
STEGAWAVE_API_KEY=key-1

# Fastly API token (will be set during setup)
FASTLY_API_TOKEN=

# === Advanced Configuration ===
# These values typically don't need to be changed

# Watermarking probability (0.01 = 1% chance)
WATERMARK_PROBABILITY=0.01
";
    assert_eq!(s.render(), expected);
}

#[test]
fn rendered_settings_load_back() {
    let mut s = Settings::defaults();
    s.set("STEGAWAVE_API_KEY", "key-1");
    s.set("FASTLY_API_TOKEN", "tok");
    s.set("FMP4_SAMPLE_RATE", "48000");
    let back = Settings::load(&s.render());
    for key in ["FMP4_AAC_PROFILE", "FMP4_SAMPLE_RATE", "FMP4_CHANNELS", "FMP4_TRACK_ID", "STEGAWAVE_API_KEY", "FASTLY_API_TOKEN"] {
        assert_eq!(back.get(key), s.get(key));
    }
    assert_eq!(back.get("WATERMARK_PROBABILITY"), Some("0.01".to_string()));
}

#[test]
fn update_covers_the_encoding_parameters_by_default() {
    assert_eq!(
        keys_to_update(&None),
        vec!["FMP4_AAC_PROFILE", "FMP4_SAMPLE_RATE", "FMP4_CHANNELS", "FMP4_TRACK_ID"]
    );
    let steps = plan_update(&Settings::defaults(), &None);
    assert_eq!(
        steps,
        vec![
            UpdateStep::Write(entry("watermarking_config", "FMP4_AAC_PROFILE", "AAC-LC")),
            UpdateStep::Write(entry("watermarking_config", "FMP4_SAMPLE_RATE", "44100")),
            UpdateStep::Write(entry("watermarking_config", "FMP4_CHANNELS", "2")),
            UpdateStep::Write(entry("watermarking_config", "FMP4_TRACK_ID", "1")),
        ]
    );
}

#[test]
fn update_of_listed_keys() {
    assert_eq!(keys_to_update(&Some(" a , b,,c ".to_string())), vec!["a", "b", "", "c"]);
    let mut s = Settings::defaults();
    s.set("STEGAWAVE_API_KEY", "key-1");
    s.set("FASTLY_API_TOKEN", "tok");
    let listed = Some("FMP4_CHANNELS, STEGAWAVE_API_KEY ,FASTLY_API_TOKEN,NOT_SET".to_string());
    assert_eq!(
        plan_update(&s, &listed),
        vec![
            UpdateStep::Write(entry("watermarking_config", "FMP4_CHANNELS", "2")),
            UpdateStep::Write(entry("api_keys", "service_api_key", "key-1")),
            UpdateStep::Unknown("FASTLY_API_TOKEN".to_string()),
        ]
    );
    assert_eq!(plan_update(&Settings::new(), &None), Vec::<UpdateStep>::new());
}

#[test]
fn installation_writes_six_entries() {
    let mut s = Settings::new();
    s.set("FMP4_SAMPLE_RATE", "48000");
    assert_eq!(
        install_entries(&s, "00ff", "key-1"),
        vec![
            entry("secrets", "SECRET_KEY_HEX", "00ff"),
            entry("api_keys", "service_api_key", "key-1"),
            entry("watermarking_config", "FMP4_AAC_PROFILE", "AAC-LC"),
            entry("watermarking_config", "FMP4_SAMPLE_RATE", "48000"),
            entry("watermarking_config", "FMP4_CHANNELS", "2"),
            entry("watermarking_config", "FMP4_TRACK_ID", "1"),
        ]
    );
}

#[test]
fn secrets_are_never_shown() {
    assert_eq!(shown_value("SECRET_KEY_HEX", "00ff"), "[REDACTED]");
    assert_eq!(shown_value("MY_SECRET", "x"), "[REDACTED]");
    assert_eq!(shown_value("secret", "x"), "x");
    assert_eq!(shown_value("service_api_key", "key-1"), "key-1");
}

#[test]
fn existing_store_is_as_good_as_a_new_one() {
    assert_eq!(creation_outcome(true, "", ""), Creation::Created);
    assert_eq!(creation_outcome(true, "", "already exists"), Creation::Created);
    assert_eq!(creation_outcome(false, "", "ERROR: store already exists."), Creation::AlreadyExists);
    assert_eq!(creation_outcome(false, "a store with that name already exists", ""), Creation::AlreadyExists);
    assert_eq!(creation_outcome(false, "", "permission denied"), Creation::Failed);
    assert_eq!(creation_outcome(false, "", ""), Creation::Failed);
}

#[test]
fn domain_is_the_last_word_of_the_domain_line() {
    let described = "Service ID: abc\nName: gateway\nDomain: stream.example.com  \r\nDomain: second.example.com\n";
    assert_eq!(service_domain(described), "stream.example.com");
    assert_eq!(service_domain("Domain:"), "Domain:");
    assert_eq!(service_domain("Domains: none"), "N/A");
    assert_eq!(service_domain("Domain:a b"), "b");
    assert_eq!(service_domain(" Domain: indented.example.com"), "N/A");
    assert_eq!(service_domain(""), "N/A");
    assert_eq!(service_domain("Name: gateway\n"), "N/A");
}

#[test]
fn final_word_splits_at_any_white_space() {
    assert_eq!(final_word("a b\tc"), Some("c".to_string()));
    assert_eq!(final_word("a b\u{a0}c \n"), Some("c".to_string()));
    assert_eq!(final_word("single"), Some("single".to_string()));
    assert_eq!(final_word("  \n"), None);
    assert_eq!(final_word(""), None);
}

#[test]
fn service_id_comes_from_the_manifest() {
    let manifest = "name = \"gateway\"\nservice_id = \"SU1Z0isxPaozGVKXdv0eY\"\n[scripts]\nbuild = \"cargo build\"\n";
    assert_eq!(service_id(manifest), Ok("SU1Z0isxPaozGVKXdv0eY".to_string()));
    assert_eq!(service_id("name = \"gateway\"\n"), Err(LookupError::Missing));
    assert_eq!(service_id("service_id = 7\n"), Err(LookupError::NotText));
    assert_eq!(service_id("service_id = \n"), Err(LookupError::Unreadable));
    assert_eq!(service_id(""), Err(LookupError::Missing));
}

#[test]
fn store_id_comes_from_the_description() {
    assert_eq!(store_id(b"{\"id\":\"abc123\",\"name\":\"secrets\"}"), Ok("abc123".to_string()));
    assert_eq!(store_id(b"  {\"name\":\"x\",\"id\":\"z\"}\n"), Ok("z".to_string()));
    assert_eq!(store_id(b""), Err(LookupError::Empty));
    assert_eq!(store_id(b" \n\t"), Err(LookupError::Empty));
    assert_eq!(store_id(b"not json"), Err(LookupError::Unreadable));
    assert_eq!(store_id(b"{\"name\":\"secrets\"}"), Err(LookupError::Missing));
    assert_eq!(store_id(b"{\"id\":17}"), Err(LookupError::NotText));
    assert_eq!(store_id(b"{\"id\":\"a\",\"gone\":null}"), Err(LookupError::Unreadable));
    assert_eq!(store_id(b"[1,2]"), Err(LookupError::Missing));
}

#[test]
fn master_secret_comes_from_the_answer() {
    assert_eq!(api_secret("{\"secret\":\"00ff\"}"), Ok("00ff".to_string()));
    assert_eq!(api_secret("{\"secret\":\"00ff\",\"note\":null}"), Ok("00ff".to_string()));
    assert_eq!(api_secret("{\"secret\":5}"), Err(MemberError::NoText));
    assert_eq!(api_secret("{}"), Err(MemberError::NoText));
    assert_eq!(api_secret("\"00ff\""), Err(MemberError::NoText));
    assert_eq!(api_secret(""), Err(MemberError::NotJson));
    assert_eq!(api_secret("{secret}"), Err(MemberError::NotJson));
    assert_eq!(text_member(b"{\"a\":\"b\"}", "a"), Ok("b".to_string()));
}
