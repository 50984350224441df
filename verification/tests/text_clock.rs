use pinaivu_indexer::clock::{millis_or_zero, now_ms};
use pinaivu_indexer::json::Json;
use pinaivu_indexer::text::{eq_ignore_ascii_case, str_eq, trim_trailing_slashes};

#[test]
fn trimming_removes_only_trailing_slashes() {
    assert_eq!(trim_trailing_slashes("a/b//"), "a/b");
    assert_eq!(trim_trailing_slashes("///"), "");
    assert_eq!(trim_trailing_slashes("/a"), "/a");
    assert_eq!(trim_trailing_slashes(""), "");
    assert_eq!(trim_trailing_slashes("é/"), "é");
}

#[test]
fn string_comparisons() {
    assert!(str_eq("abc", "abc"));
    assert!(!str_eq("abc", "abd"));
    assert!(!str_eq("ab", "abc"));
    assert!(eq_ignore_ascii_case("TrUe", "true"));
    assert!(!eq_ignore_ascii_case("truE!", "true"));
    assert!(!eq_ignore_ascii_case("É", "é"));
}

#[test]
fn clock_reads_after_2020_and_narrows_like_as() {
    assert!(now_ms() > 1_577_836_800_000);
    assert_eq!(millis_or_zero(None), 0);
    assert_eq!(millis_or_zero(Some(42)), 42);
    assert_eq!(millis_or_zero(Some((1u128 << 64) + 5)), 5);
}

#[test]
fn json_lookup_takes_the_first_member() {
    let o = Json::Object(vec![
        ("k".to_string(), Json::Bool(true)),
        ("k".to_string(), Json::Bool(false)),
    ]);
    assert_eq!(o.get("k"), Some(&Json::Bool(true)));
    assert_eq!(o.get("x"), None);
    assert_eq!(Json::Null.get("k"), None);
    assert_eq!(Json::Str("v".to_string()).as_str(), Some(&"v".to_string()));
    assert_eq!(Json::Bool(true).as_str(), None);
}
