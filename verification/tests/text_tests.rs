use openmcp::app::split_shellish;
use openmcp::text::{decimal_text, is_blank, sort_distinct, split_words, starts_with, text_less, trim_text};

#[test]
fn decimal_texts() {
    assert_eq!(decimal_text(0), "0");
    assert_eq!(decimal_text(7), "7");
    assert_eq!(decimal_text(10), "10");
    assert_eq!(decimal_text(1234567890), "1234567890");
    assert_eq!(decimal_text(usize::MAX), usize::MAX.to_string());
}

#[test]
fn trimming_follows_unicode_whitespace() {
    assert_eq!(trim_text("  a b \t\n"), "a b");
    assert_eq!(trim_text("\u{3000}x\u{a0}"), "x");
    assert_eq!(trim_text("   "), "");
    assert_eq!(trim_text(""), "");
    assert!(is_blank(" \t\u{2003}"));
    assert!(is_blank(""));
    assert!(!is_blank(" a "));
}

#[test]
fn prefixes() {
    assert!(starts_with("https://x", "https://"));
    assert!(!starts_with("http:/", "http://"));
    assert!(starts_with("abc", ""));
}

#[test]
fn split_shellish_drops_all_whitespace() {
    assert_eq!(split_shellish("  -y  @pkg/server\t.\n"), vec!["-y", "@pkg/server", "."]);
    assert!(split_shellish("   ").is_empty());
    assert_eq!(split_words("a\u{2028}b"), vec!["a", "b"]);
}

#[test]
fn split_then_join_round_trip() {
    let args = vec!["-y".to_owned(), "pkg".to_owned(), ".".to_owned()];
    assert_eq!(split_shellish(&args.join(" ")), args);
}

#[test]
fn ordering_matches_string_ordering() {
    assert!(text_less("a", "b"));
    assert!(text_less("ab", "abc"));
    assert!(!text_less("b", "ab"));
    assert!(!text_less("same", "same"));
    assert!(text_less("Z", "a"));
    let v = vec!["zeta".to_owned(), "Alpha".to_owned(), "beta".to_owned(), "é".to_owned()];
    let mut expected = v.clone();
    expected.sort();
    assert_eq!(sort_distinct(v), expected);
}
