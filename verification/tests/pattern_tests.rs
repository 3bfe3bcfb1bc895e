use mixxc::pattern::{compile_pattern, compiled_matches, matches_pattern};
use mixxc::text::{chars_of, contains_str};

#[test]
fn contains_str_cases() {
    assert!(contains_str("hello world", "lo w"));
    assert!(contains_str("hello", "hello"));
    assert!(contains_str("hello", ""));
    assert!(contains_str("", ""));
    assert!(!contains_str("", "a"));
    assert!(!contains_str("hell", "hello"));
    assert!(!contains_str("hello", "Hello"));
    assert!(contains_str("abab", "bab"));
    assert!(contains_str("aaab", "aab"));
}

#[test]
fn contains_str_on_unicode() {
    assert!(contains_str("Kopfhörer (USB)", "hörer"));
    assert!(!contains_str("Kopfhörer", "hoerer"));
    assert!(contains_str("🎧 Headset", "🎧"));
}

#[test]
fn chars_of_splits_into_characters() {
    assert_eq!(chars_of("aö🎧"), vec!['a', 'ö', '🎧']);
    assert_eq!(chars_of(""), Vec::<char>::new());
}

#[test]
fn compile_pattern_accepts_and_refuses() {
    assert!(compile_pattern("^USB.*").is_some());
    assert!(compile_pattern("foo(bar").is_none());
    assert!(compile_pattern("").is_some());
}

#[test]
fn compiled_matches_uses_the_regex() {
    let usb = compile_pattern("^USB").unwrap();
    let compiled = Some(usb);
    assert!(compiled_matches(&compiled, "USB Audio"));
    assert!(!compiled_matches(&compiled, "My USB Audio"));
    assert!(!compiled_matches(&None, "USB Audio"));
}

#[test]
fn matches_pattern_in_both_modes() {
    assert!(matches_pattern("USB Audio Device", "^USB.*", true));
    assert!(!matches_pattern("Bluetooth Speaker", "^USB.*", true));
    // the same text as a substring pattern matches only literally
    assert!(!matches_pattern("USB Audio Device", "^USB.*", false));
    assert!(matches_pattern("a ^USB.* b", "^USB.*", false));
    // an invalid regex matches nothing, even its own text
    assert!(!matches_pattern("foo(bar", "foo(bar", true));
    assert!(matches_pattern("foo(bar", "foo(bar", false));
}
