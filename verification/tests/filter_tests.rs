use mixxc::filter::{
    any_pattern_matches, decide_visibility, pattern_matches_any_field, should_show,
    should_show_with_fields, FilterConfig,
};

fn config(whitelist: &[&str], blacklist: &[&str], use_regex: bool) -> FilterConfig {
    FilterConfig {
        whitelist: whitelist.iter().map(|s| s.to_string()).collect(),
        blacklist: blacklist.iter().map(|s| s.to_string()).collect(),
        use_regex,
    }
}

#[test]
fn whitelist_wins() {
    let cfg = FilterConfig {
        whitelist: vec!["Headphones".into()],
        blacklist: vec!["Bluetooth".into()],
        use_regex: false,
    };
    // original name match
    assert!(should_show_with_fields("Headphones", None, None, None, &cfg));
    // does not match whitelist -> hidden even though blacklist contains "Bluetooth"
    assert!(!should_show_with_fields("Bluetooth Speaker", None, None, None, &cfg));
}

#[test]
fn blacklist_hides() {
    let cfg = FilterConfig {
        whitelist: vec![],
        blacklist: vec!["Internal Mic".into()],
        use_regex: false,
    };
    assert!(!should_show_with_fields("Internal Mic 1", None, None, None, &cfg));
    assert!(should_show_with_fields("External Mic", None, None, None, &cfg));
}

#[test]
fn regex_matching() {
    let cfg = FilterConfig {
        whitelist: vec!["^USB.*".into()],
        blacklist: vec![],
        use_regex: true,
    };
    assert!(should_show_with_fields("USB Audio Device", None, None, None, &cfg));
    assert!(!should_show_with_fields("Bluetooth Speaker", None, None, None, &cfg));
}

#[test]
fn matches_application_node_description() {
    let cfg = FilterConfig {
        whitelist: vec![],
        blacklist: vec!["MyApp".into(), "node-xyz".into(), "unwanted-desc".into()],
        use_regex: false,
    };
    // If any field matches the blacklist, the item should be hidden
    assert!(!should_show_with_fields(
        "Some Device",
        Some("MyApp Client"),
        None,
        None,
        &cfg
    ));
    assert!(!should_show_with_fields(
        "Some Device",
        None,
        Some("node-xyz-123"),
        None,
        &cfg
    ));
    assert!(!should_show_with_fields(
        "Some Device",
        None,
        None,
        Some("this has unwanted-desc inside"),
        &cfg
    ));

    // An unrelated item is shown
    assert!(should_show_with_fields(
        "Some Device",
        Some("OtherApp"),
        Some("node-abc"),
        Some("fine description"),
        &cfg
    ));
}

#[test]
fn whitelist_can_match_other_fields() {
    let cfg = FilterConfig {
        whitelist: vec!["^MyApp.*".into()],
        blacklist: vec![],
        use_regex: true,
    };
    // whitelist regex matches application name
    assert!(should_show_with_fields(
        "Some Device",
        Some("MyAppService"),
        None,
        None,
        &cfg
    ));
    // not matching -> hidden
    assert!(!should_show_with_fields("Some Device", Some("OtherApp"), None, None, &cfg));
}

#[test]
fn default_config_shows_everything() {
    let cfg = FilterConfig::default();
    assert!(cfg.whitelist.is_empty() && cfg.blacklist.is_empty() && !cfg.use_regex);
    assert!(should_show("anything", &cfg));
    assert!(should_show_with_fields("", Some("a"), Some("b"), Some("c"), &cfg));
}

#[test]
fn should_show_uses_the_name_only() {
    let cfg = config(&[], &["Speaker"], false);
    assert!(!should_show("Bluetooth Speaker", &cfg));
    assert!(should_show("Headphones", &cfg));
    assert_eq!(
        should_show("Bluetooth Speaker", &cfg),
        should_show_with_fields("Bluetooth Speaker", None, None, None, &cfg)
    );
}

#[test]
fn whitelist_ignores_blacklist_when_both_match() {
    let cfg = config(&["Head"], &["Headphones"], false);
    assert!(should_show("Headphones", &cfg));
    let without_blacklist = config(&["Head"], &[], false);
    assert_eq!(should_show("Headphones", &cfg), should_show("Headphones", &without_blacklist));
    assert_eq!(should_show("Speaker", &cfg), should_show("Speaker", &without_blacklist));
}

#[test]
fn pattern_order_and_repetition_do_not_matter() {
    let a = config(&["USB", "Head"], &[], false);
    let b = config(&["Head", "USB", "Head"], &[], false);
    for name in ["USB DAC", "Headset", "Speaker", ""] {
        assert_eq!(should_show(name, &a), should_show(name, &b));
    }
}

#[test]
fn listed_name_is_shown_or_hidden() {
    let white = config(&["Exact Name"], &[], false);
    assert!(should_show("Exact Name", &white));
    let black = config(&[], &["Exact Name"], false);
    assert!(!should_show("Exact Name", &black));
}

#[test]
fn more_fields_only_show_more_under_whitelist() {
    let cfg = config(&["Player"], &[], false);
    assert!(!should_show_with_fields("Dev", None, None, None, &cfg));
    assert!(should_show_with_fields("Dev", Some("Music Player"), None, None, &cfg));
}

#[test]
fn more_fields_only_hide_more_under_blacklist() {
    let cfg = config(&[], &["Player"], false);
    assert!(should_show_with_fields("Dev", None, None, None, &cfg));
    assert!(!should_show_with_fields("Dev", None, None, Some("Music Player"), &cfg));
}

#[test]
fn empty_substring_pattern_matches_everything() {
    let cfg = config(&[], &[""], false);
    assert!(!should_show("anything", &cfg));
    assert!(!should_show("", &cfg));
    let white = config(&[""], &[], false);
    assert!(should_show("", &white));
}

#[test]
fn substring_match_is_case_sensitive() {
    let cfg = config(&["usb"], &[], false);
    assert!(!should_show("USB Audio", &cfg));
    assert!(should_show("my usb dac", &cfg));
}

#[test]
fn invalid_regex_matches_nothing() {
    let white = config(&["(unclosed"], &[], true);
    assert!(!should_show("(unclosed", &white));
    let black = config(&[], &["[bad"], true);
    assert!(should_show("[bad", &black));
}

#[test]
fn regex_blacklist_hides_matches() {
    let cfg = config(&[], &["Mic\\s+\\d$"], true);
    assert!(!should_show("Internal Mic 2", &cfg));
    assert!(should_show("Internal Mic", &cfg));
}

#[test]
fn pattern_matches_any_field_checks_each_field() {
    assert!(pattern_matches_any_field("x", false, "x", None, None, None));
    assert!(pattern_matches_any_field("x", false, "a", Some("x"), None, None));
    assert!(pattern_matches_any_field("x", false, "a", None, Some("x"), None));
    assert!(pattern_matches_any_field("x", false, "a", None, None, Some("x")));
    assert!(!pattern_matches_any_field("x", false, "a", Some("b"), Some("c"), Some("d")));
    assert!(!pattern_matches_any_field("x", false, "a", None, None, None));
}

#[test]
fn any_pattern_matches_over_lists() {
    let pats: Vec<String> = vec!["zz".into(), "b".into()];
    assert!(any_pattern_matches(&pats, false, "abc", None, None, None));
    let none: Vec<String> = vec![];
    assert!(!any_pattern_matches(&none, false, "abc", None, None, None));
    let miss: Vec<String> = vec!["q".into()];
    assert!(!any_pattern_matches(&miss, false, "abc", None, None, None));
}

#[test]
fn decide_visibility_table() {
    let white = config(&["w"], &["b"], false);
    let black = config(&[], &["b"], false);
    let empty = config(&[], &[], false);
    assert!(decide_visibility(&white, true, true));
    assert!(decide_visibility(&white, true, false));
    assert!(!decide_visibility(&white, false, true));
    assert!(!decide_visibility(&white, false, false));
    assert!(!decide_visibility(&black, false, true));
    assert!(decide_visibility(&black, false, false));
    assert!(decide_visibility(&empty, false, true));
    assert!(decide_visibility(&empty, true, false));
}
