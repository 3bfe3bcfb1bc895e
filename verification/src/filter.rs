//! Whitelist / blacklist filtering of channel and device names.

use vstd::prelude::*;

use crate::pattern::{matches_pattern, pattern_matches};

verus! {

/// Which channels and devices are shown.
#[derive(Debug, Clone)]
pub struct FilterConfig {
    /// If non-empty, only these names (or patterns) are shown.
    pub whitelist: Vec<String>,
    /// If non-empty and whitelist is empty, these names (or patterns) are hidden.
    pub blacklist: Vec<String>,
    /// If true, treat entries as regex patterns. Otherwise do substring match.
    pub use_regex: bool,
}

/// The mathematical content of a [`FilterConfig`].
pub struct FilterSpec {
    pub whitelist: Seq<Seq<char>>,
    pub blacklist: Seq<Seq<char>>,
    pub use_regex: bool,
}

/// The texts of a list of patterns.
pub open spec fn texts(patterns: Seq<String>) -> Seq<Seq<char>> {
    patterns.map_values(|p: String| p@)
}

impl View for FilterConfig {
    type V = FilterSpec;

    open spec fn view(&self) -> FilterSpec {
        FilterSpec {
            whitelist: texts(self.whitelist@),
            blacklist: texts(self.blacklist@),
            use_regex: self.use_regex,
        }
    }
}

impl Default for FilterConfig {
    /// Both lists empty and substring matching: everything is shown.
    fn default() -> (cfg: Self)
        ensures
            cfg@.whitelist.len() == 0,
            cfg@.blacklist.len() == 0,
            !cfg@.use_regex,
    {
        FilterConfig { whitelist: Vec::new(), blacklist: Vec::new(), use_regex: false }
    }
}

/// The text of an optional field.
pub open spec fn opt_text(field: Option<&str>) -> Option<Seq<char>> {
    match field {
        Some(s) => Some(s@),
        None => None,
    }
}

/// An optional field matches when it is present and the pattern matches it.
pub open spec fn field_matches(field: Option<Seq<char>>, pattern: Seq<char>, use_regex: bool) -> bool {
    match field {
        Some(t) => pattern_matches(t, pattern, use_regex),
        None => false,
    }
}

/// `pattern` matches the name or one of the optional fields of an item.
pub open spec fn pattern_matches_fields(
    pattern: Seq<char>,
    use_regex: bool,
    name: Seq<char>,
    application: Option<Seq<char>>,
    node_name: Option<Seq<char>>,
    node_description: Option<Seq<char>>,
) -> bool {
    ||| pattern_matches(name, pattern, use_regex)
    ||| field_matches(application, pattern, use_regex)
    ||| field_matches(node_name, pattern, use_regex)
    ||| field_matches(node_description, pattern, use_regex)
}

/// Some pattern of `patterns` matches some field of the item.
pub open spec fn some_pattern_matches(
    patterns: Seq<Seq<char>>,
    use_regex: bool,
    name: Seq<char>,
    application: Option<Seq<char>>,
    node_name: Option<Seq<char>>,
    node_description: Option<Seq<char>>,
) -> bool {
    exists|i: int|
        0 <= i < patterns.len() && #[trigger] pattern_matches_fields(
            patterns[i],
            use_regex,
            name,
            application,
            node_name,
            node_description,
        )
}

/// The rule: a non-empty whitelist decides alone (shown iff it matched);
/// otherwise a non-empty blacklist hides what it matched; otherwise all is shown.
pub open spec fn visibility(
    whitelist_len: nat,
    blacklist_len: nat,
    whitelist_hit: bool,
    blacklist_hit: bool,
) -> bool {
    if whitelist_len > 0 {
        whitelist_hit
    } else if blacklist_len > 0 {
        !blacklist_hit
    } else {
        true
    }
}

/// Whether an item with these fields is shown under `cfg`.
pub open spec fn shown(
    cfg: FilterSpec,
    name: Seq<char>,
    application: Option<Seq<char>>,
    node_name: Option<Seq<char>>,
    node_description: Option<Seq<char>>,
) -> bool {
    visibility(
        cfg.whitelist.len(),
        cfg.blacklist.len(),
        some_pattern_matches(cfg.whitelist, cfg.use_regex, name, application, node_name, node_description),
        some_pattern_matches(cfg.blacklist, cfg.use_regex, name, application, node_name, node_description),
    )
}

/// Check whether a single pattern matches any of the provided fields.
pub fn pattern_matches_any_field(
    pat: &str,
    use_regex: bool,
    name: &str,
    application: Option<&str>,
    node_name: Option<&str>,
    node_description: Option<&str>,
) -> (res: bool)
    ensures
        res == pattern_matches_fields(
            pat@,
            use_regex,
            name@,
            opt_text(application),
            opt_text(node_name),
            opt_text(node_description),
        ),
{
    if matches_pattern(name, pat, use_regex) {
        return true;
    }
    if let Some(app) = application {
        if matches_pattern(app, pat, use_regex) {
            return true;
        }
    }
    if let Some(n) = node_name {
        if matches_pattern(n, pat, use_regex) {
            return true;
        }
    }
    if let Some(desc) = node_description {
        if matches_pattern(desc, pat, use_regex) {
            return true;
        }
    }
    false
}

/// Whether some pattern of `patterns` matches some field of the item; stops
/// at the first pattern that does.
pub fn any_pattern_matches(
    patterns: &Vec<String>,
    use_regex: bool,
    name: &str,
    application: Option<&str>,
    node_name: Option<&str>,
    node_description: Option<&str>,
) -> (res: bool)
    ensures
        res == some_pattern_matches(
            texts(patterns@),
            use_regex,
            name@,
            opt_text(application),
            opt_text(node_name),
            opt_text(node_description),
        ),
{
    let ghost pats = texts(patterns@);
    let ghost app = opt_text(application);
    let ghost node = opt_text(node_name);
    let ghost desc = opt_text(node_description);
    let n = patterns.len();
    let mut i: usize = 0;
    while i < n
        invariant
            n == patterns@.len(),
            pats == texts(patterns@),
            app == opt_text(application),
            node == opt_text(node_name),
            desc == opt_text(node_description),
            i <= n,
            forall|k: int|
                0 <= k < i ==> !#[trigger] pattern_matches_fields(
                    pats[k],
                    use_regex,
                    name@,
                    app,
                    node,
                    desc,
                ),
        decreases n - i,
    {
        let pat = patterns[i].as_str();
        if pattern_matches_any_field(pat, use_regex, name, application, node_name, node_description) {
            assert(pats[i as int] == pat@);
            return true;
        }
        i = i + 1;
    }
    false
}

/// The final decision given whether a whitelist pattern and a blacklist
/// pattern matched the item.
pub fn decide_visibility(cfg: &FilterConfig, whitelist_hit: bool, blacklist_hit: bool) -> (res: bool)
    ensures
        res == visibility(cfg@.whitelist.len(), cfg@.blacklist.len(), whitelist_hit, blacklist_hit),
{
    if cfg.whitelist.len() > 0 {
        whitelist_hit
    } else if cfg.blacklist.len() > 0 {
        !blacklist_hit
    } else {
        true
    }
}

/// Decide whether to show a channel/item based on the config using multiple text fields.
///
/// - If whitelist non-empty: show only items matching whitelist (whitelist wins).
/// - Else if blacklist non-empty: hide items matching blacklist.
/// - Else: show all.
///
/// A pattern matches an item when it matches the name or any field that is present.
pub fn should_show_with_fields(
    name: &str,
    application: Option<&str>,
    node_name: Option<&str>,
    node_description: Option<&str>,
    cfg: &FilterConfig,
) -> (res: bool)
    ensures
        res == shown(cfg@, name@, opt_text(application), opt_text(node_name), opt_text(node_description)),
{
    let whitelist_hit = if cfg.whitelist.len() > 0 {
        any_pattern_matches(&cfg.whitelist, cfg.use_regex, name, application, node_name, node_description)
    } else {
        false
    };
    let blacklist_hit = if cfg.whitelist.len() == 0 && cfg.blacklist.len() > 0 {
        any_pattern_matches(&cfg.blacklist, cfg.use_regex, name, application, node_name, node_description)
    } else {
        false
    };
    decide_visibility(cfg, whitelist_hit, blacklist_hit)
}

/// Decide from the name alone: [`should_show_with_fields`] with no other field.
pub fn should_show(name: &str, cfg: &FilterConfig) -> (res: bool)
    ensures
        res == shown(cfg@, name@, None, None, None),
{
    should_show_with_fields(name, None, None, None, cfg)
}

} // verus!
