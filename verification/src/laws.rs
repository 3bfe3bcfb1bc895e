//! Properties of the filter that hold for every configuration and item.

use vstd::prelude::*;

use crate::filter::{field_matches, pattern_matches_fields, shown, some_pattern_matches, FilterSpec};
use crate::outputs::{after_message, output_passes, MessageOutput, OutputSpec, SwitchesSpec};
use crate::pattern::pattern_matches;
use crate::text::is_substring;

verus! {

/// With a non-empty whitelist an item is shown exactly when some whitelist
/// pattern matches one of its fields, whatever the blacklist holds.
pub proof fn law_whitelist_wins(
    cfg: FilterSpec,
    name: Seq<char>,
    application: Option<Seq<char>>,
    node_name: Option<Seq<char>>,
    node_description: Option<Seq<char>>,
)
    requires
        cfg.whitelist.len() > 0,
    ensures
        shown(cfg, name, application, node_name, node_description) == some_pattern_matches(
            cfg.whitelist,
            cfg.use_regex,
            name,
            application,
            node_name,
            node_description,
        ),
{
}

/// With an empty whitelist and a non-empty blacklist an item is hidden
/// exactly when some blacklist pattern matches one of its fields.
pub proof fn law_blacklist_hides(
    cfg: FilterSpec,
    name: Seq<char>,
    application: Option<Seq<char>>,
    node_name: Option<Seq<char>>,
    node_description: Option<Seq<char>>,
)
    requires
        cfg.whitelist.len() == 0,
        cfg.blacklist.len() > 0,
    ensures
        !shown(cfg, name, application, node_name, node_description) == some_pattern_matches(
            cfg.blacklist,
            cfg.use_regex,
            name,
            application,
            node_name,
            node_description,
        ),
{
}

/// With both lists empty every item is shown.
pub proof fn law_empty_lists_show_all(
    cfg: FilterSpec,
    name: Seq<char>,
    application: Option<Seq<char>>,
    node_name: Option<Seq<char>>,
    node_description: Option<Seq<char>>,
)
    requires
        cfg.whitelist.len() == 0,
        cfg.blacklist.len() == 0,
    ensures
        shown(cfg, name, application, node_name, node_description),
{
}

/// `more` has every field that `fewer` has, with the same text.
pub open spec fn extends_fields(fewer: Option<Seq<char>>, more: Option<Seq<char>>) -> bool {
    fewer is Some ==> more == fewer
}

/// Giving an item more fields can only make a whitelist show it and can
/// only make a blacklist hide it.
pub proof fn law_more_fields_monotone(
    cfg: FilterSpec,
    name: Seq<char>,
    app1: Option<Seq<char>>,
    node1: Option<Seq<char>>,
    desc1: Option<Seq<char>>,
    app2: Option<Seq<char>>,
    node2: Option<Seq<char>>,
    desc2: Option<Seq<char>>,
)
    requires
        extends_fields(app1, app2),
        extends_fields(node1, node2),
        extends_fields(desc1, desc2),
    ensures
        cfg.whitelist.len() > 0 ==> (shown(cfg, name, app1, node1, desc1) ==> shown(
            cfg,
            name,
            app2,
            node2,
            desc2,
        )),
        cfg.whitelist.len() == 0 ==> (shown(cfg, name, app2, node2, desc2) ==> shown(
            cfg,
            name,
            app1,
            node1,
            desc1,
        )),
{
    lemma_more_fields_match(cfg.whitelist, cfg.use_regex, name, app1, node1, desc1, app2, node2, desc2);
    lemma_more_fields_match(cfg.blacklist, cfg.use_regex, name, app1, node1, desc1, app2, node2, desc2);
}

proof fn lemma_more_fields_match(
    patterns: Seq<Seq<char>>,
    use_regex: bool,
    name: Seq<char>,
    app1: Option<Seq<char>>,
    node1: Option<Seq<char>>,
    desc1: Option<Seq<char>>,
    app2: Option<Seq<char>>,
    node2: Option<Seq<char>>,
    desc2: Option<Seq<char>>,
)
    requires
        extends_fields(app1, app2),
        extends_fields(node1, node2),
        extends_fields(desc1, desc2),
    ensures
        some_pattern_matches(patterns, use_regex, name, app1, node1, desc1) ==> some_pattern_matches(
            patterns,
            use_regex,
            name,
            app2,
            node2,
            desc2,
        ),
{
    if some_pattern_matches(patterns, use_regex, name, app1, node1, desc1) {
        let i = choose|i: int|
            0 <= i < patterns.len() && #[trigger] pattern_matches_fields(
                patterns[i],
                use_regex,
                name,
                app1,
                node1,
                desc1,
            );
        assert(pattern_matches_fields(patterns[i], use_regex, name, app2, node2, desc2));
    }
}

/// Only which patterns are listed matters: reordering or repeating the
/// entries of either list does not change what is shown.
pub proof fn law_pattern_order_irrelevant(
    cfg1: FilterSpec,
    cfg2: FilterSpec,
    name: Seq<char>,
    application: Option<Seq<char>>,
    node_name: Option<Seq<char>>,
    node_description: Option<Seq<char>>,
)
    requires
        cfg1.use_regex == cfg2.use_regex,
        cfg1.whitelist.to_set() == cfg2.whitelist.to_set(),
        cfg1.blacklist.to_set() == cfg2.blacklist.to_set(),
    ensures
        shown(cfg1, name, application, node_name, node_description) == shown(
            cfg2,
            name,
            application,
            node_name,
            node_description,
        ),
{
    lemma_same_patterns(cfg1.whitelist, cfg2.whitelist, cfg1.use_regex, name, application, node_name, node_description);
    lemma_same_patterns(cfg2.whitelist, cfg1.whitelist, cfg1.use_regex, name, application, node_name, node_description);
    lemma_same_patterns(cfg1.blacklist, cfg2.blacklist, cfg1.use_regex, name, application, node_name, node_description);
    lemma_same_patterns(cfg2.blacklist, cfg1.blacklist, cfg1.use_regex, name, application, node_name, node_description);
}

proof fn lemma_same_patterns(
    p1: Seq<Seq<char>>,
    p2: Seq<Seq<char>>,
    use_regex: bool,
    name: Seq<char>,
    application: Option<Seq<char>>,
    node_name: Option<Seq<char>>,
    node_description: Option<Seq<char>>,
)
    requires
        p1.to_set() == p2.to_set(),
    ensures
        p1.len() > 0 ==> p2.len() > 0,
        some_pattern_matches(p1, use_regex, name, application, node_name, node_description)
            ==> some_pattern_matches(p2, use_regex, name, application, node_name, node_description),
{
    if p1.len() > 0 {
        assert(p1.to_set().contains(p1[0]));
        assert(p2.contains(p1[0]));
    }
    if some_pattern_matches(p1, use_regex, name, application, node_name, node_description) {
        let i = choose|i: int|
            0 <= i < p1.len() && #[trigger] pattern_matches_fields(
                p1[i],
                use_regex,
                name,
                application,
                node_name,
                node_description,
            );
        assert(p1.to_set().contains(p1[i]));
        assert(p2.contains(p1[i]));
        let j = choose|j: int| 0 <= j < p2.len() && p2[j] == p1[i];
        assert(pattern_matches_fields(p2[j], use_regex, name, application, node_name, node_description));
    }
}

/// Every text contains itself.
proof fn lemma_substring_of_itself(t: Seq<char>)
    ensures
        is_substring(t, t),
{
    assert(t.subrange(0int, 0int + t.len()) =~= t);
}

/// With substring matching, listing a name on the whitelist shows the item
/// of that name, and listing it on the blacklist (with no whitelist) hides it.
pub proof fn law_listed_name(
    cfg: FilterSpec,
    name: Seq<char>,
    application: Option<Seq<char>>,
    node_name: Option<Seq<char>>,
    node_description: Option<Seq<char>>,
)
    requires
        !cfg.use_regex,
    ensures
        cfg.whitelist.contains(name) ==> shown(cfg, name, application, node_name, node_description),
        cfg.whitelist.len() == 0 && cfg.blacklist.contains(name) ==> !shown(
            cfg,
            name,
            application,
            node_name,
            node_description,
        ),
{
    lemma_substring_of_itself(name);
    assert(pattern_matches(name, name, false));
    if cfg.whitelist.contains(name) {
        let i = choose|i: int| 0 <= i < cfg.whitelist.len() && cfg.whitelist[i] == name;
        assert(pattern_matches_fields(cfg.whitelist[i], false, name, application, node_name, node_description));
    }
    if cfg.blacklist.contains(name) {
        let i = choose|i: int| 0 <= i < cfg.blacklist.len() && cfg.blacklist[i] == name;
        assert(pattern_matches_fields(cfg.blacklist[i], false, name, application, node_name, node_description));
    }
}

/// Every output held, and the active one if any, passes the filter.
pub open spec fn all_pass(filter: FilterSpec, switches: SwitchesSpec) -> bool {
    &&& forall|i: int|
        0 <= i < switches.outputs.len() ==> #[trigger] output_passes(filter, switches.outputs[i])
    &&& switches.active matches Some(o) ==> output_passes(filter, o)
}

/// Handling output messages keeps every held output one that passes the filter.
pub proof fn law_outputs_stay_filtered(filter: FilterSpec, switches: SwitchesSpec, msg: MessageOutput)
    requires
        all_pass(filter, switches),
    ensures
        all_pass(filter, after_message(filter, switches, msg)),
{
    let next = after_message(filter, switches, msg);
    match msg {
        MessageOutput::New(o) => {
            if output_passes(filter, o@) {
                assert forall|i: int| 0 <= i < next.outputs.len() implies #[trigger] output_passes(
                    filter,
                    next.outputs[i],
                ) by {
                    if i < switches.outputs.len() {
                        assert(next.outputs[i] == switches.outputs[i]);
                    }
                }
            }
        },
        MessageOutput::Master(o) => {},
    }
}

} // verus!
