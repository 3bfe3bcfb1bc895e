//! Matching one pattern against one text, either as a plain substring or as
//! a regular expression compiled by the `regex` crate.

use vstd::prelude::*;

use crate::regex_backend::{regex_is_match, regex_new};
pub use crate::regex_backend::{
    alternation_finds, ends_with_anchor, is_alternation_at, is_plain_literal, regex_compiles, regex_finds,
    starts_with_anchor, CompiledPattern,
};
use crate::text::{contains_str, ends_with, is_substring, starts_with};

verus! {

/// Compiles `pattern` as a regular expression; `None` when the `regex` crate
/// refuses it.
pub fn compile_pattern(pattern: &str) -> (res: Option<CompiledPattern>)
    ensures
        res is Some <==> regex_compiles(pattern@),
        res matches Some(c) ==> c@ == pattern@,
{
    match regex_new(pattern) {
        Ok(compiled) => Some(compiled),
        Err(_) => None,
    }
}

/// What a compilation outcome says of `text`: a pattern that did not compile
/// matches nothing; a compiled one matches where its regex finds a match.
pub fn compiled_matches(compiled: &Option<CompiledPattern>, text: &str) -> (res: bool)
    ensures
        res == (match compiled {
            Some(c) => regex_finds(c@, text@),
            None => false,
        }),
        compiled matches Some(c) ==> (is_plain_literal(c@) ==> res == is_substring(c@, text@)),
        compiled matches Some(c) ==> (starts_with_anchor(c@) ==> res == starts_with(
            text@,
            c@.drop_first(),
        )),
        compiled matches Some(c) ==> (ends_with_anchor(c@) ==> res == ends_with(
            text@,
            c@.drop_last(),
        )),
        compiled matches Some(c) ==> (forall|k: int|
            #[trigger] is_alternation_at(c@, k) ==> res == alternation_finds(c@, k, text@)),
{
    match compiled {
        Some(c) => regex_is_match(c, text),
        None => false,
    }
}

/// Whether `pattern` matches `text`: as a regular expression that must
/// compile and then match somewhere in `text`, or as a plain substring.
pub open spec fn pattern_matches(text: Seq<char>, pattern: Seq<char>, use_regex: bool) -> bool {
    if use_regex {
        regex_compiles(pattern) && regex_finds(pattern, text)
    } else {
        is_substring(pattern, text)
    }
}

/// Decides whether `pat` matches `name`; a pattern that is not a valid regex
/// matches nothing when `use_regex` is set.
///
/// In regex mode the regex is the one compiled from exactly `pat`, searched
/// anywhere in `name`: a compiled pattern without meta characters matches
/// where it occurs in `name`, `^lit` only at the start, `lit$` only at the
/// end, and `a|b` where either literal occurs.
pub fn matches_pattern(name: &str, pat: &str, use_regex: bool) -> (res: bool)
    ensures
        res == pattern_matches(name@, pat@, use_regex),
        use_regex && is_plain_literal(pat@) ==> res == (regex_compiles(pat@) && is_substring(
            pat@,
            name@,
        )),
        use_regex && starts_with_anchor(pat@) ==> res == (regex_compiles(pat@) && starts_with(
            name@,
            pat@.drop_first(),
        )),
        use_regex && ends_with_anchor(pat@) ==> res == (regex_compiles(pat@) && ends_with(
            name@,
            pat@.drop_last(),
        )),
        forall|k: int|
            use_regex && #[trigger] is_alternation_at(pat@, k) ==> res == (regex_compiles(pat@)
                && alternation_finds(pat@, k, name@)),
{
    if use_regex {
        let compiled = compile_pattern(pat);
        compiled_matches(&compiled, name)
    } else {
        contains_str(name, pat)
    }
}

} // verus!
