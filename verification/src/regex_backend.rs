//! The `regex` crate behind trusted items. This module holds no verified
//! code: a [`CompiledPattern`] is only ever built by [`regex_new`], so the
//! regex inside it is always the one compiled from the pattern it records.

use vstd::prelude::*;

use crate::text::{ends_with, is_substring, starts_with};

verus! {

#[verifier::external_type_specification]
#[verifier::external_body]
pub struct ExRegex(regex::Regex);

#[verifier::external_type_specification]
#[verifier::external_body]
pub struct ExRegexError(regex::Error);

/// Whether `regex::Regex::new` accepts `pattern`: it is valid regex syntax and
/// the compiled program stays within the crate's default size limit.
pub uninterp spec fn regex_compiles(pattern: Seq<char>) -> bool;

/// Whether the regex that `regex::Regex::new` builds from `pattern` finds a
/// match anywhere in `haystack` (`Regex::is_match`).
pub uninterp spec fn regex_finds(pattern: Seq<char>, haystack: Seq<char>) -> bool;

/// A character with a meaning in regex syntax outside a bracketed class
/// under the default flags. (`#`, `&`, `-` and `~`, which
/// `regex_syntax::is_meta_character` also lists, only have one inside a
/// class or in `(?x)` mode, and both need a character of this set.)
pub open spec fn is_regex_meta(c: char) -> bool {
    c == '\\' || c == '.' || c == '+' || c == '*' || c == '?' || c == '(' || c == ')' || c == '|'
        || c == '[' || c == ']' || c == '{' || c == '}' || c == '^' || c == '$'
}

/// A pattern with no regex meta character: as a regex it stands for itself.
pub open spec fn is_plain_literal(p: Seq<char>) -> bool {
    forall|i: int| 0 <= i < p.len() ==> !is_regex_meta(#[trigger] p[i])
}

/// `^` followed by a plain literal.
pub open spec fn starts_with_anchor(p: Seq<char>) -> bool {
    p.len() >= 1 && p[0] == '^' && is_plain_literal(p.drop_first())
}

/// A plain literal followed by `$`.
pub open spec fn ends_with_anchor(p: Seq<char>) -> bool {
    p.len() >= 1 && p.last() == '$' && is_plain_literal(p.drop_last())
}

/// Two plain literals joined by `|` at position `k`.
pub open spec fn is_alternation_at(p: Seq<char>, k: int) -> bool {
    0 <= k < p.len() && p[k] == '|' && is_plain_literal(p.subrange(0, k)) && is_plain_literal(
        p.subrange(k + 1, p.len() as int),
    )
}

/// One of the two literals of the alternation at `k` occurs in `haystack`.
pub open spec fn alternation_finds(p: Seq<char>, k: int, haystack: Seq<char>) -> bool {
    is_substring(p.subrange(0, k), haystack) || is_substring(p.subrange(k + 1, p.len() as int), haystack)
}

/// A regular expression together with the pattern it was compiled from.
/// Both fields are filled by [`regex_new`] from one call of
/// `regex::Regex::new`; no other code can build the struct.
pub struct CompiledPattern {
    regex: regex::Regex,
    source: Ghost<Seq<char>>,
}

impl View for CompiledPattern {
    type V = Seq<char>;

    /// The pattern text the regex was compiled from.
    closed spec fn view(&self) -> Seq<char> {
        self.source@
    }
}

/// Calls `regex::Regex::new` and keeps the pattern beside the compiled regex.
/// Claimed: the result is `Ok` exactly when the crate accepts the pattern,
/// which depends on the pattern alone (the default builder settings are
/// fixed), and an `Ok` value holds the regex compiled from `pattern`.
#[verifier::external_body]
pub(crate) fn regex_new(pattern: &str) -> (res: Result<CompiledPattern, regex::Error>)
    ensures
        res is Ok <==> regex_compiles(pattern@),
        res matches Ok(c) ==> c@ == pattern@,
{
    match regex::Regex::new(pattern) {
        Ok(regex) => Ok(CompiledPattern { regex, source: Ghost(pattern@) }),
        Err(e) => Err(e),
    }
}

/// Calls `regex::Regex::is_match` on the compiled regex. Claimed: the answer
/// is whether the regex that `regex::Regex::new` built from `compiled@`
/// matches somewhere in `haystack`; it depends on that pattern and the
/// haystack alone. Besides, from the crate's syntax documentation (default
/// flags: case-sensitive, `^` and `$` anchor at the ends of the whole
/// haystack, whitespace is literal), for patterns made of characters other
/// than `\ . + * ? ( ) | [ ] { } ^ $`: such a literal matches where it occurs as a
/// substring; `^lit` matches texts that begin with `lit`; `lit$` matches
/// texts that end with `lit`; `a|b` matches where `a` or `b` occurs.
/// Of other patterns nothing is claimed beyond the name.
#[verifier::external_body]
pub(crate) fn regex_is_match(compiled: &CompiledPattern, haystack: &str) -> (res: bool)
    ensures
        res == regex_finds(compiled@, haystack@),
        is_plain_literal(compiled@) ==> res == is_substring(compiled@, haystack@),
        starts_with_anchor(compiled@) ==> res == starts_with(haystack@, compiled@.drop_first()),
        ends_with_anchor(compiled@) ==> res == ends_with(haystack@, compiled@.drop_last()),
        forall|k: int|
            #[trigger] is_alternation_at(compiled@, k) ==> res == alternation_finds(compiled@, k, haystack@),
{
    compiled.regex.is_match(haystack)
}

} // verus!
