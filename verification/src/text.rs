//! Plain-text matching on Unicode strings.

use vstd::prelude::*;

verus! {

/// `needle` occurs in `haystack` as a contiguous run of characters.
/// The empty needle occurs in every haystack.
pub open spec fn is_substring(needle: Seq<char>, haystack: Seq<char>) -> bool {
    exists|i: int|
        0 <= i && i + needle.len() <= haystack.len()
            && #[trigger] haystack.subrange(i, i + needle.len()) == needle
}

/// `haystack` begins with `prefix`.
pub open spec fn starts_with(haystack: Seq<char>, prefix: Seq<char>) -> bool {
    prefix.len() <= haystack.len() && haystack.subrange(0, prefix.len() as int) == prefix
}

/// `haystack` ends with `suffix`.
pub open spec fn ends_with(haystack: Seq<char>, suffix: Seq<char>) -> bool {
    suffix.len() <= haystack.len() && haystack.subrange(
        haystack.len() - suffix.len(),
        haystack.len() as int,
    ) == suffix
}

/// The characters of `s`, in order.
pub fn chars_of(s: &str) -> (res: Vec<char>)
    ensures
        res@ == s@,
{
    let mut res: Vec<char> = Vec::new();
    for c in it: s.chars()
        invariant
            res@ == it.seq().take(it.index() as int),
    {
        res.push(c);
    }
    res
}

/// Whether `needle` occurs in `haystack` starting at position `start`.
fn occurs_at(haystack: &Vec<char>, needle: &Vec<char>, start: usize) -> (res: bool)
    requires
        start + needle@.len() <= haystack@.len(),
    ensures
        res == (haystack@.subrange(start as int, start + needle@.len()) == needle@),
{
    let n = needle.len();
    let mut j: usize = 0;
    while j < n
        invariant
            n == needle@.len(),
            j <= n,
            start + n <= haystack.len(),
            forall|k: int| 0 <= k < j ==> haystack@[start + k] == needle@[k],
        decreases n - j,
    {
        if haystack[start + j] != needle[j] {
            assert(haystack@.subrange(start as int, start + n)[j as int] != needle@[j as int]);
            return false;
        }
        j = j + 1;
    }
    assert(haystack@.subrange(start as int, start + n) =~= needle@);
    true
}

/// Whether `needle` occurs in `haystack` (the behaviour of `str::contains`
/// with a string pattern: the empty needle occurs everywhere).
pub fn contains_str(haystack: &str, needle: &str) -> (res: bool)
    ensures
        res == is_substring(needle@, haystack@),
{
    let hay = chars_of(haystack);
    let pat = chars_of(needle);
    let n = pat.len();
    if n > hay.len() {
        return false;
    }
    let last = hay.len() - n;
    let mut i: usize = 0;
    loop
        invariant
            i <= last,
            n == pat@.len(),
            last + n == hay@.len(),
            hay@ == haystack@,
            pat@ == needle@,
            forall|k: int| 0 <= k < i ==> #[trigger] hay@.subrange(k, k + n) != pat@,
        ensures
            forall|k: int| 0 <= k <= last ==> #[trigger] hay@.subrange(k, k + n) != pat@,
        decreases last - i,
    {
        if occurs_at(&hay, &pat, i) {
            return true;
        }
        if i == last {
            break;
        }
        i = i + 1;
    }
    assert forall|k: int| 0 <= k && k + n <= haystack@.len() implies
        #[trigger] haystack@.subrange(k, k + n) != needle@ by {
        assert(k <= last);
        assert(hay@.subrange(k, k + n) != pat@);
    }
    false
}

} // verus!
