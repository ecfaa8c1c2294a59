//! Canonical page URL: the current URL with any `#`-fragment removed.
//!
//! The signing server validates the exact page URL a host capability will run
//! against, so queries and paths before the `#` are significant and only the
//! fragment is dropped.

use vstd::prelude::*;
use vstd::string::StrSliceExecFns;

verus! {

/// Index of the first `#` in `s`, or `s.len()` when there is none.
pub open spec fn fragment_start(s: Seq<char>) -> int
    decreases s.len(),
{
    if s.len() == 0 {
        0
    } else if s[0] == '#' {
        0
    } else {
        1 + fragment_start(s.skip(1))
    }
}

/// Everything of `s` before its first `#`: the whole of `s` when it has none.
pub open spec fn strip_fragment_spec(s: Seq<char>) -> Seq<char> {
    s.take(fragment_start(s))
}

/// `fragment_start` points at the first `#`: nothing before it is a `#`, and
/// it lies on a `#` unless the string has none at all.
pub proof fn lemma_fragment_start(s: Seq<char>)
    ensures
        0 <= fragment_start(s) <= s.len(),
        forall|i: int| 0 <= i < fragment_start(s) ==> s[i] != '#',
        fragment_start(s) < s.len() ==> s[fragment_start(s)] == '#',
    decreases s.len(),
{
    if s.len() == 0 {
    } else if s[0] == '#' {
    } else {
        lemma_fragment_start(s.skip(1));
        assert forall|i: int| 0 <= i < fragment_start(s) implies s[i] != '#' by {
            if i > 0 {
                assert(s.skip(1)[i - 1] == s[i]);
            }
        }
        if fragment_start(s) < s.len() {
            assert(s.skip(1)[fragment_start(s) - 1] == s[fragment_start(s)]);
        }
    }
}

/// A string without any `#` is left whole by stripping.
pub proof fn lemma_strip_fragment_identity(s: Seq<char>)
    requires
        forall|i: int| 0 <= i < s.len() ==> s[i] != '#',
    ensures
        strip_fragment_spec(s) == s,
{
    lemma_fragment_start(s);
    assert(strip_fragment_spec(s) =~= s);
}

/// Stripping the fragment is idempotent: a stripped URL holds no `#`, so a
/// second pass changes nothing.
pub proof fn lemma_strip_fragment_idempotent(s: Seq<char>)
    ensures
        strip_fragment_spec(strip_fragment_spec(s)) == strip_fragment_spec(s),
{
    lemma_fragment_start(s);
    lemma_strip_fragment_identity(strip_fragment_spec(s));
}

/// The canonical page URL: `url` with everything from the first `#` on
/// removed.
pub fn strip_fragment(url: &str) -> (r: String)
    ensures
        r@ == strip_fragment_spec(url@),
{
    let n = url.unicode_len();
    let mut i: usize = 0;
    while i < n
        invariant
            n == url@.len(),
            i <= n,
            forall|j: int| 0 <= j < i ==> url@[j] != '#',
        decreases n - i,
    {
        if url.get_char(i) == '#' {
            proof {
                lemma_fragment_start(url@);
                assert(url@.subrange(0, i as int) =~= strip_fragment_spec(url@));
            }
            return url.substring_char(0, i).to_owned();
        }
        i += 1;
    }
    proof {
        lemma_fragment_start(url@);
        assert(url@.subrange(0, n as int) =~= strip_fragment_spec(url@));
    }
    url.substring_char(0, n).to_owned()
}

} // verus!
