//! Character-level comparisons of strings.

use vstd::prelude::*;

verus! {

/// `needle` stands in `s` starting at position `at`.
pub open spec fn occurs_at(s: Seq<char>, needle: Seq<char>, at: int) -> bool {
    0 <= at && at + needle.len() <= s.len() && s.subrange(at, at + needle.len()) == needle
}

/// `s` begins with `prefix`.
pub open spec fn has_prefix(s: Seq<char>, prefix: Seq<char>) -> bool {
    occurs_at(s, prefix, 0)
}

/// `needle` stands somewhere in `s`.
pub open spec fn occurs_in(s: Seq<char>, needle: Seq<char>) -> bool {
    exists|at: int| occurs_at(s, needle, at)
}

/// Whether `needle` stands in `s` at `at`, which leaves room for it.
fn matches_at(s: &str, needle: &str, at: usize, n: usize) -> (r: bool)
    requires
        n == needle@.len(),
        at + n <= s@.len(),
        s@.len() <= usize::MAX,
    ensures
        r == occurs_at(s@, needle@, at as int),
{
    let mut j: usize = 0;
    while j < n
        invariant
            n == needle@.len(),
            at + n <= s@.len(),
            s@.len() <= usize::MAX,
            j <= n,
            forall|k: int| 0 <= k < j ==> s@[at + k] == #[trigger] needle@[k],
        decreases n - j,
    {
        if s.get_char(at + j) != needle.get_char(j) {
            proof {
                assert(s@.subrange(at as int, at + n)[j as int] != needle@[j as int]);
            }
            return false;
        }
        j = j + 1;
    }
    proof {
        assert(s@.subrange(at as int, at + n) =~= needle@);
    }
    true
}

/// Whether `a` and `b` hold the same characters.
pub fn text_eq(a: &str, b: &str) -> (r: bool)
    ensures
        r == (a@ == b@),
{
    let n = b.unicode_len();
    if a.unicode_len() != n {
        return false;
    }
    let r = matches_at(a, b, 0, n);
    proof {
        assert(a@.subrange(0, n as int) =~= a@);
    }
    r
}

/// Whether `s` begins with `prefix`.
pub fn starts_with(s: &str, prefix: &str) -> (r: bool)
    ensures
        r == has_prefix(s@, prefix@),
{
    let n = prefix.unicode_len();
    let len = s.unicode_len();
    if n > len {
        return false;
    }
    matches_at(s, prefix, 0, n)
}

/// Whether `needle` stands somewhere in `s`.
pub fn contains(s: &str, needle: &str) -> (r: bool)
    ensures
        r == occurs_in(s@, needle@),
{
    let n = needle.unicode_len();
    let len = s.unicode_len();
    if n > len {
        return false;
    }
    if n == 0 {
        proof {
            assert(s@.subrange(0, 0) =~= needle@);
            assert(occurs_at(s@, needle@, 0));
        }
        return true;
    }
    let mut at: usize = 0;
    while at <= len - n
        invariant
            n == needle@.len(),
            len == s@.len(),
            0 < n <= len,
            at <= len - n + 1,
            forall|k: int| 0 <= k < at ==> !#[trigger] occurs_at(s@, needle@, k),
        decreases len - n + 1 - at,
    {
        if matches_at(s, needle, at, n) {
            return true;
        }
        at = at + 1;
    }
    false
}

} // verus!
