//! Small verified utilities on strings: equality and substring search.

use vstd::prelude::*;

verus! {

/// Compares two string slices character by character.
pub fn str_eq(a: &str, b: &str) -> (r: bool)
    ensures
        r == (a@ == b@),
{
    let sa: String = a.to_owned();
    let sb: String = b.to_owned();
    sa == sb
}

/// Relies on `String::push`: appends one character.
#[verifier::external_body]
pub fn push_char(s: &mut String, c: char)
    ensures
        final(s)@ == old(s)@.push(c),
{
    s.push(c);
}

/// `p` occurs in `t` starting at position `i`.
pub open spec fn occurs_at(t: Seq<char>, p: Seq<char>, i: int) -> bool {
    0 <= i && i + p.len() <= t.len() && t.subrange(i, i + p.len()) == p
}

/// `p` occurs somewhere in `t`.
pub open spec fn contains_seq(t: Seq<char>, p: Seq<char>) -> bool {
    exists|i: int| occurs_at(t, p, i)
}

/// Does `pattern` occur in `text` exactly at position `i`?
fn matches_at(text: &str, pattern: &str, i: usize) -> (r: bool)
    requires
        i + pattern@.len() <= text@.len(),
    ensures
        r == occurs_at(text@, pattern@, i as int),
{
    let n = text.unicode_len();
    let m = pattern.unicode_len();
    let mut j: usize = 0;
    while j < m
        invariant
            j <= m,
            m == pattern@.len(),
            n == text@.len(),
            i + m <= n,
            forall|t: int| 0 <= t < j ==> text@[i + t] == pattern@[t],
        decreases m - j,
    {
        if text.get_char(i + j) != pattern.get_char(j) {
            assert(!occurs_at(text@, pattern@, i as int)) by {
                if occurs_at(text@, pattern@, i as int) {
                    assert(text@.subrange(i as int, i + m)[j as int] == text@[i + j]);
                }
            }
            return false;
        }
        j = j + 1;
    }
    assert(text@.subrange(i as int, i + m) =~= pattern@);
    true
}

/// Substring search: does `pattern` occur anywhere in `text`?
pub fn contains_str(text: &str, pattern: &str) -> (r: bool)
    ensures
        r == contains_seq(text@, pattern@),
{
    let n = text.unicode_len();
    let m = pattern.unicode_len();
    if m > n {
        assert(forall|i: int| !occurs_at(text@, pattern@, i));
        return false;
    }
    if m == 0 {
        assert(occurs_at(text@, pattern@, 0)) by {
            assert(text@.subrange(0, 0) =~= pattern@);
        }
        return true;
    }
    let mut i: usize = 0;
    while i <= n - m
        invariant
            1 <= m <= n,
            i <= n - m + 1,
            n == text@.len(),
            m == pattern@.len(),
            forall|k: int| 0 <= k < i ==> !occurs_at(text@, pattern@, k),
        decreases n - m + 1 - i,
    {
        if matches_at(text, pattern, i) {
            return true;
        }
        i = i + 1;
    }
    assert(forall|k: int| k > n - m ==> !occurs_at(text@, pattern@, k));
    false
}

} // verus!
