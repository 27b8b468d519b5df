//! Small facts about text, stated over sequences of characters.
use vstd::prelude::*;

verus! {

/// `s` ends with `suffix`.
pub open spec fn has_suffix(s: Seq<char>, suffix: Seq<char>) -> bool {
    suffix.len() <= s.len() && s.subrange(s.len() - suffix.len(), s.len() as int) == suffix
}

/// `part` occurs in `s` at position `i`.
pub open spec fn occurs_at(s: Seq<char>, part: Seq<char>, i: int) -> bool {
    0 <= i && i + part.len() <= s.len() && s.subrange(i, i + part.len()) == part
}

/// `part` occurs somewhere in `s`.
pub open spec fn has_infix(s: Seq<char>, part: Seq<char>) -> bool {
    exists|i: int| occurs_at(s, part, i)
}

/// `s` without the copies of `c` that end it.
pub open spec fn without_trailing(s: Seq<char>, c: char) -> Seq<char>
    decreases s.len(),
{
    if s.len() > 0 && s.last() == c {
        without_trailing(s.drop_last(), c)
    } else {
        s
    }
}

/// Whether `part` occurs in `s` at position `i`.
fn text_occurs_at(s: &str, n: usize, part: &str, m: usize, i: usize) -> (r: bool)
    requires
        n == s@.len(),
        m == part@.len(),
        i + m <= n,
    ensures
        r == occurs_at(s@, part@, i as int),
{
    let mut k: usize = 0;
    while k < m
        invariant
            n == s@.len(),
            m == part@.len(),
            i + m <= n,
            k <= m,
            forall|j: int| 0 <= j < k ==> s@[i + j] == part@[j],
        decreases m - k,
    {
        if s.get_char(i + k) != part.get_char(k) {
            assert(s@.subrange(i as int, i + m)[k as int] != part@[k as int]);
            return false;
        }
        k = k + 1;
    }
    assert(s@.subrange(i as int, i + m) =~= part@);
    true
}

/// Whether `s` ends with `suffix`.
pub fn text_has_suffix(s: &str, suffix: &str) -> (r: bool)
    ensures
        r == has_suffix(s@, suffix@),
{
    let n = s.unicode_len();
    let m = suffix.unicode_len();
    if m > n {
        return false;
    }
    text_occurs_at(s, n, suffix, m, n - m)
}

/// Whether `part` occurs in `s`.
pub fn text_has_infix(s: &str, part: &str) -> (r: bool)
    ensures
        r == has_infix(s@, part@),
{
    let n = s.unicode_len();
    let m = part.unicode_len();
    if m > n {
        assert forall|i: int| !occurs_at(s@, part@, i) by {}
        return false;
    }
    let mut i: usize = 0;
    loop
        invariant
            n == s@.len(),
            m == part@.len(),
            m <= n,
            i <= n - m,
            forall|j: int| 0 <= j < i ==> !occurs_at(s@, part@, j),
        ensures
            forall|j: int| 0 <= j <= n - m ==> !occurs_at(s@, part@, j),
        decreases n - m - i,
    {
        if text_occurs_at(s, n, part, m, i) {
            return true;
        }
        if i == n - m {
            break;
        }
        i = i + 1;
    }
    assert forall|j: int| !occurs_at(s@, part@, j) by {
        if 0 <= j && j <= n - m {
        }
    }
    false
}

/// `s` without the copies of `c` that end it.
pub fn text_without_trailing(s: &str, c: char) -> (r: String)
    ensures
        r@ == without_trailing(s@, c),
{
    let n = s.unicode_len();
    let mut k: usize = n;
    assert(s@.subrange(0, n as int) =~= s@);
    while k > 0 && s.get_char(k - 1) == c
        invariant
            n == s@.len(),
            k <= n,
            without_trailing(s@, c) == without_trailing(s@.subrange(0, k as int), c),
        decreases k,
    {
        assert(s@.subrange(0, k as int).drop_last() =~= s@.subrange(0, k - 1));
        k = k - 1;
    }
    let r = String::from_str(s.substring_char(0, k));
    r
}

} // verus!
