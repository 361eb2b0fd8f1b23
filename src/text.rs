//! Searching text.

use vstd::prelude::*;
use vstd::string::*;

verus! {

/// `t` occurs in `s` at position `i`.
pub open spec fn occurs_at(s: Seq<char>, t: Seq<char>, i: int) -> bool {
    0 <= i && i + t.len() <= s.len() && s.subrange(i, i + t.len()) == t
}

/// `t` occurs somewhere in `s`.
pub open spec fn has_infix(s: Seq<char>, t: Seq<char>) -> bool {
    exists|i: int| #[trigger] occurs_at(s, t, i)
}

fn matches_at(s: &str, t: &str, sl: usize, tl: usize, i: usize) -> (r: bool)
    requires
        sl == s@.len(),
        tl == t@.len(),
        i + tl <= sl,
    ensures
        r == occurs_at(s@, t@, i as int),
{
    let mut j: usize = 0;
    while j < tl
        invariant
            sl == s@.len(),
            tl == t@.len(),
            i + tl <= sl,
            j <= tl,
            forall|k: int| 0 <= k < j ==> s@[i + k] == t@[k],
        decreases tl - j,
    {
        if s.get_char(i + j) != t.get_char(j) {
            assert(s@.subrange(i as int, i + tl)[j as int] != t@[j as int]);
            return false;
        }
        j = j + 1;
    }
    assert(s@.subrange(i as int, i + tl) =~= t@);
    true
}

/// Whether `t` occurs in `s`.
pub fn contains_text(s: &str, t: &str) -> (r: bool)
    ensures
        r == has_infix(s@, t@),
{
    let sl = s.unicode_len();
    let tl = t.unicode_len();
    if tl > sl {
        assert forall|i: int| !occurs_at(s@, t@, i) by {}
        return false;
    }
    if tl == 0 {
        assert(s@.subrange(0, 0) =~= t@);
        assert(occurs_at(s@, t@, 0));
        return true;
    }
    let mut i: usize = 0;
    while i <= sl - tl
        invariant
            sl == s@.len(),
            tl == t@.len(),
            0 < tl <= sl,
            i <= sl - tl + 1,
            forall|k: int| 0 <= k < i ==> !#[trigger] occurs_at(s@, t@, k),
        decreases sl - tl + 1 - i,
    {
        if matches_at(s, t, sl, tl, i) {
            return true;
        }
        i = i + 1;
    }
    assert forall|k: int| !#[trigger] occurs_at(s@, t@, k) by {
        if 0 <= k < i {
        }
    }
    false
}

/// Whether a model name names its organisation, as in `org/model`.
pub fn has_organization(name: &str) -> (r: bool)
    ensures
        r == name@.contains('/'),
{
    let n = name.unicode_len();
    let mut i: usize = 0;
    while i < n
        invariant
            n == name@.len(),
            i <= n,
            forall|k: int| 0 <= k < i ==> name@[k] != '/',
        decreases n - i,
    {
        if name.get_char(i) == '/' {
            return true;
        }
        i = i + 1;
    }
    false
}

} // verus!
