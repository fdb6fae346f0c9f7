//! Character-level helpers on strings, specified over their character views.
use vstd::prelude::*;

verus! {

/// The character view of an optional string.
pub open spec fn opt_chars(o: Option<String>) -> Option<Seq<char>> {
    match o {
        Some(s) => Some(s@),
        None => None,
    }
}

/// Position of the first occurrence of `c` in `s`, if any.
pub open spec fn first_pos(s: Seq<char>, c: char) -> Option<int>
    decreases s.len(),
{
    if s.len() == 0 {
        None
    } else {
        match first_pos(s.drop_last(), c) {
            Some(i) => Some(i),
            None => if s.last() == c {
                Some(s.len() - 1)
            } else {
                None
            },
        }
    }
}

/// Position of the last occurrence of `c` in `s`, if any.
pub open spec fn last_pos(s: Seq<char>, c: char) -> Option<int>
    decreases s.len(),
{
    if s.len() == 0 {
        None
    } else if s.last() == c {
        Some(s.len() - 1)
    } else {
        last_pos(s.drop_last(), c)
    }
}

/// What follows the last occurrence of `c` in `s`; all of `s` when `c` does not occur.
pub open spec fn after_last(s: Seq<char>, c: char) -> Seq<char> {
    match last_pos(s, c) {
        Some(i) => s.subrange(i + 1, s.len() as int),
        None => s,
    }
}

/// Finds the first and the last position of `c` in `s`.
pub fn find_char(s: &str, c: char) -> (r: (Option<usize>, Option<usize>))
    ensures
        match r.0 {
            Some(i) => first_pos(s@, c) == Some(i as int) && i < s@.len(),
            None => first_pos(s@, c) is None,
        },
        match r.1 {
            Some(i) => last_pos(s@, c) == Some(i as int) && i < s@.len(),
            None => last_pos(s@, c) is None,
        },
{
    let n = s.unicode_len();
    let mut first: Option<usize> = None;
    let mut last: Option<usize> = None;
    let mut i: usize = 0;
    while i < n
        invariant
            n == s@.len(),
            i <= n,
            match first {
                Some(k) => first_pos(s@.subrange(0, i as int), c) == Some(k as int) && k < i,
                None => first_pos(s@.subrange(0, i as int), c) is None,
            },
            match last {
                Some(k) => last_pos(s@.subrange(0, i as int), c) == Some(k as int) && k < i,
                None => last_pos(s@.subrange(0, i as int), c) is None,
            },
        decreases n - i,
    {
        let ch = s.get_char(i);
        assert(s@.subrange(0, i + 1).drop_last() =~= s@.subrange(0, i as int));
        if ch == c {
            if first.is_none() {
                first = Some(i);
            }
            last = Some(i);
        }
        i = i + 1;
    }
    assert(s@.subrange(0, n as int) =~= s@);
    (first, last)
}

/// Whether `s` begins with `p`.
pub fn has_prefix(s: &str, p: &str) -> (r: bool)
    ensures
        r == p@.is_prefix_of(s@),
{
    let n = s.unicode_len();
    let m = p.unicode_len();
    if m > n {
        return false;
    }
    let mut i: usize = 0;
    while i < m
        invariant
            n == s@.len(),
            m == p@.len(),
            m <= n,
            i <= m,
            forall|j: int| 0 <= j < i ==> s@[j] == p@[j],
        decreases m - i,
    {
        if s.get_char(i) != p.get_char(i) {
            assert(s@.subrange(0, m as int)[i as int] != p@[i as int]);
            return false;
        }
        i = i + 1;
    }
    assert(p@ =~= s@.subrange(0, m as int));
    true
}

/// Whether `s` and `t` hold the same characters.
pub fn same_text(s: &str, t: &str) -> (r: bool)
    ensures
        r == (s@ == t@),
{
    if s.unicode_len() != t.unicode_len() {
        return false;
    }
    let r = has_prefix(s, t);
    proof {
        if r {
            assert(t@ =~= s@.subrange(0, s@.len() as int));
            assert(s@ =~= s@.subrange(0, s@.len() as int));
        }
    }
    r
}

} // verus!
