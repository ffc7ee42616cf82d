use vstd::prelude::*;

verus! {

/// Whether `p` is a prefix of `s`.
pub fn has_prefix(s: &str, p: &str) -> (r: bool)
    ensures
        r == p@.is_prefix_of(s@),
{
    let n = p.unicode_len();
    let m = s.unicode_len();
    if n > m {
        return false;
    }
    let mut i: usize = 0;
    while i < n
        invariant
            i <= n <= m,
            n == p@.len(),
            m == s@.len(),
            forall|j: int| 0 <= j < i ==> s@[j] == p@[j],
        decreases n - i,
    {
        if s.get_char(i) != p.get_char(i) {
            return false;
        }
        i = i + 1;
    }
    assert(p@ =~= s@.subrange(0, n as int));
    true
}

/// Whether `a` and `b` hold the same characters.
pub fn str_eq(a: &str, b: &str) -> (r: bool)
    ensures
        r == (a@ == b@),
{
    if a.unicode_len() != b.unicode_len() {
        return false;
    }
    let r = has_prefix(a, b);
    assert(r ==> b@ =~= a@.subrange(0, b@.len() as int));
    assert(r ==> a@ =~= b@);
    r
}

/// Whether `needle` occurs in `hay` starting at index `i`.
pub open spec fn occurs_at(hay: Seq<char>, needle: Seq<char>, i: int) -> bool {
    0 <= i && i + needle.len() <= hay.len() && hay.subrange(i, i + needle.len()) == needle
}

/// Whether `needle` occurs somewhere in `hay`.
pub open spec fn occurs_in(hay: Seq<char>, needle: Seq<char>) -> bool {
    exists|i: int| occurs_at(hay, needle, i)
}

/// Whether `needle` occurs in `hay` at index `i`.
fn occurs_at_exec(hay: &str, needle: &str, i: usize) -> (r: bool)
    requires
        i + needle@.len() <= hay@.len(),
    ensures
        r == occurs_at(hay@, needle@, i as int),
{
    let n = needle.unicode_len();
    let m = hay.unicode_len();
    let mut j: usize = 0;
    while j < n
        invariant
            j <= n == needle@.len(),
            m == hay@.len(),
            i + n <= m,
            forall|t: int| 0 <= t < j ==> hay@[i + t] == needle@[t],
        decreases n - j,
    {
        if hay.get_char(i + j) != needle.get_char(j) {
            assert(hay@.subrange(i as int, i + n)[j as int] != needle@[j as int]);
            return false;
        }
        j = j + 1;
    }
    assert(hay@.subrange(i as int, i + n) =~= needle@);
    true
}

/// Whether `needle` occurs in `hay`; the empty string occurs in every string.
pub fn contains_str(hay: &str, needle: &str) -> (r: bool)
    ensures
        r == occurs_in(hay@, needle@),
{
    let n = needle.unicode_len();
    let m = hay.unicode_len();
    if n > m {
        assert forall|i: int| !occurs_at(hay@, needle@, i) by {}
        return false;
    }
    let mut i: usize = 0;
    loop
        invariant
            n == needle@.len(),
            m == hay@.len(),
            n <= m,
            i <= m - n,
            forall|t: int| 0 <= t < i ==> !occurs_at(hay@, needle@, t),
        decreases m - n - i,
    {
        if occurs_at_exec(hay, needle, i) {
            return true;
        }
        if i == m - n {
            assert forall|t: int| !occurs_at(hay@, needle@, t) by {
                if 0 <= t <= i {
                }
            }
            return false;
        }
        i = i + 1;
    }
}

/// The first index, from `i` on, where `needle` occurs in `hay`.
pub open spec fn first_from(hay: Seq<char>, needle: Seq<char>, i: int) -> Option<int>
    decreases hay.len() + 1 - i,
{
    if i < 0 || i + needle.len() > hay.len() {
        None
    } else if occurs_at(hay, needle, i) {
        Some(i)
    } else {
        first_from(hay, needle, i + 1)
    }
}

/// The first index where `needle` occurs in `hay`, if any.
pub fn find_first(hay: &str, needle: &str) -> (r: Option<usize>)
    ensures
        r is Some <==> first_from(hay@, needle@, 0) is Some,
        r is Some ==> r->Some_0 as int == first_from(hay@, needle@, 0)->Some_0,
        r is Some ==> r->Some_0 + needle@.len() <= hay@.len(),
{
    let n = needle.unicode_len();
    let m = hay.unicode_len();
    if n > m {
        return None;
    }
    let mut i: usize = 0;
    loop
        invariant
            n == needle@.len(),
            m == hay@.len(),
            n <= m,
            i <= m - n,
            first_from(hay@, needle@, 0) == first_from(hay@, needle@, i as int),
        decreases m - n - i,
    {
        if occurs_at_exec(hay, needle, i) {
            return Some(i);
        }
        if i == m - n {
            assert(first_from(hay@, needle@, i + 1) is None);
            return None;
        }
        i = i + 1;
    }
}

/// The index just after the last occurrence of `needle` in `hay`, if any.
pub open spec fn last_end(hay: Seq<char>, needle: Seq<char>) -> Option<int> {
    if exists|i: int| occurs_at(hay, needle, i) {
        let i = choose|i: int| occurs_at(hay, needle, i) && forall|j: int| occurs_at(hay, needle, j) ==> j <= i;
        Some(i + needle.len())
    } else {
        None
    }
}

/// The part of `hay` after the last occurrence of `needle`, or the whole of
/// `hay` where `needle` does not occur.
pub open spec fn after_last(hay: Seq<char>, needle: Seq<char>) -> Seq<char> {
    match last_end(hay, needle) {
        Some(e) => hay.skip(e),
        None => hay,
    }
}

/// The part of `hay` after the last occurrence of a non-empty `needle`, or
/// the whole of `hay` where it does not occur.
pub fn after_last_exec(hay: &str, needle: &str) -> (r: String)
    requires
        needle@.len() > 0,
    ensures
        r@ == after_last(hay@, needle@),
{
    let n = needle.unicode_len();
    let m = hay.unicode_len();
    if n > m {
        assert(!exists|i: int| occurs_at(hay@, needle@, i));
        return String::from_str(hay);
    }
    let mut i: usize = m - n + 1;
    while i > 0
        invariant
            n == needle@.len(),
            m == hay@.len(),
            0 < n <= m,
            i <= m - n + 1,
            forall|t: int| i <= t ==> !occurs_at(hay@, needle@, t),
        decreases i,
    {
        if occurs_at_exec(hay, needle, i - 1) {
            let ghost k = (i - 1) as int;
            assert(occurs_at(hay@, needle@, k) && forall|j: int| occurs_at(hay@, needle@, j) ==> j <= k);
            let ghost c = choose|c: int| occurs_at(hay@, needle@, c) && forall|j: int| occurs_at(hay@, needle@, j) ==> j <= c;
            assert(c == k);
            return String::from_str(hay.substring_char(i - 1 + n, m));
        }
        i = i - 1;
    }
    assert(!exists|t: int| occurs_at(hay@, needle@, t));
    String::from_str(hay)
}

} // verus!
