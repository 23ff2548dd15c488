//! Character-level helpers shared by the parsers: searching, ASCII case
//! folding and substring extraction, each with its specification.

use vstd::prelude::*;

verus! {

/// Index of the first occurrence of `c` in `s` at or after `from`, or
/// `s.len()` when there is none.
pub open spec fn find_from(s: Seq<char>, c: char, from: int) -> int
    decreases s.len() - from,
{
    if from >= s.len() {
        s.len() as int
    } else if s[from] == c {
        from
    } else {
        find_from(s, c, from + 1)
    }
}

/// `c` does not occur in `s` between `lo` (inclusive) and `hi` (exclusive).
pub open spec fn absent_in(s: Seq<char>, c: char, lo: int, hi: int) -> bool {
    forall|k: int| lo <= k < hi ==> s[k] != c
}

/// What `find_from` returns: the first position at or after `from` that holds
/// `c`, with no `c` before it, or the length when `c` does not occur.
pub proof fn lemma_find_from(s: Seq<char>, c: char, from: int)
    requires
        0 <= from <= s.len(),
    ensures
        from <= find_from(s, c, from) <= s.len(),
        find_from(s, c, from) < s.len() ==> s[find_from(s, c, from)] == c,
        absent_in(s, c, from, find_from(s, c, from)),
    decreases s.len() - from,
{
    if from < s.len() && s[from] != c {
        lemma_find_from(s, c, from + 1);
    }
}

/// Conversely, a position that holds `c` with no `c` before it is what
/// `find_from` returns.
pub proof fn lemma_find_from_is(s: Seq<char>, c: char, from: int, r: int)
    requires
        0 <= from <= r <= s.len(),
        r < s.len() ==> s[r] == c,
        absent_in(s, c, from, r),
    ensures
        find_from(s, c, from) == r,
    decreases r - from,
{
    if from < r {
        lemma_find_from_is(s, c, from + 1, r);
    }
}

/// The ASCII lower-case code of a character; other characters keep theirs.
pub open spec fn ascii_lower(c: char) -> u32 {
    if 65 <= (c as u32) <= 90 {
        (c as u32 + 32) as u32
    } else {
        c as u32
    }
}

/// Two character sequences are equal up to ASCII case.
pub open spec fn eq_ignore_ascii_case(a: Seq<char>, b: Seq<char>) -> bool {
    &&& a.len() == b.len()
    &&& forall|i: int| 0 <= i < a.len() ==> ascii_lower(#[trigger] a[i]) == ascii_lower(b[i])
}

/// The characters of a string slice, in order.
pub fn chars_of(s: &str) -> (v: Vec<char>)
    ensures
        v@ == s@,
{
    let n = s.unicode_len();
    let mut v: Vec<char> = Vec::new();
    let mut i: usize = 0;
    while i < n
        invariant
            n == s@.len(),
            i <= n,
            v@ == s@.subrange(0, i as int),
        decreases n - i,
    {
        let c = s.get_char(i);
        v.push(c);
        i = i + 1;
        assert(v@ =~= s@.subrange(0, i as int));
    }
    assert(v@ =~= s@);
    v
}

/// Position of the first `c` in `s` at or after `from` (the length if none).
pub fn find_char(s: &Vec<char>, c: char, from: usize) -> (r: usize)
    requires
        from <= s.len(),
    ensures
        r as int == find_from(s@, c, from as int),
{
    let mut i = from;
    while i < s.len()
        invariant
            from <= i <= s.len(),
            find_from(s@, c, from as int) == find_from(s@, c, i as int),
        decreases s.len() - i,
    {
        if s[i] == c {
            return i;
        }
        i = i + 1;
    }
    i
}

/// The ASCII lower-case code of a character.
pub fn lower_code(c: char) -> (r: u32)
    ensures
        r == ascii_lower(c),
{
    let n = c as u32;
    if 65 <= n && n <= 90 {
        n + 32
    } else {
        n
    }
}

/// Whether `s[from..from + pat.len()]` equals `pat` up to ASCII case.
pub fn matches_ignore_case_at(s: &Vec<char>, from: usize, pat: &str) -> (r: bool)
    requires
        from <= s.len(),
    ensures
        r == (from + pat@.len() <= s.len() && eq_ignore_ascii_case(
            s@.subrange(from as int, from + pat@.len()),
            pat@,
        )),
{
    let p = chars_of(pat);
    if p.len() > s.len() - from {
        return false;
    }
    let mut i: usize = 0;
    while i < p.len()
        invariant
            p@ == pat@,
            from + p.len() <= s.len(),
            i <= p.len(),
            forall|k: int| 0 <= k < i ==> ascii_lower(s@[from + k]) == ascii_lower(p@[k]),
        decreases p.len() - i,
    {
        if lower_code(s[from + i]) != lower_code(p[i]) {
            assert(s@.subrange(from as int, from + pat@.len())[i as int] == s@[from + i]);
            return false;
        }
        i = i + 1;
    }
    proof {
        let sub = s@.subrange(from as int, from + pat@.len());
        assert forall|k: int| 0 <= k < sub.len() implies ascii_lower(#[trigger] sub[k])
            == ascii_lower(pat@[k]) by {
            assert(sub[k] == s@[from + k]);
        }
    }
    true
}

/// The characters of `s` from `lo` (inclusive) to `hi` (exclusive), as a
/// new string.
pub fn substring(s: &str, lo: usize, hi: usize) -> (r: String)
    requires
        lo <= hi <= s@.len(),
    ensures
        r@ == s@.subrange(lo as int, hi as int),
{
    s.substring_char(lo, hi).to_owned()
}

/// `a` followed by `b`, as a new string.
pub fn concat(a: &str, b: &str) -> (r: String)
    ensures
        r@ == a@ + b@,
{
    let mut r = a.to_owned();
    r.append(b);
    r
}

} // verus!
