//! Character-level helpers on strings, each proved against a spec function
//! over the string's characters.

use vstd::prelude::*;

verus! {

/// The characters of an optional string.
pub open spec fn opt_view(o: Option<String>) -> Option<Seq<char>> {
    match o {
        Some(s) => Some(s@),
        None => None,
    }
}

/// The characters of an optional string slice.
pub open spec fn opt_str_view(o: Option<&str>) -> Option<Seq<char>> {
    match o {
        Some(s) => Some(s@),
        None => None,
    }
}

/// `t` occurs in `s` starting at position `i`.
pub open spec fn occurs_at(s: Seq<char>, t: Seq<char>, i: int) -> bool {
    0 <= i && i + t.len() <= s.len() && s.subrange(i, i + t.len()) == t
}

pub open spec fn ends_with(s: Seq<char>, t: Seq<char>) -> bool {
    t.len() <= s.len() && occurs_at(s, t, s.len() - t.len())
}

pub open spec fn contains(s: Seq<char>, t: Seq<char>) -> bool {
    exists|i: int| occurs_at(s, t, i)
}

/// Checks whether `t` occurs in `s` at character position `i`.
pub fn occurs_at_exec(s: &str, t: &str, i: usize) -> (r: bool)
    requires
        i <= s@.len(),
    ensures
        r == occurs_at(s@, t@, i as int),
{
    let n = s.unicode_len();
    let m = t.unicode_len();
    if m > n - i {
        return false;
    }
    let mut j: usize = 0;
    while j < m
        invariant
            n == s@.len(),
            m == t@.len(),
            i + m <= n,
            j <= m,
            forall|k: int| 0 <= k < j ==> s@[i + k] == t@[k],
        decreases m - j,
    {
        if s.get_char(i + j) != t.get_char(j) {
            assert(s@.subrange(i as int, i + m)[j as int] != t@[j as int]);
            return false;
        }
        j += 1;
    }
    assert(s@.subrange(i as int, i + m) =~= t@);
    true
}

/// A string that ends with `t` holds `t`'s characters, counted from the end.
pub proof fn lemma_suffix_char(s: Seq<char>, t: Seq<char>, k: int)
    requires
        ends_with(s, t),
        0 < k <= t.len(),
    ensures
        s[s.len() - k] == t[t.len() - k],
{
    assert(s.subrange(s.len() - t.len(), s.len() as int)[t.len() - k] == s[s.len() - k]);
}

/// Checks whether `s` ends with `t`.
pub fn has_suffix(s: &str, t: &str) -> (r: bool)
    ensures
        r == ends_with(s@, t@),
{
    let n = s.unicode_len();
    let m = t.unicode_len();
    if m > n {
        return false;
    }
    occurs_at_exec(s, t, n - m)
}

/// Checks whether `t` occurs anywhere in `s`.
pub fn has_substring(s: &str, t: &str) -> (r: bool)
    ensures
        r == contains(s@, t@),
{
    let n = s.unicode_len();
    let m = t.unicode_len();
    if m > n {
        return false;
    }
    if m == 0 {
        assert(s@.subrange(0, 0) =~= t@);
        assert(occurs_at(s@, t@, 0));
        return true;
    }
    let mut i: usize = 0;
    while i <= n - m
        invariant
            n == s@.len(),
            m == t@.len(),
            1 <= m <= n,
            i <= n - m + 1,
            forall|k: int| 0 <= k < i ==> !occurs_at(s@, t@, k),
        decreases n - m + 1 - i,
    {
        if occurs_at_exec(s, t, i) {
            return true;
        }
        i += 1;
    }
    assert forall|k: int| !occurs_at(s@, t@, k) by {
        if 0 <= k && k + m <= n {
            assert(k < i);
        }
    }
    false
}

/// Unicode white space, as `char::is_whitespace` decides it.
pub open spec fn is_space(c: char) -> bool {
    let u = c as u32;
    (0x09 <= u && u <= 0x0D) || u == 0x20 || u == 0x85 || u == 0xA0 || u == 0x1680 || (0x2000
        <= u && u <= 0x200A) || u == 0x2028 || u == 0x2029 || u == 0x202F || u == 0x205F || u
        == 0x3000
}

/// What a trim removes from the ends of a string.
#[derive(Clone, Copy, Debug, PartialEq, Eq, Structural)]
pub enum Strip {
    Space,
    Quote,
}

pub open spec fn strips(k: Strip, c: char) -> bool {
    match k {
        Strip::Space => is_space(c),
        Strip::Quote => c == '"',
    }
}

/// The first position at or after `lo` in `s[lo..hi]` that `k` does not strip.
pub open spec fn skip_front(s: Seq<char>, k: Strip, lo: int, hi: int) -> int
    decreases hi - lo,
{
    if lo < hi && strips(k, s[lo]) {
        skip_front(s, k, lo + 1, hi)
    } else {
        lo
    }
}

/// The end of `s[lo..hi]` once the characters that `k` strips are cut from its back.
pub open spec fn skip_back(s: Seq<char>, k: Strip, lo: int, hi: int) -> int
    decreases hi - lo,
{
    if lo < hi && strips(k, s[hi - 1]) {
        skip_back(s, k, lo, hi - 1)
    } else {
        hi
    }
}

/// The first position of `c` in `s[lo..hi]`, or `hi` where there is none.
pub open spec fn find_char(s: Seq<char>, c: char, lo: int, hi: int) -> int
    decreases hi - lo,
{
    if lo < hi {
        if s[lo] == c {
            lo
        } else {
            find_char(s, c, lo + 1, hi)
        }
    } else {
        hi
    }
}

pub proof fn lemma_find_char_bounds(s: Seq<char>, c: char, lo: int, hi: int)
    requires
        lo <= hi,
    ensures
        lo <= find_char(s, c, lo, hi) <= hi,
    decreases hi - lo,
{
    if lo < hi && s[lo] != c {
        lemma_find_char_bounds(s, c, lo + 1, hi);
    }
}

pub fn strips_exec(k: Strip, c: char) -> (r: bool)
    ensures
        r == strips(k, c),
{
    match k {
        Strip::Space => {
            let u = c as u32;
            (0x09 <= u && u <= 0x0D) || u == 0x20 || u == 0x85 || u == 0xA0 || u == 0x1680 || (
            0x2000 <= u && u <= 0x200A) || u == 0x2028 || u == 0x2029 || u == 0x202F || u == 0x205F
                || u == 0x3000
        },
        Strip::Quote => c == '"',
    }
}

pub fn skip_front_exec(s: &str, k: Strip, lo: usize, hi: usize) -> (r: usize)
    requires
        lo <= hi <= s@.len(),
    ensures
        r == skip_front(s@, k, lo as int, hi as int),
        lo <= r <= hi,
{
    let mut i = lo;
    while i < hi && strips_exec(k, s.get_char(i))
        invariant
            lo <= i <= hi <= s@.len(),
            skip_front(s@, k, lo as int, hi as int) == skip_front(s@, k, i as int, hi as int),
        decreases hi - i,
    {
        i += 1;
    }
    i
}

pub fn skip_back_exec(s: &str, k: Strip, lo: usize, hi: usize) -> (r: usize)
    requires
        lo <= hi <= s@.len(),
    ensures
        r == skip_back(s@, k, lo as int, hi as int),
        lo <= r <= hi,
{
    let mut j = hi;
    while lo < j && strips_exec(k, s.get_char(j - 1))
        invariant
            lo <= j <= hi <= s@.len(),
            skip_back(s@, k, lo as int, hi as int) == skip_back(s@, k, lo as int, j as int),
        decreases j - lo,
    {
        j -= 1;
    }
    j
}

pub fn find_char_exec(s: &str, c: char, lo: usize, hi: usize) -> (r: usize)
    requires
        lo <= hi <= s@.len(),
    ensures
        r == find_char(s@, c, lo as int, hi as int),
        lo <= r <= hi,
{
    let mut i = lo;
    while i < hi && s.get_char(i) != c
        invariant
            lo <= i <= hi <= s@.len(),
            find_char(s@, c, lo as int, hi as int) == find_char(s@, c, i as int, hi as int),
        decreases hi - i,
    {
        i += 1;
    }
    i
}

} // verus!
