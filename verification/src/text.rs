//! Character-level helpers shared by the scanners of this crate.
//!
//! Text is handled as a sequence of Unicode scalar values (`Seq<char>`), the
//! view that `vstd` gives to `str` and `String`. Scanners first collect the
//! characters of their input once and then index into them.

use vstd::prelude::*;

verus! {

/// `p` occurs in `t` starting at index `at`.
pub open spec fn has_prefix_at(t: Seq<char>, at: int, p: Seq<char>) -> bool {
    &&& 0 <= at
    &&& at + p.len() <= t.len()
    &&& t.subrange(at, at + p.len()) == p
}

/// `t` ends with `p`.
pub open spec fn has_suffix(t: Seq<char>, p: Seq<char>) -> bool {
    has_prefix_at(t, t.len() - p.len(), p)
}

/// The least index `k >= from` with `t[k] == c`, or `t.len()` when there is none.
pub open spec fn spec_index_from(t: Seq<char>, c: char, from: int) -> int
    decreases t.len() - from,
{
    if from < 0 || from >= t.len() {
        t.len() as int
    } else if t[from] == c {
        from
    } else {
        spec_index_from(t, c, from + 1)
    }
}

/// The greatest index `k < end` with `t[k] == c`, or `-1` when there is none.
pub open spec fn spec_last_index_before(t: Seq<char>, c: char, end: int) -> int
    decreases end,
{
    if end <= 0 || end > t.len() {
        -1
    } else if t[end - 1] == c {
        end - 1
    } else {
        spec_last_index_before(t, c, end - 1)
    }
}

/// String slices, by their characters.
pub open spec fn strs_view(v: Seq<&str>) -> Seq<Seq<char>> {
    Seq::new(v.len(), |i: int| v[i]@)
}

/// Strings, by their characters.
pub open spec fn strings_view(v: Seq<String>) -> Seq<Seq<char>> {
    Seq::new(v.len(), |i: int| v[i]@)
}

/// What `spec_index_from` finds: nothing before it is `c`, and it is `c` unless
/// it is the end.
pub proof fn lemma_index_from(t: Seq<char>, c: char, from: int)
    requires
        0 <= from <= t.len(),
    ensures
        from <= spec_index_from(t, c, from) <= t.len(),
        forall|k: int| from <= k < spec_index_from(t, c, from) ==> t[k] != c,
        spec_index_from(t, c, from) < t.len() ==> t[spec_index_from(t, c, from)] == c,
    decreases t.len() - from,
{
    if from < t.len() && t[from] != c {
        lemma_index_from(t, c, from + 1);
    }
}

/// What `spec_last_index_before` finds: nothing after it (and before `end`) is
/// `c`, and it is `c` unless it is `-1`.
pub proof fn lemma_last_index_before(t: Seq<char>, c: char, end: int)
    requires
        0 <= end <= t.len(),
    ensures
        -1 <= spec_last_index_before(t, c, end) < end,
        forall|k: int| spec_last_index_before(t, c, end) < k < end ==> t[k] != c,
        spec_last_index_before(t, c, end) >= 0 ==> t[spec_last_index_before(t, c, end)] == c,
    decreases end,
{
    if end > 0 && t[end - 1] != c {
        lemma_last_index_before(t, c, end - 1);
    }
}

/// The characters of `s`, in order.
pub fn str_chars(s: &str) -> (v: Vec<char>)
    ensures
        v@ == s@,
{
    let mut v: Vec<char> = Vec::new();
    for c in it: s.chars()
        invariant
            v@ == it.seq().take(it.index() as int),
            it.seq() == s@,
    {
        v.push(c);
    }
    v
}

/// Whether `p` occurs in `t` at index `at`.
pub fn chars_have_prefix_at(t: &Vec<char>, at: usize, p: &Vec<char>) -> (r: bool)
    ensures
        r == has_prefix_at(t@, at as int, p@),
{
    if p.len() > t.len() || at > t.len() - p.len() {
        return false;
    }
    let mut j: usize = 0;
    while j < p.len()
        invariant
            j <= p.len(),
            at + p.len() <= t.len(),
            forall|k: int| 0 <= k < j ==> t@[at + k] == p@[k],
        decreases p.len() - j,
    {
        if t[at + j] != p[j] {
            assert(t@.subrange(at as int, at + p.len())[j as int] != p@[j as int]);
            return false;
        }
        j += 1;
    }
    assert(t@.subrange(at as int, at + p.len()) =~= p@);
    true
}

/// Whether `t` ends with `p`.
pub fn chars_have_suffix(t: &Vec<char>, p: &Vec<char>) -> (r: bool)
    ensures
        r == has_suffix(t@, p@),
{
    if p.len() > t.len() {
        return false;
    }
    chars_have_prefix_at(t, t.len() - p.len(), p)
}

/// The first index at or after `from` that holds `c`, or the length of `t`.
pub fn index_from(t: &Vec<char>, c: char, from: usize) -> (r: usize)
    ensures
        r == spec_index_from(t@, c, from as int),
        r <= t.len(),
        from <= t.len() ==> from <= r,
{
    if from > t.len() {
        return t.len();
    }
    let mut k: usize = from;
    while k < t.len() && t[k] != c
        invariant
            from <= k <= t.len(),
            spec_index_from(t@, c, k as int) == spec_index_from(t@, c, from as int),
        decreases t.len() - k,
    {
        k += 1;
    }
    k
}

/// The last index before `end` that holds `c`, if there is one.
pub fn last_index_before(t: &Vec<char>, c: char, end: usize) -> (r: Option<usize>)
    ensures
        match r {
            Some(k) => k as int == spec_last_index_before(t@, c, end as int) && k < end <= t.len(),
            None => spec_last_index_before(t@, c, end as int) == -1,
        },
{
    if end > t.len() {
        return None;
    }
    let mut k: usize = end;
    while k > 0 && t[k - 1] != c
        invariant
            k <= end <= t.len(),
            spec_last_index_before(t@, c, k as int) == spec_last_index_before(t@, c, end as int),
        decreases k,
    {
        k -= 1;
    }
    if k == 0 {
        None
    } else {
        Some(k - 1)
    }
}

/// Whether `a` and `b` hold the same characters.
pub fn chars_eq(a: &Vec<char>, b: &Vec<char>) -> (r: bool)
    ensures
        r == (a@ == b@),
{
    if a.len() != b.len() {
        return false;
    }
    let r = chars_have_prefix_at(a, 0, b);
    assert(a@.subrange(0, a@.len() as int) =~= a@);
    r
}

/// Whether `a` and `b` are the same text.
pub fn str_eq(a: &str, b: &str) -> (r: bool)
    ensures
        r == (a@ == b@),
{
    chars_eq(&str_chars(a), &str_chars(b))
}

/// `s` in lower case, as `str::to_lowercase` of the standard library gives it.
pub uninterp spec fn spec_to_lowercase(s: Seq<char>) -> Seq<char>;

/// Calls `str::to_lowercase`. The contract names the result and claims nothing
/// else about it.
#[verifier::external_body]
pub(crate) fn to_lowercase(s: &str) -> (r: String)
    ensures
        r@ == spec_to_lowercase(s@),
{
    s.to_lowercase()
}

} // verus!
