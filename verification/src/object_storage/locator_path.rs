//! The path of a locator and the file it names.
//!
//! What follows the protocol prefix of a locator is a path whose components
//! are separated by `/`, whatever the machine. The file of the locator is the
//! last component, found after trailing separators and trailing `.`
//! components have been dropped; a path that ends in `..` names no file. The
//! stem of the file is its name up to the last `.`.

use crate::text::{last_index_before, lemma_last_index_before, spec_last_index_before, str_chars};
use vstd::prelude::*;
use vstd::string::*;

verus! {

/// `p` without its trailing separators and trailing `.` components.
pub open spec fn spec_trim_path(p: Seq<char>) -> Seq<char>
    decreases p.len(),
{
    if p.len() == 0 {
        p
    } else if p.last() == '/' {
        spec_trim_path(p.drop_last())
    } else if p.last() == '.' && (p.len() == 1 || p[p.len() - 2] == '/') {
        spec_trim_path(p.drop_last())
    } else {
        p
    }
}

/// The file that the path `p` names: its final component, unless there is
/// none or it is `..`.
pub open spec fn spec_locator_file_name(p: Seq<char>) -> Option<Seq<char>> {
    let q = spec_trim_path(p);
    let name = q.subrange(spec_last_index_before(q, '/', q.len() as int) + 1, q.len() as int);
    if q.len() == 0 || name == seq!['.', '.'] {
        None
    } else {
        Some(name)
    }
}

/// The file name up to its last `.`; the whole name when it has no `.` or only
/// a leading one.
pub open spec fn spec_stem_of(name: Seq<char>) -> Seq<char> {
    let dot = spec_last_index_before(name, '.', name.len() as int);
    if dot <= 0 {
        name
    } else {
        name.subrange(0, dot)
    }
}

/// The stem of the file that the path `p` names.
pub open spec fn spec_locator_stem(p: Seq<char>) -> Option<Seq<char>> {
    match spec_locator_file_name(p) {
        Some(name) => Some(spec_stem_of(name)),
        None => None,
    }
}

/// An optional string, by its characters.
pub open spec fn opt_chars(o: Option<String>) -> Option<Seq<char>> {
    match o {
        Some(s) => Some(s@),
        None => None,
    }
}

/// The bounds `(start, end)` of the final component of `t`, if it has a file
/// name.
fn file_name_bounds(t: &Vec<char>) -> (r: Option<(usize, usize)>)
    ensures
        match r {
            Some((start, end)) => start < end <= t.len() && spec_locator_file_name(t@) == Some(
                t@.subrange(start as int, end as int),
            ),
            None => spec_locator_file_name(t@).is_none(),
        },
{
    let mut end: usize = t.len();
    assert(t@.take(end as int) =~= t@);
    while end > 0 && (t[end - 1] == '/' || (t[end - 1] == '.' && (end == 1 || t[end - 2] == '/')))
        invariant
            end <= t.len(),
            spec_trim_path(t@.take(end as int)) == spec_trim_path(t@),
        decreases end,
    {
        assert(t@.take(end as int).drop_last() =~= t@.take(end - 1));
        end -= 1;
    }
    let ghost q = t@.take(end as int);
    assert(spec_trim_path(q) == q);
    if end == 0 {
        return None;
    }
    let start: usize = match last_index_before(t, '/', end) {
        Some(k) => k + 1,
        None => 0,
    };
    proof {
        lemma_last_index_in_prefix(t@, '/', end as int, end as int);
        lemma_last_index_before(t@, '/', end as int);
        assert(q.subrange(start as int, end as int) =~= t@.subrange(start as int, end as int));
    }
    if end - start == 2 && t[start] == '.' && t[start + 1] == '.' {
        assert(t@.subrange(start as int, end as int) =~= seq!['.', '.']);
        return None;
    }
    assert(t@.subrange(start as int, end as int) != seq!['.', '.']) by {
        let name = t@.subrange(start as int, end as int);
        if name == seq!['.', '.'] {
            assert(name.len() == 2);
            assert(name[0] == '.' && name[1] == '.');
        }
    }
    Some((start, end))
}

/// Searching backwards from `end` sees the same characters in `t` and in any
/// prefix of `t` that reaches `end`.
pub proof fn lemma_last_index_in_prefix(t: Seq<char>, c: char, len: int, end: int)
    requires
        0 <= end <= len <= t.len(),
    ensures
        spec_last_index_before(t.take(len), c, end) == spec_last_index_before(t, c, end),
    decreases end,
{
    if end > 0 && t[end - 1] != c {
        lemma_last_index_in_prefix(t, c, len, end - 1);
    }
}

/// The stem of the file that the locator path `path` names.
pub fn locator_stem(path: &str) -> (r: Option<String>)
    ensures
        opt_chars(r) == spec_locator_stem(path@),
{
    let t = str_chars(path);
    match file_name_bounds(&t) {
        Some((start, end)) => {
            let ghost name = t@.subrange(start as int, end as int);
            proof {
                lemma_last_index_in_range(t@, '.', start as int, end as int, end as int);
            }
            let stem_end: usize = match last_index_before(&t, '.', end) {
                Some(dot) => if dot > start {
                    dot
                } else {
                    end
                },
                None => end,
            };
            assert(t@.subrange(start as int, stem_end as int) =~= spec_stem_of(name));
            Some(String::from_str(path.substring_char(start, stem_end)))
        },
        None => None,
    }
}

/// Searching backwards inside the window `[start, end)` of `t` agrees with
/// searching in `t` itself, shifted by `start`, as long as the hit lies in the
/// window.
pub proof fn lemma_last_index_in_range(t: Seq<char>, c: char, start: int, end: int, upto: int)
    requires
        0 <= start <= upto <= end <= t.len(),
    ensures
        spec_last_index_before(t.subrange(start, end), c, upto - start) == if spec_last_index_before(
            t,
            c,
            upto,
        ) >= start {
            spec_last_index_before(t, c, upto) - start
        } else {
            -1
        },
    decreases upto - start,
{
    lemma_last_index_before(t, c, upto);
    if upto > start {
        if t[upto - 1] != c {
            lemma_last_index_in_range(t, c, start, end, upto - 1);
        }
    } else {
        lemma_last_index_before(t, c, start);
    }
}

/// Neither the file name of a path nor its stem holds a separator.
pub proof fn lemma_file_name_has_no_separator(p: Seq<char>)
    ensures
        spec_locator_file_name(p) matches Some(name) ==> forall|k: int|
            0 <= k < name.len() ==> name[k] != '/',
        spec_locator_stem(p) matches Some(stem) ==> forall|k: int|
            0 <= k < stem.len() ==> stem[k] != '/',
{
    let q = spec_trim_path(p);
    lemma_last_index_before(q, '/', q.len() as int);
    if spec_locator_file_name(p).is_some() {
        let name = spec_locator_file_name(p).unwrap();
        lemma_last_index_before(name, '.', name.len() as int);
    }
}

} // verus!
