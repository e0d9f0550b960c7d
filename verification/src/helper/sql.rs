//! Finding storage locators in the text of a SQL statement.
//!
//! A locator is written inside double quotes and starts with a protocol prefix,
//! `s3://` or `file://`, followed by at least one character. The scan runs left
//! to right; a closing quote is never reused as the opening quote of the next
//! locator. Quotes cannot be escaped inside a locator.

use crate::text::{
    chars_have_prefix_at, has_prefix_at, index_from, lemma_index_from, spec_index_from, str_chars,
    strs_view,
};
use vstd::prelude::*;

verus! {

/// The double quote that delimits a locator.
pub open spec fn spec_quote() -> char {
    '"'
}

/// The length of the protocol prefix that starts at `at`, or 0 when neither
/// `s3://` nor `file://` starts there.
pub open spec fn spec_prefix_len(t: Seq<char>, at: int) -> int {
    if has_prefix_at(t, at, "s3://"@) {
        "s3://"@.len() as int
    } else if has_prefix_at(t, at, "file://"@) {
        "file://"@.len() as int
    } else {
        0
    }
}

/// `t[open]` and `t[close]` are the quotes around a locator: a protocol prefix
/// follows the opening quote, at least one more character follows the prefix,
/// and no quote stands between the two.
pub open spec fn is_locator_between(t: Seq<char>, open: int, close: int) -> bool {
    &&& 0 <= open < close < t.len()
    &&& t[open] == spec_quote()
    &&& t[close] == spec_quote()
    &&& spec_prefix_len(t, open + 1) > 0
    &&& open + 1 + spec_prefix_len(t, open + 1) < close
    &&& forall|k: int| open < k < close ==> t[k] != spec_quote()
}

/// The index of the quote that closes the locator opening at `open`, if a
/// locator opens there.
pub open spec fn spec_locator_close(t: Seq<char>, open: int) -> Option<int> {
    if 0 <= open < t.len() && t[open] == spec_quote() && spec_prefix_len(t, open + 1) > 0 {
        let body = open + 1 + spec_prefix_len(t, open + 1);
        let close = spec_index_from(t, spec_quote(), body);
        if body < close < t.len() {
            Some(close)
        } else {
            None
        }
    } else {
        None
    }
}

/// The locators found from index `from` on, in order of appearance.
pub open spec fn spec_locators_from(t: Seq<char>, from: int) -> Seq<Seq<char>>
    decreases t.len() - from,
{
    if from < 0 || from >= t.len() {
        Seq::empty()
    } else {
        match spec_locator_close(t, from) {
            // A closing quote lies to the right of its opening quote, so the
            // scan always moves on.
            Some(close) => if close > from {
                seq![t.subrange(from + 1, close)] + spec_locators_from(t, close + 1)
            } else {
                Seq::empty()
            },
            None => spec_locators_from(t, from + 1),
        }
    }
}

/// The locators of a statement: every quoted, protocol-prefixed substring, left
/// to right, duplicates kept.
pub open spec fn spec_sql_parser(t: Seq<char>) -> Seq<Seq<char>> {
    spec_locators_from(t, 0)
}

/// A locator opens at `open` and closes at `close` exactly when the scan, looking
/// at `open`, finds `close`.
pub proof fn lemma_locator_close(t: Seq<char>, open: int, close: int)
    ensures
        is_locator_between(t, open, close) <==> spec_locator_close(t, open) == Some(close),
{
    if 0 <= open < t.len() && t[open] == spec_quote() && spec_prefix_len(t, open + 1) > 0 {
        let body = open + 1 + spec_prefix_len(t, open + 1);
        assert(body <= t.len()) by {
            if has_prefix_at(t, open + 1, "s3://"@) {
            } else {
                assert(has_prefix_at(t, open + 1, "file://"@));
            }
        }
        lemma_index_from(t, spec_quote(), body);
        let found = spec_index_from(t, spec_quote(), body);
        if is_locator_between(t, open, close) {
            assert(found == close) by {
                if found < close {
                    assert(t[found] == spec_quote());
                }
            }
        }
        if spec_locator_close(t, open) == Some(close) {
            assert forall|k: int| open < k < close implies t[k] != spec_quote() by {
                if k < body {
                    lemma_prefix_has_no_quote(t, open + 1, k);
                }
            }
        }
    }
}

/// No character of a protocol prefix is a quote.
pub proof fn lemma_prefix_has_no_quote(t: Seq<char>, at: int, k: int)
    requires
        spec_prefix_len(t, at) > 0,
        at <= k < at + spec_prefix_len(t, at),
    ensures
        t[k] != spec_quote(),
{
    reveal_strlit("s3://");
    reveal_strlit("file://");
    if has_prefix_at(t, at, "s3://"@) {
        assert(t[k] == t.subrange(at, at + 5)[k - at]);
    } else {
        assert(has_prefix_at(t, at, "file://"@));
        assert(t[k] == t.subrange(at, at + 7)[k - at]);
    }
}

/// A statement without any quoted, protocol-prefixed substring yields no
/// locator, and a statement that yields none holds no such substring.
pub proof fn law_no_locator_iff_empty(t: Seq<char>)
    ensures
        spec_sql_parser(t).len() == 0 <==> forall|open: int, close: int|
            !is_locator_between(t, open, close),
{
    lemma_empty_scan(t, 0);
}

/// The scan from `from` finds nothing exactly when no locator opens at or after
/// `from`.
pub proof fn lemma_empty_scan(t: Seq<char>, from: int)
    requires
        0 <= from,
    ensures
        spec_locators_from(t, from).len() == 0 <==> forall|open: int, close: int|
            from <= open ==> !is_locator_between(t, open, close),
    decreases t.len() - from,
{
    if from < t.len() {
        match spec_locator_close(t, from) {
            Some(close) => {
                lemma_locator_close(t, from, close);
            },
            None => {
                lemma_empty_scan(t, from + 1);
                assert forall|open: int, close: int| from <= open implies (!is_locator_between(
                    t,
                    open,
                    close,
                ) <==> (from + 1 <= open ==> !is_locator_between(t, open, close))) by {
                    if open == from {
                        lemma_locator_close(t, from, close);
                    }
                }
            },
        }
    }
}

/// Every locator found is the text between the quotes of a quoted,
/// protocol-prefixed substring, and later results stand further right: the
/// `i`-th result opens after the `(i-1)`-th has closed. Nothing is missed but
/// what overlaps a result: a quoted, protocol-prefixed substring that is not
/// among the results opens with the quote that closes one of them.
pub proof fn law_locators_are_quoted_in_order(t: Seq<char>, from: int) -> (spans: Seq<(int, int)>)
    requires
        0 <= from,
    ensures
        spans.len() == spec_locators_from(t, from).len(),
        forall|i: int|
            0 <= i < spans.len() ==> {
                &&& from <= (#[trigger] spans[i]).0
                &&& is_locator_between(t, spans[i].0, spans[i].1)
                &&& spec_locators_from(t, from)[i] == t.subrange(spans[i].0 + 1, spans[i].1)
            },
        forall|i: int, j: int| 0 <= i < j < spans.len() ==> spans[i].1 < spans[j].0,
        forall|open: int, close: int|
            from <= open && is_locator_between(t, open, close) ==> exists|i: int|
                0 <= i < spans.len() && (#[trigger] spans[i] == (open, close) || spans[i].1
                    == open),
    decreases t.len() - from,
{
    if from >= t.len() {
        Seq::empty()
    } else {
        match spec_locator_close(t, from) {
            Some(close) => {
                lemma_locator_close(t, from, close);
                let rest = law_locators_are_quoted_in_order(t, close + 1);
                let spans = seq![(from, close)] + rest;
                assert forall|i: int| 0 <= i < spans.len() implies {
                    &&& from <= (#[trigger] spans[i]).0
                    &&& is_locator_between(t, spans[i].0, spans[i].1)
                    &&& spec_locators_from(t, from)[i] == t.subrange(spans[i].0 + 1, spans[i].1)
                } by {
                    if i > 0 {
                        assert(spans[i] == rest[i - 1]);
                    }
                }
                assert forall|i: int, j: int| 0 <= i < j < spans.len() implies spans[i].1
                    < spans[j].0 by {
                    assert(spans[j] == rest[j - 1]);
                    if i > 0 {
                        assert(spans[i] == rest[i - 1]);
                    }
                }
                assert forall|open: int, other: int|
                    from <= open && is_locator_between(t, open, other) implies exists|i: int|
                    0 <= i < spans.len() && (#[trigger] spans[i] == (open, other) || spans[i].1
                        == open) by {
                    if open == from {
                        lemma_locator_close(t, from, other);
                        assert(spans[0] == (open, other));
                    } else if open <= close {
                        assert(open == close);
                        assert(spans[0].1 == open);
                    } else {
                        let i = choose|i: int|
                            0 <= i < rest.len() && (#[trigger] rest[i] == (open, other) || rest[i].1
                                == open);
                        assert(spans[i + 1] == rest[i]);
                    }
                }
                spans
            },
            None => {
                let spans = law_locators_are_quoted_in_order(t, from + 1);
                assert forall|open: int, other: int|
                    from <= open && is_locator_between(t, open, other) implies exists|i: int|
                    0 <= i < spans.len() && (#[trigger] spans[i] == (open, other) || spans[i].1
                        == open) by {
                    if open == from {
                        lemma_locator_close(t, from, other);
                    }
                }
                spans
            },
        }
    }
}

/// Returns the locators written in `stm`, in order of appearance. Never fails;
/// the result is empty when the statement holds none.
pub fn sql_parser<'a>(stm: &'a str) -> (uris: Vec<&'a str>)
    ensures
        strs_view(uris@) == spec_sql_parser(stm@),
{
    let t = str_chars(stm);
    let s3 = str_chars("s3://");
    let file = str_chars("file://");
    let mut uris: Vec<&'a str> = Vec::new();
    let mut i: usize = 0;
    assert(strs_view(uris@) =~= Seq::<Seq<char>>::empty());
    while i < t.len()
        invariant
            i <= t.len(),
            t@ == stm@,
            s3@ == "s3://"@,
            file@ == "file://"@,
            strs_view(uris@) + spec_locators_from(t@, i as int) == spec_locators_from(t@, 0),
        decreases t.len() - i,
    {
        let mut close: usize = i;
        if t[i] == '"' {
            let plen: usize = if chars_have_prefix_at(&t, i + 1, &s3) {
                s3.len()
            } else if chars_have_prefix_at(&t, i + 1, &file) {
                file.len()
            } else {
                0
            };
            if plen > 0 {
                let body: usize = i + 1 + plen;
                let q = index_from(&t, '"', body);
                if body < q && q < t.len() {
                    close = q;
                }
            }
        }
        assert(close > i ==> spec_locator_close(t@, i as int) == Some(close as int));
        assert(close == i ==> spec_locator_close(t@, i as int).is_none());
        if close > i {
            let uri = stm.substring_char(i + 1, close);
            let ghost before = strs_view(uris@);
            uris.push(uri);
            assert(strs_view(uris@) =~= before + seq![t@.subrange(i + 1, close as int)]);
            assert(before + spec_locators_from(t@, i as int) =~= strs_view(uris@)
                + spec_locators_from(t@, close + 1));
            i = close + 1;
        } else {
            i += 1;
        }
    }
    assert(spec_locators_from(t@, i as int) =~= Seq::<Seq<char>>::empty());
    assert(strs_view(uris@) + Seq::<Seq<char>>::empty() =~= strs_view(uris@));
    uris
}

} // verus!
