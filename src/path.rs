//! Browse paths: collapsing repeated separators and finding the parent.
use vstd::prelude::*;
use crate::text::{chars_of, string_from, string_of_range};

verus! {

/// The separator between path segments.
pub open spec fn is_sep(c: char) -> bool {
    c == '/'
}

/// `s` with every run of separators collapsed to a single separator.
pub open spec fn collapse_seps(s: Seq<char>) -> Seq<char>
    decreases s.len(),
{
    if s.len() == 0 {
        s
    } else {
        let rest = collapse_seps(s.drop_last());
        if s.len() >= 2 && is_sep(s.last()) && is_sep(s[s.len() - 2]) {
            rest
        } else {
            rest.push(s.last())
        }
    }
}

/// No separator in `s` is directly followed by another.
pub open spec fn has_no_double_sep(s: Seq<char>) -> bool {
    forall|i: int| 0 <= i < s.len() - 1 ==> !(is_sep(#[trigger] s[i]) && is_sep(s[i + 1]))
}

/// `s` without any separators at its end.
pub open spec fn trim_end_seps(s: Seq<char>) -> Seq<char>
    decreases s.len(),
{
    if s.len() > 0 && is_sep(s.last()) {
        trim_end_seps(s.drop_last())
    } else {
        s
    }
}

/// The index of the last separator in `s`, or -1 where it has none.
pub open spec fn last_sep(s: Seq<char>) -> int
    decreases s.len(),
{
    if s.len() == 0 {
        -1
    } else if is_sep(s.last()) {
        s.len() - 1
    } else {
        last_sep(s.drop_last())
    }
}

/// The parent of a browse path: trailing separators are dropped, then the
/// last segment with the separator before it; a single segment is its own parent.
pub open spec fn parent_path(p: Seq<char>) -> Seq<char> {
    let t = trim_end_seps(p);
    if last_sep(t) >= 0 {
        t.take(last_sep(t))
    } else {
        t
    }
}

proof fn lemma_collapse_last(s: Seq<char>)
    requires
        s.len() > 0,
    ensures
        collapse_seps(s).len() > 0,
        collapse_seps(s).last() == s.last(),
    decreases s.len(),
{
    if s.len() >= 2 && is_sep(s.last()) && is_sep(s[s.len() - 2]) {
        lemma_collapse_last(s.drop_last());
    }
}

proof fn lemma_collapse_no_double(s: Seq<char>)
    ensures
        has_no_double_sep(collapse_seps(s)),
    decreases s.len(),
{
    if s.len() > 0 {
        lemma_collapse_no_double(s.drop_last());
        if s.len() >= 2 {
            lemma_collapse_last(s.drop_last());
        }
        let r = collapse_seps(s);
        let rest = collapse_seps(s.drop_last());
        assert forall|i: int| 0 <= i < r.len() - 1 implies !(is_sep(#[trigger] r[i]) && is_sep(
            r[i + 1],
        )) by {
            if !(s.len() >= 2 && is_sep(s.last()) && is_sep(s[s.len() - 2])) {
                assert(r == rest.push(s.last()));
                if i < rest.len() - 1 {
                    assert(r[i] == rest[i] && r[i + 1] == rest[i + 1]);
                }
            }
        }
    }
}

proof fn lemma_collapse_keeps(s: Seq<char>)
    requires
        has_no_double_sep(s),
    ensures
        collapse_seps(s) == s,
    decreases s.len(),
{
    if s.len() > 0 {
        let d = s.drop_last();
        assert forall|i: int| 0 <= i < d.len() - 1 implies !(is_sep(#[trigger] d[i]) && is_sep(
            d[i + 1],
        )) by {
            assert(d[i] == s[i] && d[i + 1] == s[i + 1]);
        }
        lemma_collapse_keeps(d);
        if s.len() >= 2 {
            assert(!(is_sep(s[s.len() - 2]) && is_sep(s[s.len() - 1])));
        }
        assert(d.push(s.last()) =~= s);
    }
}

/// Normalising leaves no separator directly followed by another, however many
/// were doubled; a path without doubled separators is left as it is, so
/// normalising twice gives what normalising once gave.
pub proof fn normalize_law(raw: Seq<char>)
    ensures
        has_no_double_sep(collapse_seps(raw)),
        has_no_double_sep(raw) ==> collapse_seps(raw) == raw,
        collapse_seps(collapse_seps(raw)) == collapse_seps(raw),
{
    lemma_collapse_no_double(raw);
    if has_no_double_sep(raw) {
        lemma_collapse_keeps(raw);
    }
    lemma_collapse_keeps(collapse_seps(raw));
}

/// Collapses every run of separators in `raw` into one separator.
pub fn normalize(raw: &str) -> (r: String)
    ensures
        r@ == collapse_seps(raw@),
{
    let v = chars_of(raw);
    let mut out: Vec<char> = Vec::new();
    let mut i: usize = 0;
    while i < v.len()
        invariant
            i <= v.len(),
            v@ == raw@,
            out@ == collapse_seps(v@.take(i as int)),
        decreases v.len() - i,
    {
        let c = v[i];
        proof {
            assert(v@.take(i + 1).drop_last() =~= v@.take(i as int));
        }
        if !(i >= 1 && c == '/' && v[i - 1] == '/') {
            out.push(c);
        }
        i = i + 1;
    }
    assert(v@.take(v.len() as int) =~= v@);
    string_from(&out)
}

/// The parent of `path`, the target of the "up" row of a listing.
pub fn parent_of(path: &str) -> (r: String)
    ensures
        r@ == parent_path(path@),
{
    let v = chars_of(path);
    let mut end: usize = v.len();
    assert(v@.take(end as int) =~= v@);
    while end > 0 && v[end - 1] == '/'
        invariant
            end <= v.len(),
            trim_end_seps(v@) == trim_end_seps(v@.take(end as int)),
        decreases end,
    {
        assert(v@.take(end as int).drop_last() =~= v@.take(end - 1));
        end = end - 1;
    }
    assert(trim_end_seps(v@) == v@.take(end as int));
    let mut j: usize = end;
    while j > 0 && v[j - 1] != '/'
        invariant
            j <= end <= v.len(),
            last_sep(v@.take(end as int)) == last_sep(v@.take(j as int)),
        decreases j,
    {
        assert(v@.take(j as int).drop_last() =~= v@.take(j - 1));
        j = j - 1;
    }
    if j == 0 {
        assert(v@.take(0) =~= Seq::<char>::empty());
        string_of_range(&v, 0, end)
    } else {
        assert(v@.take(end as int).take(j - 1) =~= v@.subrange(0, j - 1));
        string_of_range(&v, 0, j - 1)
    }
}

} // verus!
