//! The artifact pipeline: parsing the captured artifact listing into
//! package paths, excluding secondary-architecture packages the host cannot
//! support, and de-duplicating package lists.

use vstd::prelude::*;
use crate::strutil::{
    file_name,
    file_part,
    lemma_seq_lt_connex,
    lemma_seq_lt_irreflexive,
    lemma_seq_lt_transitive,
    prefix_of,
    seq_lt,
    starts_with,
    str_eq,
    str_lt,
    trim,
    trimmed,
};

verus! {

/// The raw lines of `s`: the chunks between newline characters, in order.
/// Always non-empty; the last element is the (possibly unfinished) line
/// after the final newline.
pub open spec fn spec_raw_lines(s: Seq<char>) -> Seq<Seq<char>>
    decreases s.len(),
{
    if s.len() == 0 {
        seq![Seq::empty()]
    } else {
        let rest = spec_raw_lines(s.drop_last());
        if s.last() == '\n' {
            rest.push(Seq::empty())
        } else {
            rest.update(rest.len() - 1, rest.last().push(s.last()))
        }
    }
}

proof fn lemma_raw_lines_nonempty(s: Seq<char>)
    ensures
        spec_raw_lines(s).len() >= 1,
    decreases s.len(),
{
    if s.len() > 0 {
        lemma_raw_lines_nonempty(s.drop_last());
    }
}

/// Trims every raw line and keeps the non-empty results, in order.
pub open spec fn spec_clean_lines(raws: Seq<Seq<char>>) -> Seq<Seq<char>>
    decreases raws.len(),
{
    if raws.len() == 0 {
        Seq::empty()
    } else {
        let rest = spec_clean_lines(raws.drop_last());
        let t = trimmed(raws.last());
        if t.len() > 0 {
            rest.push(t)
        } else {
            rest
        }
    }
}

/// What the captured artifact listing denotes: one package path per
/// non-blank line, whitespace-trimmed, in order of appearance.
pub open spec fn spec_package_lines(s: Seq<char>) -> Seq<Seq<char>> {
    spec_clean_lines(spec_raw_lines(s))
}

/// Parses the captured output of the artifact-listing step: one package
/// path per non-blank line, each trimmed of surrounding whitespace.
pub fn parse_package_list(out: &str) -> (r: Vec<String>)
    ensures
        r.deep_view() == spec_package_lines(out@),
{
    let len = out.unicode_len();
    let mut res: Vec<String> = Vec::new();
    let mut start: usize = 0;
    let mut i: usize = 0;
    proof {
        assert(out@.take(0) =~= Seq::<char>::empty());
    }
    while i < len
        invariant
            len == out@.len(),
            start <= i <= len,
            spec_raw_lines(out@.take(i as int)).last() =~= out@.subrange(
                start as int,
                i as int,
            ),
            res.deep_view() == spec_clean_lines(
                spec_raw_lines(out@.take(i as int)).drop_last(),
            ),
        decreases len - i,
    {
        proof {
            lemma_raw_lines_nonempty(out@.take(i as int));
            assert(out@.take(i + 1 as int).drop_last() =~= out@.take(i as int));
            assert(out@.take(i + 1 as int).last() == out@[i as int]);
        }
        let c = out.get_char(i);
        if c == '\n' {
            let line = trim(out.substring_char(start, i));
            if line.unicode_len() > 0 {
                res.push(String::from_str(line));
            }
            proof {
                let raw = spec_raw_lines(out@.take(i as int));
                let raw2 = spec_raw_lines(out@.take(i + 1 as int));
                assert(raw2 == raw.push(Seq::<char>::empty()));
                assert(raw2.drop_last() =~= raw);
                assert(raw2.last() =~= out@.subrange(i + 1 as int, i + 1 as int));
            }
            start = i + 1;
        } else {
            proof {
                let raw = spec_raw_lines(out@.take(i as int));
                let raw2 = spec_raw_lines(out@.take(i + 1 as int));
                assert(raw2 == raw.update(raw.len() - 1, raw.last().push(out@[i as int])));
                assert(raw2.drop_last() =~= raw.drop_last());
                assert(raw2.last() =~= out@.subrange(start as int, i + 1 as int));
            }
        }
        i = i + 1;
    }
    let line = trim(out.substring_char(start, len));
    if line.unicode_len() > 0 {
        res.push(String::from_str(line));
    }
    proof {
        lemma_raw_lines_nonempty(out@.take(len as int));
        assert(out@.take(len as int) =~= out@);
        let raw = spec_raw_lines(out@);
        assert(spec_clean_lines(raw) == if trimmed(raw.last()).len() > 0 {
            spec_clean_lines(raw.drop_last()).push(trimmed(raw.last()))
        } else {
            spec_clean_lines(raw.drop_last())
        });
    }
    res
}

/// A package path whose file name carries the secondary-architecture
/// marker prefix.
pub open spec fn is_secondary_arch(p: Seq<char>) -> bool {
    prefix_of("lib32-"@, file_part(p))
}

/// The packages kept for installation: all of them when the host supports
/// the secondary architecture, otherwise those without its marker.
pub open spec fn spec_filter_packages(pkgs: Seq<Seq<char>>, multilib: bool) -> Seq<Seq<char>>
    decreases pkgs.len(),
{
    if multilib {
        pkgs
    } else if pkgs.len() == 0 {
        pkgs
    } else {
        let rest = spec_filter_packages(pkgs.drop_last(), multilib);
        if is_secondary_arch(pkgs.last()) {
            rest
        } else {
            rest.push(pkgs.last())
        }
    }
}

/// Drops every package whose file name carries the secondary-architecture
/// marker, unless the host supports that architecture, in which case the
/// input is returned unchanged.
pub fn filter_multilib_packages(pkgs: Vec<String>, multilib: bool) -> (r: Vec<String>)
    ensures
        r.deep_view() == spec_filter_packages(pkgs.deep_view(), multilib),
        multilib ==> r.deep_view() == pkgs.deep_view(),
{
    if multilib {
        return pkgs;
    }
    let mut res: Vec<String> = Vec::new();
    let mut i: usize = 0;
    proof {
        assert(pkgs.deep_view().take(0) =~= Seq::<Seq<char>>::empty());
    }
    while i < pkgs.len()
        invariant
            i <= pkgs.len(),
            pkgs.deep_view().len() == pkgs.len(),
            res.deep_view() == spec_filter_packages(pkgs.deep_view().take(i as int), false),
        decreases pkgs.len() - i,
    {
        let p: &String = &pkgs[i];
        proof {
            assert(pkgs.deep_view().take(i + 1 as int).drop_last() =~= pkgs.deep_view().take(
                i as int,
            ));
            assert(pkgs.deep_view().take(i + 1 as int).last() == p@);
        }
        if !starts_with(file_name(p.as_str()), "lib32-") {
            res.push(p.clone());
        }
        i = i + 1;
    }
    proof {
        assert(pkgs.deep_view().take(pkgs.len() as int) =~= pkgs.deep_view());
    }
    res
}

/// A strictly ascending sequence of package paths, in the code-point
/// lexicographic order.
pub open spec fn strictly_sorted(s: Seq<Seq<char>>) -> bool {
    forall|i: int, j: int| 0 <= i < j < s.len() ==> seq_lt(s[i], s[j])
}

proof fn lemma_sorted_no_duplicates(s: Seq<Seq<char>>)
    requires
        strictly_sorted(s),
    ensures
        s.no_duplicates(),
{
    assert forall|i: int, j: int|
        0 <= i < s.len() && 0 <= j < s.len() && i != j implies s[i] != s[j] by {
        if s[i] == s[j] {
            lemma_seq_lt_irreflexive(s[i]);
        }
    }
}

proof fn lemma_push_contains(s: Seq<Seq<char>>, v: Seq<char>)
    ensures
        forall|p: Seq<char>| s.push(v).contains(p) <==> (s.contains(p) || p == v),
{
    assert forall|p: Seq<char>| s.push(v).contains(p) implies (s.contains(p) || p == v) by {
        let t = choose|t: int| 0 <= t < s.push(v).len() && s.push(v)[t] == p;
        if t < s.len() {
            assert(s[t] == p);
        }
    }
    assert forall|p: Seq<char>| s.contains(p) || p == v implies s.push(v).contains(p) by {
        if s.contains(p) {
            let t = choose|t: int| 0 <= t < s.len() && s[t] == p;
            assert(s.push(v)[t] == p);
        } else {
            assert(s.push(v)[s.len() as int] == p);
        }
    }
}

/// Inserts `x` into the sorted `v` at its place, unless an equal path is
/// already there.
fn insert_unique_sorted(v: Vec<String>, x: String) -> (r: Vec<String>)
    requires
        strictly_sorted(v.deep_view()),
    ensures
        strictly_sorted(r.deep_view()),
        forall|p: Seq<char>|
            r.deep_view().contains(p) <==> (v.deep_view().contains(p) || p == x@),
{
    let ghost dv = v.deep_view();
    let mut k: usize = 0;
    while k < v.len() && str_lt(v[k].as_str(), x.as_str())
        invariant
            k <= v@.len(),
            dv == v.deep_view(),
            dv.len() == v@.len(),
            forall|j: int| 0 <= j < k ==> seq_lt(dv[j], x@),
        decreases v@.len() - k,
    {
        k = k + 1;
    }
    if k < v.len() && str_eq(v[k].as_str(), x.as_str()) {
        proof {
            assert(dv[k as int] == x@);
            assert(dv.contains(x@));
        }
        return v;
    }
    proof {
        if k < dv.len() {
            if !seq_lt(x@, dv[k as int]) {
                lemma_seq_lt_connex(dv[k as int], x@);
            }
            assert(seq_lt(x@, dv[k as int]));
        }
    }
    let mut r: Vec<String> = Vec::new();
    let mut j: usize = 0;
    proof {
        assert(dv.take(0) =~= Seq::<Seq<char>>::empty());
    }
    while j < k
        invariant
            j <= k <= v@.len(),
            dv == v.deep_view(),
            dv.len() == v@.len(),
            r.deep_view() == dv.take(j as int),
        decreases k - j,
    {
        let p: &String = &v[j];
        r.push(p.clone());
        proof {
            assert(dv.take(j + 1 as int) =~= dv.take(j as int).push(p@));
        }
        j = j + 1;
    }
    r.push(x);
    proof {
        assert(dv.subrange(k as int, k as int) =~= Seq::<Seq<char>>::empty());
        assert(r.deep_view() =~= dv.take(k as int).push(x@) + dv.subrange(k as int, k as int));
    }
    let mut m: usize = k;
    while m < v.len()
        invariant
            k <= m <= v@.len(),
            dv == v.deep_view(),
            dv.len() == v@.len(),
            r.deep_view() == dv.take(k as int).push(x@) + dv.subrange(k as int, m as int),
        decreases v@.len() - m,
    {
        let p: &String = &v[m];
        r.push(p.clone());
        proof {
            assert(dv.take(k as int).push(x@) + dv.subrange(k as int, m + 1 as int)
                =~= (dv.take(k as int).push(x@) + dv.subrange(k as int, m as int)).push(p@));
        }
        m = m + 1;
    }
    proof {
        let rdv = r.deep_view();
        assert(rdv =~= dv.take(k as int).push(x@) + dv.subrange(k as int, dv.len() as int));
        assert(rdv.len() == dv.len() + 1);
        assert(forall|t: int| 0 <= t < k ==> rdv[t] == dv[t]);
        assert(rdv[k as int] == x@);
        assert(forall|t: int| k < t < rdv.len() ==> rdv[t] == dv[t - 1]);
        assert forall|i1: int, i2: int|
            0 <= i1 < i2 < rdv.len() implies seq_lt(rdv[i1], rdv[i2]) by {
            if i2 < k {
            } else if i2 == k {
                assert(seq_lt(dv[i1], x@));
            } else if i1 == k {
                if i2 - 1 > k {
                    lemma_seq_lt_transitive(x@, dv[k as int], dv[i2 - 1]);
                }
            }
        }
        assert forall|p: Seq<char>| rdv.contains(p) implies (dv.contains(p) || p == x@) by {
            let t = choose|t: int| 0 <= t < rdv.len() && rdv[t] == p;
            if t < k {
                assert(dv[t] == p);
            } else if t > k {
                assert(dv[t - 1] == p);
            }
        }
        assert forall|p: Seq<char>| dv.contains(p) || p == x@ implies rdv.contains(p) by {
            if dv.contains(p) {
                let t = choose|t: int| 0 <= t < dv.len() && dv[t] == p;
                if t < k {
                    assert(rdv[t] == p);
                } else {
                    assert(rdv[t + 1] == p);
                }
            } else {
                assert(rdv[k as int] == p);
            }
        }
    }
    r
}

/// Removes duplicate package paths and returns the distinct ones in
/// ascending lexicographic order.
pub fn dedup_packages(pkgs: Vec<String>) -> (r: Vec<String>)
    ensures
        strictly_sorted(r.deep_view()),
        r.deep_view().no_duplicates(),
        forall|p: Seq<char>| r.deep_view().contains(p) <==> pkgs.deep_view().contains(p),
{
    let ghost pdv = pkgs.deep_view();
    let mut res: Vec<String> = Vec::new();
    let mut i: usize = 0;
    proof {
        assert(pdv.take(0) =~= Seq::<Seq<char>>::empty());
    }
    while i < pkgs.len()
        invariant
            i <= pkgs@.len(),
            pdv == pkgs.deep_view(),
            pdv.len() == pkgs@.len(),
            strictly_sorted(res.deep_view()),
            forall|p: Seq<char>|
                res.deep_view().contains(p) <==> pdv.take(i as int).contains(p),
        decreases pkgs@.len() - i,
    {
        let x: &String = &pkgs[i];
        proof {
            assert(pdv[i as int] == x@);
        }
        res = insert_unique_sorted(res, x.clone());
        proof {
            assert(pdv.take(i + 1 as int) =~= pdv.take(i as int).push(pdv[i as int]));
            lemma_push_contains(pdv.take(i as int), pdv[i as int]);
        }
        i = i + 1;
    }
    proof {
        assert(pdv.take(pdv.len() as int) =~= pdv);
        lemma_sorted_no_duplicates(res.deep_view());
    }
    res
}

} // verus!
