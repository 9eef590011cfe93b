//! Header listings and the mapping they denote.
//!
//! Requests and responses carry headers as a listing of name/value pairs.
//! The mapping a listing denotes associates each name with the value of its
//! last occurrence; a normalized listing holds each name once.

use vstd::prelude::*;

verus! {

/// A header listing holds each header name at most once.
pub open spec fn unique_keys(hs: Seq<(Seq<char>, Seq<char>)>) -> bool {
    forall|i: int, j: int| 0 <= i < j < hs.len() ==> (#[trigger] hs[i]).0 != (#[trigger] hs[j]).0
}

/// The value a header listing associates with the name `k`: the value of
/// the last pair carrying `k`, or nothing if no pair does.
pub open spec fn header_lookup(hs: Seq<(Seq<char>, Seq<char>)>, k: Seq<char>) -> Option<
    Seq<char>,
>
    decreases hs.len(),
{
    if hs.len() == 0 {
        None
    } else if hs.last().0 == k {
        Some(hs.last().1)
    } else {
        header_lookup(hs.drop_last(), k)
    }
}

/// The mapping a header listing denotes: each name present in the listing,
/// to the value of its last occurrence.
pub open spec fn headers_as_map(hs: Seq<(Seq<char>, Seq<char>)>) -> Map<Seq<char>, Seq<char>> {
    Map::new(
        |k: Seq<char>| header_lookup(hs, k) is Some,
        |k: Seq<char>| header_lookup(hs, k).unwrap(),
    )
}

/// A name has no value exactly when no pair of the listing carries it.
pub proof fn lemma_header_lookup_none(hs: Seq<(Seq<char>, Seq<char>)>, k: Seq<char>)
    ensures
        (header_lookup(hs, k) is None) <==> (forall|i: int|
            0 <= i < hs.len() ==> (#[trigger] hs[i]).0 != k),
    decreases hs.len(),
{
    if hs.len() > 0 {
        lemma_header_lookup_none(hs.drop_last(), k);
        assert(forall|i: int|
            0 <= i < hs.len() - 1 ==> hs.drop_last()[i] == #[trigger] hs[i]);
        assert(hs.last() == hs[hs.len() - 1]);
    }
}

/// Prepending a pair changes no name the rest of the listing already
/// carries, and gives a name only the prepended pair carries that pair's
/// value.
pub proof fn lemma_header_lookup_prepend(
    p: (Seq<char>, Seq<char>),
    t: Seq<(Seq<char>, Seq<char>)>,
    k: Seq<char>,
)
    ensures
        header_lookup(seq![p] + t, k) == (if header_lookup(t, k) is Some {
            header_lookup(t, k)
        } else if p.0 == k {
            Some(p.1)
        } else {
            None::<Seq<char>>
        }),
    decreases t.len(),
{
    let s = seq![p] + t;
    if t.len() == 0 {
        assert(s =~= seq![p]);
        assert(s.last() == p);
        assert(s.drop_last() =~= Seq::<(Seq<char>, Seq<char>)>::empty());
    } else {
        assert(s.last() == t.last());
        assert(s.drop_last() =~= seq![p] + t.drop_last());
        lemma_header_lookup_prepend(p, t.drop_last(), k);
    }
}

/// A later occurrence of a header name wins: appending a pair makes its
/// value the one its name maps to, and leaves every other name untouched.
pub proof fn lemma_later_header_wins(hs: Seq<(Seq<char>, Seq<char>)>, p: (Seq<char>, Seq<char>))
    ensures
        headers_as_map(hs.push(p)).dom().contains(p.0),
        headers_as_map(hs.push(p))[p.0] == p.1,
        forall|k: Seq<char>| k != p.0 ==> header_lookup(hs.push(p), k) == header_lookup(hs, k),
{
    assert(hs.push(p).last() == p);
    assert(hs.push(p).drop_last() =~= hs);
}

/// With unique names, the mapping is the listing's graph: each pair's name
/// maps to exactly that pair's value.
pub proof fn lemma_unique_header_graph(hs: Seq<(Seq<char>, Seq<char>)>)
    requires
        unique_keys(hs),
    ensures
        forall|i: int|
            0 <= i < hs.len() ==> headers_as_map(hs).dom().contains((#[trigger] hs[i]).0)
                && headers_as_map(hs)[hs[i].0] == hs[i].1,
    decreases hs.len(),
{
    if hs.len() > 0 {
        assert(forall|i: int|
            0 <= i < hs.len() - 1 ==> hs.drop_last()[i] == #[trigger] hs[i]);
        lemma_unique_header_graph(hs.drop_last());
        assert(hs.last() == hs[hs.len() - 1]);
        assert forall|i: int| 0 <= i < hs.len() implies headers_as_map(hs).dom().contains(
            (#[trigger] hs[i]).0,
        ) && headers_as_map(hs)[hs[i].0] == hs[i].1 by {
            if i < hs.len() - 1 {
                assert(hs[i].0 != hs[hs.len() - 1].0);
                assert(header_lookup(hs, hs[i].0) == header_lookup(hs.drop_last(), hs[i].0));
            }
        }
    }
}

/// Is `k` one of the names of `hs`?
fn has_header_key(hs: &Vec<(String, String)>, k: &String) -> (r: bool)
    ensures
        r == (header_lookup(hs.deep_view(), k@) is Some),
{
    let ghost dv = hs.deep_view();
    let mut j: usize = hs.len();
    proof {
        assert(dv.take(j as int) =~= dv);
    }
    while j > 0
        invariant
            j <= hs.len(),
            dv == hs.deep_view(),
            header_lookup(dv, k@) == header_lookup(dv.take(j as int), k@),
        decreases j,
    {
        proof {
            assert(dv[j - 1] == (hs@[j - 1].0@, hs@[j - 1].1@));
            assert(dv.take(j as int).last() == dv[j - 1]);
        }
        if hs[j - 1].0 == *k {
            return true;
        }
        proof {
            assert(dv.take(j as int).drop_last() =~= dv.take(j as int - 1));
        }
        j = j - 1;
    }
    proof {
        assert(dv.take(0) =~= Seq::<(Seq<char>, Seq<char>)>::empty());
    }
    false
}

/// Collapse a header listing to unique names, each carrying the value of
/// its last occurrence; the mapping the listing denotes is unchanged.
pub fn collapse_headers(hs: Vec<(String, String)>) -> (r: Vec<(String, String)>)
    ensures
        unique_keys(r.deep_view()),
        forall|k: Seq<char>|
            header_lookup(r.deep_view(), k) == header_lookup(hs.deep_view(), k),
{
    let ghost dv = hs.deep_view();
    let mut out: Vec<(String, String)> = Vec::new();
    let mut i: usize = hs.len();
    proof {
        assert(dv.skip(i as int) =~= Seq::<(Seq<char>, Seq<char>)>::empty());
        assert(out.deep_view() =~= Seq::<(Seq<char>, Seq<char>)>::empty());
    }
    while i > 0
        invariant
            i <= hs.len(),
            dv == hs.deep_view(),
            unique_keys(out.deep_view()),
            forall|k: Seq<char>|
                header_lookup(out.deep_view(), k) == header_lookup(dv.skip(i as int), k),
        decreases i,
    {
        let ghost prev = out.deep_view();
        let ghost p = dv[i - 1];
        proof {
            assert(p == (hs@[i - 1].0@, hs@[i - 1].1@));
            assert(dv.skip(i as int - 1) =~= seq![p] + dv.skip(i as int));
        }
        let key = hs[i - 1].0.clone();
        let value = hs[i - 1].1.clone();
        let present = has_header_key(&out, &key);
        if !present {
            proof {
                lemma_header_lookup_none(prev, key@);
            }
            out.push((key, value));
            proof {
                assert(key@ == p.0 && value@ == p.1);
                assert(out.deep_view() =~= prev.push(p));
                assert(out.deep_view().last() == p);
                assert(out.deep_view().drop_last() =~= prev);
                assert forall|k: Seq<char>|
                    header_lookup(out.deep_view(), k) == header_lookup(
                        dv.skip(i as int - 1),
                        k,
                    ) by {
                    lemma_header_lookup_prepend(p, dv.skip(i as int), k);
                    if p.0 == k {
                        assert(header_lookup(prev, k) is None);
                        assert(header_lookup(dv.skip(i as int), k) is None);
                        assert(header_lookup(out.deep_view(), k) == Some(p.1));
                    } else {
                        assert(header_lookup(out.deep_view(), k) == header_lookup(prev, k));
                    }
                }
            }
        } else {
            proof {
                assert forall|k: Seq<char>|
                    header_lookup(out.deep_view(), k) == header_lookup(
                        dv.skip(i as int - 1),
                        k,
                    ) by {
                    lemma_header_lookup_prepend(p, dv.skip(i as int), k);
                }
            }
        }
        i = i - 1;
    }
    proof {
        assert(dv.skip(0) =~= dv);
    }
    out
}

} // verus!
