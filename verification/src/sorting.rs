//! Stable sorting by an integer key.
use vstd::prelude::*;

verus! {

/// A value that is ordered by an integer key.
pub trait SortKey {
    spec fn sort_key(&self) -> int;

    fn exec_sort_key(&self) -> (k: i64)
        ensures
            k as int == self.sort_key(),
    ;
}

/// The predicate "has key `k`".
pub open spec fn with_key<T: SortKey>(k: int) -> spec_fn(T) -> bool {
    |x: T| x.sort_key() == k
}

/// Keys never decrease along the sequence.
pub open spec fn sorted_by_key<T: SortKey>(s: Seq<T>) -> bool {
    forall|i: int, j: int| 0 <= i <= j < s.len() ==> s[i].sort_key() <= s[j].sort_key()
}

/// `r` is `s` sorted by key, with values of equal key kept in the order
/// they had in `s`. Together the clauses fix `r` uniquely.
pub open spec fn is_stable_sort_of<T: SortKey>(r: Seq<T>, s: Seq<T>) -> bool {
    &&& sorted_by_key(r)
    &&& forall|k: int| #[trigger] r.filter(with_key::<T>(k)) == s.filter(with_key::<T>(k))
    &&& r.to_multiset() == s.to_multiset()
    &&& r.len() == s.len()
}

proof fn lemma_filter_none<T: SortKey>(s: Seq<T>, k: int)
    requires
        forall|i: int| 0 <= i < s.len() ==> s[i].sort_key() != k,
    ensures
        s.filter(with_key::<T>(k)) == Seq::<T>::empty(),
{
    let pred = with_key::<T>(k);
    assert(s.all(|x: T| !pred(x))) by {
        assert forall|i: int| 0 <= i < s.len() implies !pred(s[i]) by {}
    }
    s.lemma_all_neg_filter_empty(pred);
}

/// Inserting `x` before the first value whose key is at least its own keeps
/// the sequence sorted and adds `x` in front of the values of its key.
proof fn lemma_insert_keeps_order<T: SortKey>(out: Seq<T>, p: int, x: T)
    requires
        sorted_by_key(out),
        0 <= p <= out.len(),
        forall|i: int| 0 <= i < p ==> out[i].sort_key() < x.sort_key(),
        forall|i: int| p <= i < out.len() ==> out[i].sort_key() >= x.sort_key(),
    ensures
        sorted_by_key(out.insert(p, x)),
        forall|k: int|
            #[trigger] out.insert(p, x).filter(with_key::<T>(k)) == (if x.sort_key() == k {
                seq![x]
            } else {
                Seq::<T>::empty()
            }) + out.filter(with_key::<T>(k)),
{
    let r = out.insert(p, x);
    assert forall|i: int, j: int| 0 <= i <= j < r.len() implies r[i].sort_key()
        <= r[j].sort_key() by {
        if i < p && j > p {
            assert(r[j] == out[j - 1]);
        } else if i == p && j > p {
            assert(r[j] == out[j - 1]);
        } else if i > p {
            assert(r[i] == out[i - 1]);
            assert(r[j] == out[j - 1]);
        }
    }
    assert forall|k: int|
        #[trigger] out.insert(p, x).filter(with_key::<T>(k)) == (if x.sort_key() == k {
            seq![x]
        } else {
            Seq::<T>::empty()
        }) + out.filter(with_key::<T>(k)) by {
        let pred = with_key::<T>(k);
        let a = out.take(p);
        let b = out.skip(p);
        assert(out == a + b);
        assert(r == a + (seq![x] + b));
        Seq::filter_distributes_over_add(a, seq![x] + b, pred);
        Seq::filter_distributes_over_add(a, b, pred);
        b.lemma_filter_prepend(x, pred);
        if x.sort_key() == k {
            lemma_filter_none(a, k);
            assert(a.filter(pred) == Seq::<T>::empty());
            assert(r.filter(pred) == seq![x] + b.filter(pred));
            assert(out.filter(pred) == b.filter(pred));
        } else {
            assert(r.filter(pred) == a.filter(pred) + b.filter(pred));
        }
    }
}

/// A value of `a` has a key no smaller than that of `a`'s first value.
proof fn lemma_first_key_least<T: SortKey>(a: Seq<T>, y: T)
    requires
        sorted_by_key(a),
        a.len() > 0,
        a.contains(y),
    ensures
        a[0].sort_key() <= y.sort_key(),
{
    let i = choose|i: int| 0 <= i < a.len() && a[i] == y;
    assert(a[0].sort_key() <= a[i].sort_key());
}

/// Two sorted sequences that hold, key by key, the same values in the same
/// order are equal.
proof fn lemma_sorted_filters_determine<T: SortKey>(a: Seq<T>, b: Seq<T>)
    requires
        sorted_by_key(a),
        sorted_by_key(b),
        a.len() == b.len(),
        forall|k: int| #[trigger] a.filter(with_key::<T>(k)) == b.filter(with_key::<T>(k)),
    ensures
        a == b,
    decreases a.len(),
{
    if a.len() > 0 {
        let x = a[0];
        let y = b[0];
        let ta = a.drop_first();
        let tb = b.drop_first();
        assert(a == seq![x] + ta);
        assert(b == seq![y] + tb);
        let ka = x.sort_key();
        let kb = y.sort_key();
        ta.lemma_filter_prepend(x, with_key::<T>(ka));
        ta.lemma_filter_prepend(x, with_key::<T>(kb));
        tb.lemma_filter_prepend(y, with_key::<T>(ka));
        tb.lemma_filter_prepend(y, with_key::<T>(kb));
        // y is in `a`, so its key is at least `a`'s first key, and the other way round.
        assert(b.filter(with_key::<T>(kb))[0] == y);
        assert(a.filter(with_key::<T>(kb)).contains(y));
        a.lemma_filter_contains_rev(with_key::<T>(kb), y);
        lemma_first_key_least(a, y);
        assert(a.filter(with_key::<T>(ka))[0] == x);
        assert(b.filter(with_key::<T>(ka)).contains(x));
        b.lemma_filter_contains_rev(with_key::<T>(ka), x);
        lemma_first_key_least(b, x);
        assert(ka == kb);
        assert(x == y);
        assert forall|k: int| #[trigger] ta.filter(with_key::<T>(k)) == tb.filter(
            with_key::<T>(k),
        ) by {
            ta.lemma_filter_prepend(x, with_key::<T>(k));
            tb.lemma_filter_prepend(y, with_key::<T>(k));
            if k == ka {
                assert(a.filter(with_key::<T>(k)) == seq![x] + ta.filter(with_key::<T>(k)));
                assert(b.filter(with_key::<T>(k)) == seq![x] + tb.filter(with_key::<T>(k)));
                assert(ta.filter(with_key::<T>(k)) == (seq![x] + ta.filter(
                    with_key::<T>(k),
                )).drop_first());
                assert(tb.filter(with_key::<T>(k)) == (seq![x] + tb.filter(
                    with_key::<T>(k),
                )).drop_first());
            } else {
                assert(a.filter(with_key::<T>(k)) == ta.filter(with_key::<T>(k)));
                assert(b.filter(with_key::<T>(k)) == tb.filter(with_key::<T>(k)));
            }
        }
        assert(sorted_by_key(ta)) by {
            assert forall|i: int, j: int| 0 <= i <= j < ta.len() implies ta[i].sort_key()
                <= ta[j].sort_key() by {
                assert(ta[i] == a[i + 1]);
                assert(ta[j] == a[j + 1]);
            }
        }
        assert(sorted_by_key(tb)) by {
            assert forall|i: int, j: int| 0 <= i <= j < tb.len() implies tb[i].sort_key()
                <= tb[j].sort_key() by {
                assert(tb[i] == b[i + 1]);
                assert(tb[j] == b[j + 1]);
            }
        }
        lemma_sorted_filters_determine(ta, tb);
    }
}

/// A stable sort has exactly one result: two sequences that are both a
/// stable sort of `s` are equal.
pub proof fn lemma_stable_sort_unique<T: SortKey>(r1: Seq<T>, r2: Seq<T>, s: Seq<T>)
    requires
        is_stable_sort_of(r1, s),
        is_stable_sort_of(r2, s),
    ensures
        r1 == r2,
{
    assert forall|k: int| #[trigger] r1.filter(with_key::<T>(k)) == r2.filter(
        with_key::<T>(k),
    ) by {
        assert(r1.filter(with_key::<T>(k)) == s.filter(with_key::<T>(k)));
        assert(r2.filter(with_key::<T>(k)) == s.filter(with_key::<T>(k)));
    }
    lemma_sorted_filters_determine(r1, r2);
}

/// Re-sorting a stable sort of `s` with one more value appended gives a
/// stable sort of `s` with that value appended.
pub proof fn lemma_stable_sort_of_push<T: SortKey>(r1: Seq<T>, s: Seq<T>, x: T, r2: Seq<T>)
    requires
        is_stable_sort_of(r1, s),
        is_stable_sort_of(r2, r1.push(x)),
    ensures
        is_stable_sort_of(r2, s.push(x)),
{
    assert forall|k: int| #[trigger] r2.filter(with_key::<T>(k)) == s.push(x).filter(
        with_key::<T>(k),
    ) by {
        r1.lemma_filter_push(x, with_key::<T>(k));
        s.lemma_filter_push(x, with_key::<T>(k));
        assert(r1.filter(with_key::<T>(k)) == s.filter(with_key::<T>(k)));
    }
    vstd::seq_lib::to_multiset_build(r1, x);
    vstd::seq_lib::to_multiset_build(s, x);
}

/// Sorts `v` by key, keeping values of equal key in the order they came in.
pub fn stable_sort_by_key<T: SortKey>(v: Vec<T>) -> (r: Vec<T>)
    ensures
        is_stable_sort_of(r@, v@),
{
    let ghost orig = v@;
    let mut input = v;
    let mut out: Vec<T> = Vec::new();
    assert(orig.skip(orig.len() as int) == Seq::<T>::empty());
    while input.len() > 0
        invariant
            input@ == orig.take(input.len() as int),
            input.len() <= orig.len(),
            sorted_by_key(out@),
            forall|k: int| #[trigger]
                out@.filter(with_key::<T>(k)) == orig.skip(input.len() as int).filter(
                    with_key::<T>(k),
                ),
            out@.to_multiset() == orig.skip(input.len() as int).to_multiset(),
            out@.len() == orig.len() - input.len(),
        decreases input.len(),
    {
        let ghost n1 = input.len() as int;
        let x = input.pop().unwrap();
        let n = input.len();
        let kx = x.exec_sort_key();
        let mut p: usize = 0;
        while p < out.len() && out[p].exec_sort_key() < kx
            invariant
                p <= out.len(),
                forall|i: int| 0 <= i < p ==> out@[i].sort_key() < x.sort_key(),
                kx as int == x.sort_key(),
            decreases out.len() - p,
        {
            p = p + 1;
        }
        proof {
            assert forall|i: int| p <= i < out@.len() implies out@[i].sort_key()
                >= x.sort_key() by {
                assert(out@[p as int].sort_key() <= out@[i].sort_key());
            }
            lemma_insert_keeps_order(out@, p as int, x);
            assert(x == orig[n as int]);
            assert(orig.skip(n as int) == seq![x] + orig.skip(n1));
            assert(seq![x] + orig.skip(n1) == orig.skip(n1).insert(0, x));
            vstd::seq_lib::to_multiset_insert(orig.skip(n1), 0, x);
            vstd::seq_lib::to_multiset_insert(out@, p as int, x);
            assert forall|k: int| #[trigger]
                out@.insert(p as int, x).filter(with_key::<T>(k)) == orig.skip(
                    n as int,
                ).filter(with_key::<T>(k)) by {
                orig.skip(n1).lemma_filter_prepend(x, with_key::<T>(k));
            }
        }
        out.insert(p, x);
    }
    assert(orig.skip(0) == orig);
    out
}

} // verus!
