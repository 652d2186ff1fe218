//! Looking values up by date.
use crate::date::Date;
use vstd::prelude::*;

verus! {

/// A value that belongs to a date.
pub trait HasDate {
    spec fn spec_date(&self) -> Date;

    fn date_of(&self) -> (d: Date)
        ensures
            d == self.spec_date(),
    ;
}

/// `i` is the first position of `s` whose date is `d`.
pub open spec fn is_first_with_date<T: HasDate>(s: Seq<T>, d: Date, i: int) -> bool {
    &&& 0 <= i < s.len()
    &&& s[i].spec_date() == d
    &&& forall|j: int| 0 <= j < i ==> #[trigger] s[j].spec_date() != d
}

/// The first position of `s` whose date is `d`, if there is one.
pub open spec fn spec_first_with_date<T: HasDate>(s: Seq<T>, d: Date) -> Option<int> {
    if exists|i: int| 0 <= i < s.len() && #[trigger] s[i].spec_date() == d {
        Some(choose|i: int| is_first_with_date(s, d, i))
    } else {
        None
    }
}

proof fn lemma_first_with_date_unique<T: HasDate>(s: Seq<T>, d: Date, i: int, k: int)
    requires
        is_first_with_date(s, d, i),
        is_first_with_date(s, d, k),
    ensures
        i == k,
{
    if i < k {
        assert(s[i].spec_date() != d);
    } else if k < i {
        assert(s[k].spec_date() != d);
    }
}

/// Characterises `spec_first_with_date` by the first position itself.
pub proof fn lemma_first_with_date<T: HasDate>(s: Seq<T>, d: Date, i: int)
    requires
        is_first_with_date(s, d, i),
    ensures
        spec_first_with_date(s, d) == Some(i),
{
    assert(s[i].spec_date() == d);
    let k = choose|k: int| is_first_with_date(s, d, k);
    lemma_first_with_date_unique(s, d, i, k);
}

proof fn lemma_exists_first_with_date<T: HasDate>(s: Seq<T>, d: Date, i: int)
    requires
        0 <= i < s.len(),
        s[i].spec_date() == d,
    ensures
        exists|k: int| is_first_with_date(s, d, k),
    decreases i,
{
    if exists|j: int| 0 <= j < i && #[trigger] s[j].spec_date() == d {
        let j = choose|j: int| 0 <= j < i && #[trigger] s[j].spec_date() == d;
        lemma_exists_first_with_date(s, d, j);
    } else {
        assert(is_first_with_date(s, d, i));
    }
}

/// `spec_first_with_date` finds the first position of `d` when `d` occurs,
/// and nothing when it does not.
pub proof fn lemma_first_with_date_found<T: HasDate>(s: Seq<T>, d: Date)
    ensures
        spec_first_with_date(s, d) matches Some(i) ==> is_first_with_date(s, d, i),
        spec_first_with_date(s, d) is None ==> forall|j: int|
            0 <= j < s.len() ==> #[trigger] s[j].spec_date() != d,
{
    if exists|i: int| 0 <= i < s.len() && #[trigger] s[i].spec_date() == d {
        let i = choose|i: int| 0 <= i < s.len() && #[trigger] s[i].spec_date() == d;
        lemma_exists_first_with_date(s, d, i);
    }
}

/// The position of the first value dated `d` (`iter().position`).
pub fn position_of_date<T: HasDate>(s: &[T], d: Date) -> (r: Option<usize>)
    ensures
        r matches Some(i) ==> spec_first_with_date(s@, d) == Some(i as int) && is_first_with_date(
            s@,
            d,
            i as int,
        ),
        r is None ==> spec_first_with_date(s@, d) is None,
        r is None <==> forall|j: int| 0 <= j < s@.len() ==> #[trigger] s@[j].spec_date() != d,
{
    let mut i: usize = 0;
    while i < s.len()
        invariant
            i <= s@.len(),
            forall|j: int| 0 <= j < i ==> #[trigger] s@[j].spec_date() != d,
        decreases s.len() - i,
    {
        let di = s[i].date_of();
        if di.same_day(&d) {
            proof {
                lemma_first_with_date(s@, d, i as int);
            }
            return Some(i);
        }
        i = i + 1;
    }
    None
}

/// `r` is the latest date among the values of `s` that satisfy `pred`, or
/// `None` when none does.
pub open spec fn is_latest_matching<T: HasDate>(
    s: Seq<T>,
    pred: spec_fn(T) -> bool,
    r: Option<Date>,
) -> bool {
    match r {
        None => forall|i: int| 0 <= i < s.len() ==> !pred(#[trigger] s[i]),
        Some(d) => {
            &&& exists|i: int| 0 <= i < s.len() && pred(#[trigger] s[i]) && s[i].spec_date() == d
            &&& forall|i: int| 0 <= i < s.len() && pred(#[trigger] s[i]) ==> s[i].spec_date().days
                <= d.days
        },
    }
}

/// The latest matching date is determined by the sequence and the predicate.
pub proof fn lemma_latest_matching_unique<T: HasDate>(
    s: Seq<T>,
    pred: spec_fn(T) -> bool,
    a: Option<Date>,
    b: Option<Date>,
)
    requires
        is_latest_matching(s, pred, a),
        is_latest_matching(s, pred, b),
    ensures
        a == b,
{
    match (a, b) {
        (Some(x), Some(y)) => {
            let i = choose|i: int| 0 <= i < s.len() && pred(#[trigger] s[i]) && s[i].spec_date() == x;
            let j = choose|j: int| 0 <= j < s.len() && pred(#[trigger] s[j]) && s[j].spec_date() == y;
            assert(s[i].spec_date().days <= y.days);
            assert(s[j].spec_date().days <= x.days);
        },
        (Some(x), None) => {
            let i = choose|i: int| 0 <= i < s.len() && pred(#[trigger] s[i]) && s[i].spec_date() == x;
        },
        (None, Some(y)) => {
            let j = choose|j: int| 0 <= j < s.len() && pred(#[trigger] s[j]) && s[j].spec_date() == y;
        },
        (None, None) => {},
    }
}

/// Extending the scanned prefix by one value keeps track of the latest match.
pub proof fn lemma_latest_matching_step<T: HasDate>(
    s: Seq<T>,
    pred: spec_fn(T) -> bool,
    i: int,
    best: Option<Date>,
)
    requires
        0 <= i < s.len(),
        is_latest_matching(s.take(i), pred, best),
    ensures
        is_latest_matching(
            s.take(i + 1),
            pred,
            if pred(s[i]) {
                match best {
                    Some(d) => if d.days <= s[i].spec_date().days {
                        Some(s[i].spec_date())
                    } else {
                        Some(d)
                    },
                    None => Some(s[i].spec_date()),
                }
            } else {
                best
            },
        ),
{
    let t = s.take(i + 1);
    let p = s.take(i);
    assert forall|j: int| 0 <= j < i implies #[trigger] t[j] == p[j] by {}
    assert(t[i] == s[i]);
    match best {
        Some(d) => {
            let k = choose|k: int| 0 <= k < p.len() && pred(#[trigger] p[k]) && p[k].spec_date() == d;
            assert(t[k] == p[k]);
            if pred(s[i]) {
                assert forall|j: int| 0 <= j < t.len() && pred(#[trigger] t[j]) implies t[j].spec_date().days
                    <= (if d.days <= s[i].spec_date().days { s[i].spec_date() } else { d }).days by {
                    if j < i {
                        assert(t[j] == p[j]);
                    }
                }
            } else {
                assert forall|j: int| 0 <= j < t.len() && pred(#[trigger] t[j]) implies t[j].spec_date().days
                    <= d.days by {
                    if j < i {
                        assert(t[j] == p[j]);
                    }
                }
            }
        },
        None => {
            assert forall|j: int| 0 <= j < i implies !pred(#[trigger] t[j]) by {
                assert(t[j] == p[j]);
            }
        },
    }
}

} // verus!
