//! Simple moving average crossover strategy: where the 5-day average crossed
//! the 25-day average, for close and for volume.
use crate::date::Date;
use crate::models::crossover_pattern::{spec_crossover_pattern, CrossoverPattern};
use crate::models::crossover_pattern_close;
use crate::models::crossover_pattern_volume;
use crate::models::sma::{SMAListPair, SMAPair, SMA};
use crate::price::{Comparison, Price};
use crate::search::{
    is_latest_matching, lemma_latest_matching_step, position_of_date, spec_first_with_date,
    HasDate,
};
use vstd::prelude::*;

verus! {

/// One day of the crossover strategy.
#[derive(Debug, Copy, Clone, PartialEq, Default)]
pub struct SmaCos {
    pub date: Date,
    pub close_25: Option<Price>,
    pub volume_25: Option<Price>,
    pub crossover_pattern_close: crossover_pattern_close::CrossoverPattern,
    pub crossover_pattern_volume: crossover_pattern_volume::CrossoverPattern,
}

impl HasDate for SmaCos {
    open spec fn spec_date(&self) -> Date {
        self.date
    }

    fn date_of(&self) -> (d: Date) {
        self.date
    }
}

/// How the fast average compares with the slow one, for close and for volume;
/// both `None` when the slow average of that day is missing.
#[derive(Debug, Copy, Clone, PartialEq, Eq, Structural, Hash, Default)]
pub struct OrderingCloseVolume {
    pub close: Option<Comparison>,
    pub volume: Option<Comparison>,
}

/// The orderings of a fast average against the slow average of its day.
pub open spec fn spec_ordering_close_volume<const N: usize, const O: usize>(
    sma_n: SMA<N>,
    sma_o: Option<SMA<O>>,
) -> OrderingCloseVolume {
    match sma_o {
        Some(o) => OrderingCloseVolume {
            close: sma_n.close.spec_partial_compare(o.close),
            volume: sma_n.volume.spec_partial_compare(o.volume),
        },
        None => OrderingCloseVolume { close: None, volume: None },
    }
}

impl OrderingCloseVolume {
    /// Compares a fast average with the slow average of its day.
    pub fn from_pair<const N: usize, const O: usize>(value: SMAPair<'_, N, O>) -> (r:
        OrderingCloseVolume)
        ensures
            r == spec_ordering_close_volume(
                *value.sma_n,
                match value.sma_o {
                    Some(o) => Some(*o),
                    None => None,
                },
            ),
    {
        match value.sma_o {
            Some(sma_o) => OrderingCloseVolume {
                close: value.sma_n.close.partial_compare(&sma_o.close),
                volume: value.sma_n.volume.partial_compare(&sma_o.volume),
            },
            None => OrderingCloseVolume { close: None, volume: None },
        }
    }
}

/// The crossover patterns of close and volume.
#[derive(Debug, Copy, Clone, PartialEq, Eq, Structural, Hash, Default)]
pub struct CrossoverPatternCloseVolume {
    pub close: CrossoverPattern,
    pub volume: CrossoverPattern,
}

/// The crossovers between two days, for close and for volume.
pub open spec fn spec_crossover_close_volume(
    past: OrderingCloseVolume,
    target: OrderingCloseVolume,
) -> CrossoverPatternCloseVolume {
    CrossoverPatternCloseVolume {
        close: spec_crossover_pattern(past.close, target.close),
        volume: spec_crossover_pattern(past.volume, target.volume),
    }
}

impl CrossoverPatternCloseVolume {
    pub fn from_orderings(past: OrderingCloseVolume, target: OrderingCloseVolume) -> (r:
        CrossoverPatternCloseVolume)
        ensures
            r == spec_crossover_close_volume(past, target),
    {
        CrossoverPatternCloseVolume {
            close: CrossoverPattern::from((past.close, target.close)),
            volume: CrossoverPattern::from((past.volume, target.volume)),
        }
    }
}

/// The slow average that goes with the fast average at `i`: the first slow
/// average of the same day.
pub open spec fn spec_matching_slow<const N: usize, const O: usize>(
    smas_n: Seq<SMA<N>>,
    smas_o: Seq<SMA<O>>,
    i: int,
) -> Option<SMA<O>> {
    match spec_first_with_date(smas_o, smas_n[i].date) {
        Some(j) => Some(smas_o[j]),
        None => None,
    }
}

/// The crossover-strategy day of the fast average at `i + 1`, against the
/// day before.
pub open spec fn spec_sma_cos<const N: usize, const O: usize>(
    smas_n: Seq<SMA<N>>,
    smas_o: Seq<SMA<O>>,
    i: int,
) -> SmaCos {
    let past = spec_ordering_close_volume(smas_n[i], spec_matching_slow(smas_n, smas_o, i));
    let slow = spec_matching_slow(smas_n, smas_o, i + 1);
    let target = spec_ordering_close_volume(smas_n[i + 1], slow);
    let patterns = spec_crossover_close_volume(past, target);
    SmaCos {
        date: smas_n[i + 1].date,
        close_25: match slow {
            Some(o) => Some(o.close),
            None => None,
        },
        volume_25: match slow {
            Some(o) => Some(o.volume),
            None => None,
        },
        crossover_pattern_close: crossover_pattern_close::CrossoverPattern(patterns.close),
        crossover_pattern_volume: crossover_pattern_volume::CrossoverPattern(patterns.volume),
    }
}

/// One strategy day for each fast average after the first.
pub open spec fn spec_sma_coses<const N: usize, const O: usize>(
    smas_n: Seq<SMA<N>>,
    smas_o: Seq<SMA<O>>,
) -> Seq<SmaCos> {
    Seq::new(
        if smas_n.len() > 0 {
            (smas_n.len() - 1) as nat
        } else {
            0
        },
        |i: int| spec_sma_cos(smas_n, smas_o, i),
    )
}

/// The fast average at `i`, its slow average (if any) and their orderings.
pub fn sma_cos_step<const N: usize, const O: usize>(smas_n: &[SMA<N>], smas_o: &[SMA<O>], i: usize) -> (r: (
    Option<SMA<O>>,
    OrderingCloseVolume,
))
    requires
        i < smas_n@.len(),
    ensures
        r.0 == spec_matching_slow(smas_n@, smas_o@, i as int),
        r.1 == spec_ordering_close_volume(smas_n@[i as int], r.0),
{
    match position_of_date(smas_o, smas_n[i].date) {
        Some(j) => {
            let slow = smas_o[j];
            let ordering = OrderingCloseVolume::from_pair(
                SMAPair { sma_n: &smas_n[i], sma_o: Some(&smas_o[j]) },
            );
            (Some(slow), ordering)
        },
        None => {
            let ordering = OrderingCloseVolume::from_pair(
                SMAPair::<N, O> { sma_n: &smas_n[i], sma_o: None },
            );
            (None, ordering)
        },
    }
}

/// Builds the strategy days of a fast average list against a slow one.
pub fn sma_coses_of<const N: usize, const O: usize>(smas_n: &[SMA<N>], smas_o: &[SMA<O>]) -> (r:
    Vec<SmaCos>)
    ensures
        r@ == spec_sma_coses(smas_n@, smas_o@),
{
    let mut out: Vec<SmaCos> = Vec::new();
    if smas_n.len() == 0 {
        assert(out@ == spec_sma_coses(smas_n@, smas_o@));
        return out;
    }
    let (_, first) = sma_cos_step(smas_n, smas_o, 0);
    let mut past = first;
    let mut i: usize = 1;
    while i < smas_n.len()
        invariant
            1 <= i <= smas_n@.len(),
            past == spec_ordering_close_volume(
                smas_n@[i - 1],
                spec_matching_slow(smas_n@, smas_o@, i - 1),
            ),
            out@ == spec_sma_coses(smas_n@, smas_o@).take(i - 1),
        decreases smas_n.len() - i,
    {
        let (slow, target) = sma_cos_step(smas_n, smas_o, i);
        let patterns = CrossoverPatternCloseVolume::from_orderings(past, target);
        let (close_25, volume_25) = match slow {
            Some(o) => (Some(o.close), Some(o.volume)),
            None => (None, None),
        };
        out.push(
            SmaCos {
                date: smas_n[i].date,
                close_25,
                volume_25,
                crossover_pattern_close: crossover_pattern_close::CrossoverPattern(patterns.close),
                crossover_pattern_volume: crossover_pattern_volume::CrossoverPattern(
                    patterns.volume,
                ),
            },
        );
        proof {
            assert(out@ =~= spec_sma_coses(smas_n@, smas_o@).take(i as int));
        }
        past = target;
        i = i + 1;
    }
    assert(spec_sma_coses(smas_n@, smas_o@).take(smas_n@.len() - 1) == spec_sma_coses(
        smas_n@,
        smas_o@,
    ));
    out
}

/// `c` crossed on close in the pattern `p`.
pub open spec fn closes_with(p: CrossoverPattern) -> spec_fn(SmaCos) -> bool {
    |c: SmaCos| c.crossover_pattern_close.0 == p
}

/// The latest date of a close crossover in the pattern `p`.
pub fn latest_close_crossover(coses: &[SmaCos], p: &CrossoverPattern) -> (r: Option<Date>)
    ensures
        is_latest_matching(coses@, closes_with(*p), r),
{
    let mut best: Option<Date> = None;
    let mut i: usize = 0;
    assert(coses@.take(0) =~= Seq::<SmaCos>::empty());
    while i < coses.len()
        invariant
            i <= coses@.len(),
            is_latest_matching(coses@.take(i as int), closes_with(*p), best),
        decreases coses.len() - i,
    {
        proof {
            lemma_latest_matching_step(coses@, closes_with(*p), i as int, best);
        }
        let c = &coses[i];
        if c.crossover_pattern_close.0.is(p) {
            best = match best {
                Some(d) => if d.is_on_or_before(&c.date) {
                    Some(c.date)
                } else {
                    Some(d)
                },
                None => Some(c.date),
            };
        }
        i = i + 1;
    }
    assert(coses@.take(coses@.len() as int) == coses@);
    best
}

/// The crossover-strategy days, in date order.
#[derive(Debug, Clone, PartialEq, Default)]
pub struct SmaCoses(pub Vec<SmaCos>);

impl SmaCoses {
    /// One strategy day for each 5-day average after the first, with the
    /// crossovers it shows against the day before.
    pub fn from(value: SMAListPair<'_, 5, 25>) -> (r: SmaCoses)
        ensures
            r.0@ == spec_sma_coses(value.smas_n@, value.smas_o@),
    {
        SmaCoses(sma_coses_of(value.smas_n, value.smas_o))
    }

    /// The latest date on which the close averages crossed in the given pattern.
    pub fn latest_based_on_close(&self, crossover_pattern: &CrossoverPattern) -> (r: Option<Date>)
        ensures
            is_latest_matching(self.0@, closes_with(*crossover_pattern), r),
    {
        latest_close_crossover(self.0.as_slice(), crossover_pattern)
    }

    pub fn len(&self) -> (n: usize)
        ensures
            n == self.0@.len(),
    {
        self.0.len()
    }

    pub fn as_slice(&self) -> (s: &[SmaCos])
        ensures
            s@ == self.0@,
    {
        self.0.as_slice()
    }
}

} // verus!
