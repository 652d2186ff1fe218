//! Simple moving averages of close and volume.
use crate::date::Date;
use crate::models::crossover_pattern::{spec_crossover_pattern, CrossoverPattern};
use crate::models::technical_analysis::{
    DerivedFact, DirectionType, EventFact, EventKind, EventParams, MetricKind,
};
use crate::price::Price;
use crate::search::{position_of_date, spec_first_with_date, HasDate};
use vstd::prelude::*;

verus! {

/// The `N`-day simple moving averages of close and volume, dated on the last
/// day of the window.
#[derive(Debug, Copy, Clone, PartialEq, Default)]
pub struct SMA<const N: usize> {
    pub date: Date,
    pub close: Price,
    pub volume: Price,
}

impl<const N: usize> HasDate for SMA<N> {
    open spec fn spec_date(&self) -> Date {
        self.date
    }

    fn date_of(&self) -> (d: Date) {
        self.date
    }
}

/// `N`-day moving averages in date order.
#[derive(Debug, Clone, PartialEq, Default)]
pub struct SMAs<const N: usize>(pub Vec<SMA<N>>);

/// The close average of an SMA as a derived fact with period `N`.
pub open spec fn spec_sma_fact<const N: usize>(sma: SMA<N>) -> DerivedFact {
    DerivedFact { metric: MetricKind::Sma, date: sma.date, value: sma.close, period: Some(N as u32) }
}

impl<const N: usize> SMAs<N> {
    /// Each close average as a derived fact, in order.
    pub fn to_derived_facts(&self) -> (r: Vec<DerivedFact>)
        ensures
            r@ == self.0@.map_values(|s: SMA<N>| spec_sma_fact(s)),
    {
        let mut out: Vec<DerivedFact> = Vec::new();
        let mut i: usize = 0;
        while i < self.0.len()
            invariant
                i <= self.0@.len(),
                out@ == self.0@.take(i as int).map_values(|s: SMA<N>| spec_sma_fact(s)),
            decreases self.0.len() - i,
        {
            let sma = &self.0[i];
            out.push(
                DerivedFact {
                    metric: MetricKind::Sma,
                    date: sma.date,
                    value: sma.close,
                    period: Some(N as u32),
                },
            );
            i = i + 1;
            assert(out@ =~= self.0@.take(i as int).map_values(|s: SMA<N>| spec_sma_fact(s)));
        }
        assert(self.0@.take(self.0@.len() as int) == self.0@);
        out
    }

    pub fn len(&self) -> (n: usize)
        ensures
            n == self.0@.len(),
    {
        self.0.len()
    }

    pub fn as_slice(&self) -> (s: &[SMA<N>])
        ensures
            s@ == self.0@,
    {
        self.0.as_slice()
    }
}

/// An `N`-day average with the `O`-day average of the same day, if any.
pub struct SMAPair<'a, const N: usize, const O: usize> {
    pub sma_n: &'a SMA<N>,
    pub sma_o: Option<&'a SMA<O>>,
}

/// `N`-day and `O`-day averages over the same days.
pub struct SMAListPair<'a, const N: usize, const O: usize> {
    pub smas_n: &'a [SMA<N>],
    pub smas_o: &'a [SMA<O>],
}

/// `N`-, `O`- and `P`-day averages over the same days.
pub struct SMAListTrio<'a, const N: usize, const O: usize, const P: usize> {
    pub smas_n: &'a [SMA<N>],
    pub smas_o: &'a [SMA<O>],
    pub smas_p: &'a [SMA<P>],
}

/// The event that a crossover of the fast (`N`-day) over the slow (`O`-day)
/// average is, dated `date`.
pub open spec fn spec_sma_cross_event(
    pattern: CrossoverPattern,
    date: Date,
    n: u32,
    o: u32,
) -> Option<EventFact> {
    match pattern {
        CrossoverPattern::GoldenCross => Some(
            EventFact {
                kind: EventKind::GoldenCross,
                occurred_at: date,
                direction: DirectionType::Uptrend,
                event_params: EventParams::Cross {
                    fast_metric: MetricKind::Sma,
                    fast_period: n,
                    slow_metric: MetricKind::Sma,
                    slow_period: o,
                },
            },
        ),
        CrossoverPattern::DeadCross => Some(
            EventFact {
                kind: EventKind::DeadCross,
                occurred_at: date,
                direction: DirectionType::Downtrend,
                event_params: EventParams::Cross {
                    fast_metric: MetricKind::Sma,
                    fast_period: n,
                    slow_metric: MetricKind::Sma,
                    slow_period: o,
                },
            },
        ),
        CrossoverPattern::Neither => None,
    }
}

/// The crossover event of the fast averages at `i` and `i + 1` against the
/// first slow averages of the same days; none when a slow average is missing.
pub open spec fn spec_sma_window_event<const N: usize, const O: usize>(
    smas_n: Seq<SMA<N>>,
    smas_o: Seq<SMA<O>>,
    i: int,
) -> Option<EventFact> {
    let past = smas_n[i];
    let target = smas_n[i + 1];
    match (spec_first_with_date(smas_o, past.date), spec_first_with_date(smas_o, target.date)) {
        (Some(pi), Some(ti)) => spec_sma_cross_event(
            spec_crossover_pattern(
                past.close.spec_partial_compare(smas_o[pi].close),
                target.close.spec_partial_compare(smas_o[ti].close),
            ),
            target.date,
            N as u32,
            O as u32,
        ),
        _ => None,
    }
}

/// The crossover events of the windows `0..k`, in order.
pub open spec fn spec_sma_cross_events_upto<const N: usize, const O: usize>(
    smas_n: Seq<SMA<N>>,
    smas_o: Seq<SMA<O>>,
    k: int,
) -> Seq<EventFact>
    decreases k,
{
    if k <= 0 {
        Seq::empty()
    } else {
        let rest = spec_sma_cross_events_upto(smas_n, smas_o, k - 1);
        match spec_sma_window_event(smas_n, smas_o, k - 1) {
            Some(e) => rest.push(e),
            None => rest,
        }
    }
}

/// The crossover events of all consecutive fast averages.
pub open spec fn spec_sma_cross_events<const N: usize, const O: usize>(
    smas_n: Seq<SMA<N>>,
    smas_o: Seq<SMA<O>>,
) -> Seq<EventFact> {
    spec_sma_cross_events_upto(smas_n, smas_o, smas_n.len() - 1)
}

/// Crossovers of the `N`-day over the `O`-day average, seen as events.
pub struct SmaCrossEvents<'a, const N: usize, const O: usize> {
    pub sma_list_pair: SMAListPair<'a, N, O>,
}

impl<'a, const N: usize, const O: usize> SmaCrossEvents<'a, N, O> {
    /// Golden crosses become uptrend events, dead crosses downtrend events.
    pub fn into_event_facts(self) -> (r: Vec<EventFact>)
        ensures
            r@ == spec_sma_cross_events(self.sma_list_pair.smas_n@, self.sma_list_pair.smas_o@),
    {
        let smas_n = self.sma_list_pair.smas_n;
        let smas_o = self.sma_list_pair.smas_o;
        let mut out: Vec<EventFact> = Vec::new();
        let mut i: usize = 1;
        while i < smas_n.len()
            invariant
                1 <= i,
                smas_n@.len() > 0 ==> i <= smas_n@.len(),
                smas_n@.len() == 0 ==> i == 1,
                out@ == spec_sma_cross_events_upto(smas_n@, smas_o@, i - 1),
            decreases smas_n.len() - i,
        {
            let past = &smas_n[i - 1];
            let target = &smas_n[i];
            let past_o = position_of_date(smas_o, past.date);
            let target_o = position_of_date(smas_o, target.date);
            match (past_o, target_o) {
                (Some(pi), Some(ti)) => {
                    let pattern = CrossoverPattern::from(
                        (
                            past.close.partial_compare(&smas_o[pi].close),
                            target.close.partial_compare(&smas_o[ti].close),
                        ),
                    );
                    match pattern {
                        CrossoverPattern::GoldenCross => {
                            out.push(
                                EventFact {
                                    kind: EventKind::GoldenCross,
                                    occurred_at: target.date,
                                    direction: DirectionType::Uptrend,
                                    event_params: EventParams::Cross {
                                        fast_metric: MetricKind::Sma,
                                        fast_period: N as u32,
                                        slow_metric: MetricKind::Sma,
                                        slow_period: O as u32,
                                    },
                                },
                            );
                        },
                        CrossoverPattern::DeadCross => {
                            out.push(
                                EventFact {
                                    kind: EventKind::DeadCross,
                                    occurred_at: target.date,
                                    direction: DirectionType::Downtrend,
                                    event_params: EventParams::Cross {
                                        fast_metric: MetricKind::Sma,
                                        fast_period: N as u32,
                                        slow_metric: MetricKind::Sma,
                                        slow_period: O as u32,
                                    },
                                },
                            );
                        },
                        CrossoverPattern::Neither => {},
                    }
                },
                _ => {},
            }
            i = i + 1;
        }
        proof {
            if smas_n@.len() == 0 {
                assert(spec_sma_cross_events_upto(smas_n@, smas_o@, -1) == Seq::<EventFact>::empty());
                assert(spec_sma_cross_events_upto(smas_n@, smas_o@, 0) == Seq::<EventFact>::empty());
            }
        }
        out
    }
}

} // verus!
