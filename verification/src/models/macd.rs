//! Moving average convergence/divergence: the MACD line, its signal line and
//! their difference.
use crate::date::Date;
use crate::models::crossover_pattern::{spec_crossover_pattern, CrossoverPattern};
use crate::models::technical_analysis::{
    DerivedFact, DirectionType, EventFact, EventKind, EventParams, MetricKind,
};
use crate::price::Price;
use crate::search::HasDate;
use vstd::prelude::*;

verus! {

/// The MACD line, the signal line and the histogram of a day.
#[derive(Debug, Copy, Clone, PartialEq, Default)]
pub struct MACD {
    pub date: Date,
    pub macd: Price,
    pub signal: Price,
    pub histogram: Price,
}

impl HasDate for MACD {
    open spec fn spec_date(&self) -> Date {
        self.date
    }

    fn date_of(&self) -> (d: Date) {
        self.date
    }
}

/// MACD values with fast period `F`, slow period `S` and signal period `SG`.
#[derive(Debug, Clone, PartialEq, Default)]
pub struct MACDs<const F: usize, const S: usize, const SG: usize>(pub Vec<MACD>);

/// The two facts of a day: the MACD line (slow period) then the signal line
/// (signal period).
pub open spec fn spec_macd_facts(m: MACD, s: u32, sg: u32) -> Seq<DerivedFact> {
    seq![
        DerivedFact { metric: MetricKind::Macd, date: m.date, value: m.macd, period: Some(s) },
        DerivedFact { metric: MetricKind::Signal, date: m.date, value: m.signal, period: Some(sg) },
    ]
}

/// The crossover of the MACD line over the signal line between two days.
pub open spec fn spec_macd_crossover(past: MACD, target: MACD) -> CrossoverPattern {
    spec_crossover_pattern(
        past.macd.spec_partial_compare(past.signal),
        target.macd.spec_partial_compare(target.signal),
    )
}

/// The event of a MACD crossover on `target`, if there is one.
pub open spec fn spec_macd_event(past: MACD, target: MACD, s: u32, sg: u32) -> Option<EventFact> {
    let params = EventParams::Cross {
        fast_metric: MetricKind::Macd,
        fast_period: s,
        slow_metric: MetricKind::Signal,
        slow_period: sg,
    };
    match spec_macd_crossover(past, target) {
        CrossoverPattern::GoldenCross => Some(
            EventFact {
                kind: EventKind::GoldenCross,
                occurred_at: target.date,
                direction: DirectionType::Uptrend,
                event_params: params,
            },
        ),
        CrossoverPattern::DeadCross => Some(
            EventFact {
                kind: EventKind::DeadCross,
                occurred_at: target.date,
                direction: DirectionType::Downtrend,
                event_params: params,
            },
        ),
        CrossoverPattern::Neither => None,
    }
}

/// The crossover events of the windows `0..k`.
pub open spec fn spec_macd_events_upto(macds: Seq<MACD>, s: u32, sg: u32, k: int) -> Seq<
    EventFact,
>
    decreases k,
{
    if k <= 0 {
        Seq::empty()
    } else {
        let rest = spec_macd_events_upto(macds, s, sg, k - 1);
        match spec_macd_event(macds[k - 1], macds[k], s, sg) {
            Some(e) => rest.push(e),
            None => rest,
        }
    }
}

impl<const F: usize, const S: usize, const SG: usize> MACDs<F, S, SG> {
    /// Two facts per day, the MACD line then the signal line.
    pub fn to_derived_facts(&self) -> (r: Vec<DerivedFact>)
        ensures
            r@.len() == 2 * self.0@.len(),
            forall|i: int|
                0 <= i < self.0@.len() ==> #[trigger] r@.subrange(2 * i, 2 * i + 2)
                    == spec_macd_facts(self.0@[i], S as u32, SG as u32),
    {
        let mut out: Vec<DerivedFact> = Vec::new();
        let mut i: usize = 0;
        while i < self.0.len()
            invariant
                i <= self.0@.len(),
                out@.len() == 2 * i,
                forall|j: int|
                    0 <= j < i ==> #[trigger] out@.subrange(2 * j, 2 * j + 2) == spec_macd_facts(
                        self.0@[j],
                        S as u32,
                        SG as u32,
                    ),
            decreases self.0.len() - i,
        {
            let m = &self.0[i];
            let ghost before = out@;
            out.push(
                DerivedFact {
                    metric: MetricKind::Macd,
                    date: m.date,
                    value: m.macd,
                    period: Some(S as u32),
                },
            );
            out.push(
                DerivedFact {
                    metric: MetricKind::Signal,
                    date: m.date,
                    value: m.signal,
                    period: Some(SG as u32),
                },
            );
            proof {
                assert forall|j: int| 0 <= j < i + 1 implies #[trigger] out@.subrange(
                    2 * j,
                    2 * j + 2,
                ) == spec_macd_facts(self.0@[j], S as u32, SG as u32) by {
                    if j < i {
                        assert(out@.subrange(2 * j, 2 * j + 2) =~= before.subrange(2 * j, 2 * j + 2));
                    } else {
                        assert(out@.subrange(2 * j, 2 * j + 2) =~= spec_macd_facts(
                            self.0@[j],
                            S as u32,
                            SG as u32,
                        ));
                    }
                }
            }
            i = i + 1;
        }
        out
    }

    pub fn len(&self) -> (n: usize)
        ensures
            n == self.0@.len(),
    {
        self.0.len()
    }

    pub fn as_slice(&self) -> (s: &[MACD])
        ensures
            s@ == self.0@,
    {
        self.0.as_slice()
    }
}

/// MACD crossovers seen as events.
pub struct MacdCrossEvents<'a, const F: usize, const S: usize, const SG: usize> {
    pub macds: &'a MACDs<F, S, SG>,
}

impl<'a, const F: usize, const S: usize, const SG: usize> MacdCrossEvents<'a, F, S, SG> {
    /// The MACD line crossing above its signal line is an uptrend golden-cross
    /// event, crossing below a downtrend dead-cross event.
    pub fn into_event_facts(self) -> (r: Vec<EventFact>)
        ensures
            r@ == spec_macd_events_upto(self.macds.0@, S as u32, SG as u32, self.macds.0@.len() - 1),
    {
        let macds = self.macds.0.as_slice();
        let mut out: Vec<EventFact> = Vec::new();
        let mut i: usize = 1;
        while i < macds.len()
            invariant
                1 <= i,
                macds@.len() > 0 ==> i <= macds@.len(),
                macds@.len() == 0 ==> i == 1,
                macds@ == self.macds.0@,
                out@ == spec_macd_events_upto(macds@, S as u32, SG as u32, i - 1),
            decreases macds.len() - i,
        {
            let past = &macds[i - 1];
            let target = &macds[i];
            let pattern = CrossoverPattern::from(
                (
                    past.macd.partial_compare(&past.signal),
                    target.macd.partial_compare(&target.signal),
                ),
            );
            let params = EventParams::Cross {
                fast_metric: MetricKind::Macd,
                fast_period: S as u32,
                slow_metric: MetricKind::Signal,
                slow_period: SG as u32,
            };
            match pattern {
                CrossoverPattern::GoldenCross => {
                    out.push(
                        EventFact {
                            kind: EventKind::GoldenCross,
                            occurred_at: target.date,
                            direction: DirectionType::Uptrend,
                            event_params: params,
                        },
                    );
                },
                CrossoverPattern::DeadCross => {
                    out.push(
                        EventFact {
                            kind: EventKind::DeadCross,
                            occurred_at: target.date,
                            direction: DirectionType::Downtrend,
                            event_params: params,
                        },
                    );
                },
                CrossoverPattern::Neither => {},
            }
            i = i + 1;
        }
        proof {
            if macds@.len() == 0 {
                assert(spec_macd_events_upto(macds@, S as u32, SG as u32, -1) == Seq::<
                    EventFact,
                >::empty());
                assert(spec_macd_events_upto(macds@, S as u32, SG as u32, 0) == Seq::<
                    EventFact,
                >::empty());
            }
        }
        out
    }
}

} // verus!
