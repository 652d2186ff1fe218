//! Bollinger bands: the moving average with bands two standard deviations
//! above and below it.
use crate::date::Date;
use crate::models::technical_analysis::{DerivedFact, MetricKind};
use crate::price::Price;
use vstd::prelude::*;

verus! {

/// The bands of a day over `period` days.
#[derive(Debug, Copy, Clone, PartialEq, Default)]
pub struct Bollinger {
    pub date: Date,
    pub period: u32,
    /// The simple moving average.
    pub middle: Price,
    /// The average plus two standard deviations.
    pub upper: Price,
    /// The average minus two standard deviations.
    pub lower: Price,
}

/// Bollinger bands over `PERIOD` days, in date order.
#[derive(Debug, Clone, PartialEq, Default)]
pub struct Bollingers<const PERIOD: usize>(pub Vec<Bollinger>);

/// The two facts of a day: its upper band, then its lower band.
pub open spec fn spec_bollinger_facts(b: Bollinger) -> Seq<DerivedFact> {
    seq![
        DerivedFact {
            metric: MetricKind::BollingerUpper,
            date: b.date,
            value: b.upper,
            period: Some(b.period),
        },
        DerivedFact {
            metric: MetricKind::BollingerLower,
            date: b.date,
            value: b.lower,
            period: Some(b.period),
        },
    ]
}

impl<const PERIOD: usize> Bollingers<PERIOD> {
    /// Two facts per day, the upper band then the lower band.
    pub fn to_derived_facts(&self) -> (r: Vec<DerivedFact>)
        ensures
            r@.len() == 2 * self.0@.len(),
            forall|i: int|
                0 <= i < self.0@.len() ==> #[trigger] r@.subrange(2 * i, 2 * i + 2)
                    == spec_bollinger_facts(self.0@[i]),
    {
        let mut out: Vec<DerivedFact> = Vec::new();
        let mut i: usize = 0;
        while i < self.0.len()
            invariant
                i <= self.0@.len(),
                out@.len() == 2 * i,
                forall|j: int|
                    0 <= j < i ==> #[trigger] out@.subrange(2 * j, 2 * j + 2)
                        == spec_bollinger_facts(self.0@[j]),
            decreases self.0.len() - i,
        {
            let b = &self.0[i];
            let ghost before = out@;
            out.push(
                DerivedFact {
                    metric: MetricKind::BollingerUpper,
                    date: b.date,
                    value: b.upper,
                    period: Some(b.period),
                },
            );
            out.push(
                DerivedFact {
                    metric: MetricKind::BollingerLower,
                    date: b.date,
                    value: b.lower,
                    period: Some(b.period),
                },
            );
            proof {
                assert forall|j: int| 0 <= j < i + 1 implies #[trigger] out@.subrange(
                    2 * j,
                    2 * j + 2,
                ) == spec_bollinger_facts(self.0@[j]) by {
                    if j < i {
                        assert(out@.subrange(2 * j, 2 * j + 2) =~= before.subrange(2 * j, 2 * j + 2));
                    } else {
                        assert(out@.subrange(2 * j, 2 * j + 2) =~= spec_bollinger_facts(
                            self.0@[j],
                        ));
                    }
                }
            }
            i = i + 1;
        }
        out
    }

    pub fn len(&self) -> (n: usize)
        ensures
            n == self.0@.len(),
    {
        self.0.len()
    }

    pub fn is_empty(&self) -> (b: bool)
        ensures
            b == (self.0@.len() == 0),
    {
        self.0.len() == 0
    }
}

} // verus!
