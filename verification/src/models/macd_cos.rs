//! MACD crossover strategy: where the MACD line crossed its signal line.
use crate::date::Date;
use crate::models::crossover_pattern::CrossoverPattern;
use crate::models::macd::{spec_macd_crossover, MACDs, MACD};
use crate::price::Price;
use crate::search::HasDate;
use vstd::prelude::*;

verus! {

/// A day of the MACD crossover strategy.
#[derive(Debug, Copy, Clone, PartialEq, Default)]
pub struct MacdCos {
    pub date: Date,
    pub macd: Price,
    pub signal: Price,
    pub histogram: Price,
    pub crossover_pattern: CrossoverPattern,
}

impl HasDate for MacdCos {
    open spec fn spec_date(&self) -> Date {
        self.date
    }

    fn date_of(&self) -> (d: Date) {
        self.date
    }
}

/// The strategy day of `target`, against the day before.
pub open spec fn spec_macd_cos(past: MACD, target: MACD) -> MacdCos {
    MacdCos {
        date: target.date,
        macd: target.macd,
        signal: target.signal,
        histogram: target.histogram,
        crossover_pattern: spec_macd_crossover(past, target),
    }
}

/// One strategy day for each MACD day after the first.
pub open spec fn spec_macd_coses(macds: Seq<MACD>) -> Seq<MacdCos> {
    Seq::new(
        if macds.len() > 0 {
            (macds.len() - 1) as nat
        } else {
            0
        },
        |i: int| spec_macd_cos(macds[i], macds[i + 1]),
    )
}

/// The MACD crossover-strategy days, in date order.
#[derive(Debug, Clone, PartialEq, Default)]
pub struct MacdCoses(pub Vec<MacdCos>);

impl MacdCoses {
    /// Compares the MACD and signal lines of consecutive days.
    pub fn from<const F: usize, const S: usize, const SG: usize>(value: MACDs<F, S, SG>) -> (r:
        MacdCoses)
        ensures
            r.0@ == spec_macd_coses(value.0@),
    {
        let macds = value.0.as_slice();
        let mut out: Vec<MacdCos> = Vec::new();
        let mut i: usize = 1;
        while i < macds.len()
            invariant
                1 <= i,
                macds@.len() > 0 ==> i <= macds@.len(),
                macds@.len() == 0 ==> out@.len() == 0,
                macds@.len() > 0 ==> out@ == spec_macd_coses(macds@).take(i - 1),
            decreases macds.len() - i,
        {
            let past = &macds[i - 1];
            let target = &macds[i];
            let crossover_pattern = CrossoverPattern::from(
                (
                    past.macd.partial_compare(&past.signal),
                    target.macd.partial_compare(&target.signal),
                ),
            );
            out.push(
                MacdCos {
                    date: target.date,
                    macd: target.macd,
                    signal: target.signal,
                    histogram: target.histogram,
                    crossover_pattern,
                },
            );
            i = i + 1;
        }
        proof {
            if macds@.len() > 0 {
                assert(spec_macd_coses(macds@).take(macds@.len() - 1) == spec_macd_coses(macds@));
            } else {
                assert(out@ == spec_macd_coses(macds@));
            }
        }
        MacdCoses(out)
    }

    pub fn len(&self) -> (n: usize)
        ensures
            n == self.0@.len(),
    {
        self.0.len()
    }

    pub fn as_slice(&self) -> (s: &[MacdCos])
        ensures
            s@ == self.0@,
    {
        self.0.as_slice()
    }
}

} // verus!
