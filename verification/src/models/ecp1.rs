//! Engulfing Candlestick Pattern 1: whether both the low and the high rose
//! (or both fell) from the previous day.
use crate::models::buy_sell_signal::{BuySellSignal, BuySellSignalType};
use crate::models::stock::Stock;
use crate::price::Comparison;
use vstd::prelude::*;

verus! {

/// How today's low and high compare with yesterday's.
#[derive(Debug, Copy, Clone, PartialEq, Eq, Structural, Hash, Default)]
pub struct ECP1 {
    pub low_ordering: Option<Comparison>,
    pub high_ordering: Option<Comparison>,
}

/// Buy when the low and the high both rose, sell when both fell, stay otherwise.
pub open spec fn spec_ecp1_signal_type(value: ECP1) -> BuySellSignalType {
    match (value.low_ordering, value.high_ordering) {
        (Some(Comparison::Greater), Some(Comparison::Greater)) => BuySellSignalType::Buy,
        (Some(Comparison::Less), Some(Comparison::Less)) => BuySellSignalType::Sell,
        _ => BuySellSignalType::Stay,
    }
}

impl From<ECP1> for BuySellSignalType {
    fn from(value: ECP1) -> (r: BuySellSignalType) {
        match (value.low_ordering, value.high_ordering) {
            (Some(Comparison::Greater), Some(Comparison::Greater)) => BuySellSignalType::Buy,
            (Some(Comparison::Less), Some(Comparison::Less)) => BuySellSignalType::Sell,
            _ => BuySellSignalType::Stay,
        }
    }
}

impl vstd::std_specs::convert::FromSpecImpl<ECP1> for BuySellSignalType {
    open spec fn obeys_from_spec() -> bool {
        true
    }

    open spec fn from_spec(value: ECP1) -> BuySellSignalType {
        spec_ecp1_signal_type(value)
    }
}

/// The low and high of `today` compared with those of `prev`.
pub open spec fn spec_ecp1_of(prev: Stock, today: Stock) -> ECP1 {
    ECP1 {
        low_ordering: today.low.spec_partial_compare(prev.low),
        high_ordering: today.high.spec_partial_compare(prev.high),
    }
}

/// The signal of each day after the first, dated that day.
pub open spec fn spec_ecp1s(stocks: Seq<Stock>) -> Seq<BuySellSignal> {
    Seq::new(
        if stocks.len() > 0 {
            (stocks.len() - 1) as nat
        } else {
            0
        },
        |i: int|
            BuySellSignal {
                signal_type: spec_ecp1_signal_type(spec_ecp1_of(stocks[i], stocks[i + 1])),
                date: stocks[i + 1].date,
            },
    )
}

/// The ECP1 signals of consecutive trading days.
#[derive(Debug, Clone, PartialEq, Eq, Default)]
pub struct ECP1s(pub Vec<BuySellSignal>);

impl ECP1s {
    /// One signal for each pair of consecutive days.
    pub fn from(value: &[Stock]) -> (r: ECP1s)
        ensures
            r.0@ == spec_ecp1s(value@),
    {
        let mut out: Vec<BuySellSignal> = Vec::new();
        let mut i: usize = 1;
        while i < value.len()
            invariant
                1 <= i,
                value@.len() > 0 ==> i <= value@.len(),
                value@.len() == 0 ==> out@.len() == 0,
                value@.len() > 0 ==> out@ == spec_ecp1s(value@).take(i - 1),
            decreases value.len() - i,
        {
            let prev = &value[i - 1];
            let today = &value[i];
            let ecp1 = ECP1 {
                low_ordering: today.low.partial_compare(&prev.low),
                high_ordering: today.high.partial_compare(&prev.high),
            };
            let signal_type = BuySellSignalType::from(ecp1);
            out.push(BuySellSignal { signal_type, date: today.date });
            i = i + 1;
        }
        proof {
            if value@.len() > 0 {
                assert(spec_ecp1s(value@).take(value@.len() - 1) == spec_ecp1s(value@));
            } else {
                assert(out@ == spec_ecp1s(value@));
            }
        }
        ECP1s(out)
    }

    pub fn len(&self) -> (n: usize)
        ensures
            n == self.0@.len(),
    {
        self.0.len()
    }

    pub fn as_slice(&self) -> (s: &[BuySellSignal])
        ensures
            s@ == self.0@,
    {
        self.0.as_slice()
    }
}

} // verus!
