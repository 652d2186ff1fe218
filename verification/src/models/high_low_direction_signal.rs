//! High/low direction: the trend of the day's price range, read from whether
//! the low and the high rose or fell from the previous day.
use crate::models::buy_sell_signal::{
    signal_events, spec_signal_events, BuySellSignal, BuySellSignalType,
};
use crate::models::ecp1::spec_ecp1s;
use crate::models::stock::Stock;
use crate::models::technical_analysis::{EventFact, EventKind};
use crate::price::Comparison;
use vstd::prelude::*;

verus! {

/// How today's low and high compare with yesterday's.
#[derive(Debug, Copy, Clone, PartialEq, Eq, Structural, Hash, Default)]
pub struct HighLowDirectionSignal {
    pub low_ordering: Option<Comparison>,
    pub high_ordering: Option<Comparison>,
}

/// Buy when the low and the high both rose, sell when both fell, stay otherwise.
pub open spec fn spec_high_low_signal_type(value: HighLowDirectionSignal) -> BuySellSignalType {
    match (value.low_ordering, value.high_ordering) {
        (Some(Comparison::Greater), Some(Comparison::Greater)) => BuySellSignalType::Buy,
        (Some(Comparison::Less), Some(Comparison::Less)) => BuySellSignalType::Sell,
        _ => BuySellSignalType::Stay,
    }
}

impl From<HighLowDirectionSignal> for BuySellSignalType {
    fn from(value: HighLowDirectionSignal) -> (r: BuySellSignalType) {
        match (value.low_ordering, value.high_ordering) {
            (Some(Comparison::Greater), Some(Comparison::Greater)) => BuySellSignalType::Buy,
            (Some(Comparison::Less), Some(Comparison::Less)) => BuySellSignalType::Sell,
            _ => BuySellSignalType::Stay,
        }
    }
}

impl vstd::std_specs::convert::FromSpecImpl<HighLowDirectionSignal> for BuySellSignalType {
    open spec fn obeys_from_spec() -> bool {
        true
    }

    open spec fn from_spec(value: HighLowDirectionSignal) -> BuySellSignalType {
        spec_high_low_signal_type(value)
    }
}

/// The signal of each day after the first, dated that day.
pub open spec fn spec_high_low_direction_signals(stocks: Seq<Stock>) -> Seq<BuySellSignal> {
    Seq::new(
        if stocks.len() > 0 {
            (stocks.len() - 1) as nat
        } else {
            0
        },
        |i: int|
            BuySellSignal {
                signal_type: spec_high_low_signal_type(
                    HighLowDirectionSignal {
                        low_ordering: stocks[i + 1].low.spec_partial_compare(stocks[i].low),
                        high_ordering: stocks[i + 1].high.spec_partial_compare(stocks[i].high),
                    },
                ),
                date: stocks[i + 1].date,
            },
    )
}

/// The high/low direction signals of consecutive trading days.
#[derive(Debug, Clone, PartialEq, Eq, Default)]
pub struct HighLowDirectionSignals(pub Vec<BuySellSignal>);

impl HighLowDirectionSignals {
    /// One signal for each pair of consecutive days.
    pub fn from(value: &[Stock]) -> (r: HighLowDirectionSignals)
        ensures
            r.0@ == spec_high_low_direction_signals(value@),
    {
        let mut out: Vec<BuySellSignal> = Vec::new();
        let mut i: usize = 1;
        while i < value.len()
            invariant
                1 <= i,
                value@.len() > 0 ==> i <= value@.len(),
                value@.len() == 0 ==> out@.len() == 0,
                value@.len() > 0 ==> out@ == spec_high_low_direction_signals(value@).take(i - 1),
            decreases value.len() - i,
        {
            let prev = &value[i - 1];
            let today = &value[i];
            let signal = HighLowDirectionSignal {
                low_ordering: today.low.partial_compare(&prev.low),
                high_ordering: today.high.partial_compare(&prev.high),
            };
            let signal_type = BuySellSignalType::from(signal);
            out.push(BuySellSignal { signal_type, date: today.date });
            i = i + 1;
        }
        proof {
            if value@.len() > 0 {
                assert(spec_high_low_direction_signals(value@).take(value@.len() - 1)
                    == spec_high_low_direction_signals(value@));
            } else {
                assert(out@ == spec_high_low_direction_signals(value@));
            }
        }
        HighLowDirectionSignals(out)
    }

    pub fn len(&self) -> (n: usize)
        ensures
            n == self.0@.len(),
    {
        self.0.len()
    }

    pub fn as_slice(&self) -> (s: &[BuySellSignal])
        ensures
            s@ == self.0@,
    {
        self.0.as_slice()
    }
}

/// ECP1 and the high/low direction signal are the same rule: on every
/// sequence of days they give the same signals.
pub proof fn lemma_high_low_direction_agrees_with_ecp1(stocks: Seq<Stock>)
    ensures
        spec_high_low_direction_signals(stocks) == spec_ecp1s(stocks),
{
    assert(spec_high_low_direction_signals(stocks) =~= spec_ecp1s(stocks));
}

/// High/low direction signals seen as events.
pub struct HighLowDirectionEvents<'a> {
    pub signals: &'a HighLowDirectionSignals,
}

impl<'a> HighLowDirectionEvents<'a> {
    /// A buy is an uptrend event, a sell a downtrend event, each a pattern over
    /// two bars; stays give no event.
    pub fn into_event_facts(self) -> (r: Vec<EventFact>)
        ensures
            r@ == spec_signal_events(
                self.signals.0@,
                EventKind::HighLowDirection,
                EventKind::HighLowDirection,
                2,
            ),
    {
        signal_events(
            self.signals.0.as_slice(),
            EventKind::HighLowDirection,
            EventKind::HighLowDirection,
            2,
        )
    }
}

/// For consecutive trading days, the signal dated on each day after the
/// first is a buy exactly when both the low and the high rose strictly, a
/// sell exactly when both fell strictly, and stay otherwise.
pub proof fn lemma_high_low_direction_needs_both(stocks: Seq<Stock>)
    ensures
        stocks.len() > 0 ==> spec_high_low_direction_signals(stocks).len() == stocks.len() - 1,
        forall|i: int|
            0 <= i < spec_high_low_direction_signals(stocks).len() ==> {
                let s = #[trigger] spec_high_low_direction_signals(stocks)[i];
                let prev = stocks[i];
                let today = stocks[i + 1];
                &&& s.date == today.date
                &&& s.signal_type == BuySellSignalType::Buy <==> (today.low.spec_partial_compare(
                    prev.low,
                ) == Some(Comparison::Greater) && today.high.spec_partial_compare(prev.high)
                    == Some(Comparison::Greater))
                &&& s.signal_type == BuySellSignalType::Sell <==> (today.low.spec_partial_compare(
                    prev.low,
                ) == Some(Comparison::Less) && today.high.spec_partial_compare(prev.high) == Some(
                    Comparison::Less,
                ))
            },
{
}

} // verus!
