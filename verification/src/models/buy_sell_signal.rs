//! Buy/sell signals.
use crate::date::Date;
use crate::models::crossover_pattern::CrossoverPattern;
use crate::models::technical_analysis::{DirectionType, EventFact, EventKind, EventParams};
use crate::price::Comparison;
use crate::search::HasDate;
use vstd::prelude::*;

verus! {

/// The kind of a trading signal.
#[derive(Debug, Copy, Clone, PartialEq, Eq, Structural, Hash, PartialOrd, Ord, Default)]
pub enum BuySellSignalType {
    #[default]
    Stay,
    Buy,
    Sell,
}

/// A golden cross says buy, a dead cross says sell, no crossover says stay.
pub open spec fn spec_signal_of_crossover(p: CrossoverPattern) -> BuySellSignalType {
    match p {
        CrossoverPattern::Neither => BuySellSignalType::Stay,
        CrossoverPattern::GoldenCross => BuySellSignalType::Buy,
        CrossoverPattern::DeadCross => BuySellSignalType::Sell,
    }
}

impl From<CrossoverPattern> for BuySellSignalType {
    fn from(crossover_pattern: CrossoverPattern) -> (r: BuySellSignalType) {
        match crossover_pattern {
            CrossoverPattern::Neither => BuySellSignalType::Stay,
            CrossoverPattern::GoldenCross => BuySellSignalType::Buy,
            CrossoverPattern::DeadCross => BuySellSignalType::Sell,
        }
    }
}

impl vstd::std_specs::convert::FromSpecImpl<CrossoverPattern> for BuySellSignalType {
    open spec fn obeys_from_spec() -> bool {
        true
    }

    open spec fn from_spec(p: CrossoverPattern) -> BuySellSignalType {
        spec_signal_of_crossover(p)
    }
}

/// A trading signal on a date.
#[derive(Debug, Copy, Clone, PartialEq, Eq, Structural, Hash, PartialOrd, Ord, Default)]
pub struct BuySellSignal {
    pub signal_type: BuySellSignalType,
    pub date: Date,
}

impl HasDate for BuySellSignal {
    open spec fn spec_date(&self) -> Date {
        self.date
    }

    fn date_of(&self) -> (d: Date) {
        self.date
    }
}

/// The trend read from three comparisons (close against the short average,
/// short against middle, middle against long): all below says buy, all above
/// says sell, anything else stay.
pub open spec fn spec_trend_signal_type(
    cmp1: Option<Comparison>,
    cmp2: Option<Comparison>,
    cmp3: Option<Comparison>,
) -> BuySellSignalType {
    match (cmp1, cmp2, cmp3) {
        (Some(Comparison::Less), Some(Comparison::Less), Some(Comparison::Less)) => BuySellSignalType::Buy,
        (Some(Comparison::Greater), Some(Comparison::Greater), Some(Comparison::Greater)) => {
            BuySellSignalType::Sell
        },
        _ => BuySellSignalType::Stay,
    }
}

impl From<(Option<Comparison>, Option<Comparison>, Option<Comparison>)> for BuySellSignalType {
    fn from(value: (Option<Comparison>, Option<Comparison>, Option<Comparison>)) -> (r:
        BuySellSignalType) {
        match value {
            (Some(Comparison::Less), Some(Comparison::Less), Some(Comparison::Less)) => {
                BuySellSignalType::Buy
            },
            (Some(Comparison::Greater), Some(Comparison::Greater), Some(Comparison::Greater)) => {
                BuySellSignalType::Sell
            },
            _ => BuySellSignalType::Stay,
        }
    }
}

impl vstd::std_specs::convert::FromSpecImpl<(Option<Comparison>, Option<Comparison>, Option<Comparison>)> for BuySellSignalType {
    open spec fn obeys_from_spec() -> bool {
        true
    }

    open spec fn from_spec(
        value: (Option<Comparison>, Option<Comparison>, Option<Comparison>),
    ) -> BuySellSignalType {
        spec_trend_signal_type(value.0, value.1, value.2)
    }
}

impl BuySellSignalType {
    /// `self == other`.
    pub fn is(&self, other: &BuySellSignalType) -> (r: bool)
        ensures
            r == (*self == *other),
    {
        match (self, other) {
            (BuySellSignalType::Stay, BuySellSignalType::Stay) => true,
            (BuySellSignalType::Buy, BuySellSignalType::Buy) => true,
            (BuySellSignalType::Sell, BuySellSignalType::Sell) => true,
            _ => false,
        }
    }
}

/// The event a pattern signal stands for: a buy is an uptrend event of
/// `buy_kind`, a sell a downtrend event of `sell_kind`, and a stay no event.
pub open spec fn spec_signal_event(
    signal: BuySellSignal,
    buy_kind: EventKind,
    sell_kind: EventKind,
    window_bars: u32,
) -> Option<EventFact> {
    match signal.signal_type {
        BuySellSignalType::Buy => Some(
            EventFact {
                kind: buy_kind,
                occurred_at: signal.date,
                direction: DirectionType::Uptrend,
                event_params: EventParams::Pattern { pattern_name: buy_kind, window_bars },
            },
        ),
        BuySellSignalType::Sell => Some(
            EventFact {
                kind: sell_kind,
                occurred_at: signal.date,
                direction: DirectionType::Downtrend,
                event_params: EventParams::Pattern { pattern_name: sell_kind, window_bars },
            },
        ),
        BuySellSignalType::Stay => None,
    }
}

/// The events of the buy and sell signals, in signal order.
pub open spec fn spec_signal_events(
    signals: Seq<BuySellSignal>,
    buy_kind: EventKind,
    sell_kind: EventKind,
    window_bars: u32,
) -> Seq<EventFact>
    decreases signals.len(),
{
    if signals.len() == 0 {
        Seq::empty()
    } else {
        let rest = spec_signal_events(signals.drop_last(), buy_kind, sell_kind, window_bars);
        match spec_signal_event(signals.last(), buy_kind, sell_kind, window_bars) {
            Some(e) => rest.push(e),
            None => rest,
        }
    }
}

/// Turns pattern signals into events, dropping the stays.
pub fn signal_events(
    signals: &[BuySellSignal],
    buy_kind: EventKind,
    sell_kind: EventKind,
    window_bars: u32,
) -> (r: Vec<EventFact>)
    ensures
        r@ == spec_signal_events(signals@, buy_kind, sell_kind, window_bars),
{
    let mut out: Vec<EventFact> = Vec::new();
    let mut i: usize = 0;
    while i < signals.len()
        invariant
            i <= signals@.len(),
            out@ == spec_signal_events(signals@.take(i as int), buy_kind, sell_kind, window_bars),
        decreases signals.len() - i,
    {
        assert(signals@.take(i + 1).drop_last() == signals@.take(i as int));
        let signal = signals[i];
        match signal.signal_type {
            BuySellSignalType::Buy => {
                out.push(
                    EventFact {
                        kind: buy_kind,
                        occurred_at: signal.date,
                        direction: DirectionType::Uptrend,
                        event_params: EventParams::Pattern { pattern_name: buy_kind, window_bars },
                    },
                );
            },
            BuySellSignalType::Sell => {
                out.push(
                    EventFact {
                        kind: sell_kind,
                        occurred_at: signal.date,
                        direction: DirectionType::Downtrend,
                        event_params: EventParams::Pattern { pattern_name: sell_kind, window_bars },
                    },
                );
            },
            BuySellSignalType::Stay => {},
        }
        i = i + 1;
    }
    assert(signals@.take(signals@.len() as int) == signals@);
    out
}

/// Every event comes from a buy or sell signal: there are never more events
/// than signals, and none at all when every signal says stay.
pub proof fn lemma_signal_events_bounded(
    signals: Seq<BuySellSignal>,
    buy_kind: EventKind,
    sell_kind: EventKind,
    window_bars: u32,
)
    ensures
        spec_signal_events(signals, buy_kind, sell_kind, window_bars).len() <= signals.len(),
        (forall|i: int| 0 <= i < signals.len() ==> #[trigger] signals[i].signal_type
            == BuySellSignalType::Stay) ==> spec_signal_events(
            signals,
            buy_kind,
            sell_kind,
            window_bars,
        ).len() == 0,
    decreases signals.len(),
{
    if signals.len() > 0 {
        let d = signals.drop_last();
        lemma_signal_events_bounded(d, buy_kind, sell_kind, window_bars);
        if forall|i: int| 0 <= i < signals.len() ==> #[trigger] signals[i].signal_type
            == BuySellSignalType::Stay {
            assert forall|i: int| 0 <= i < d.len() implies #[trigger] d[i].signal_type
                == BuySellSignalType::Stay by {
                assert(d[i] == signals[i]);
            }
            assert(signals.last() == signals[signals.len() - 1]);
        }
    }
}

/// A buy signal becomes an uptrend event of the buy kind and a sell signal a
/// downtrend event of the sell kind, each on the signal's date with a pattern
/// of that kind; a stay becomes no event.
pub proof fn lemma_signal_event_follows_signal(
    signal: BuySellSignal,
    buy_kind: EventKind,
    sell_kind: EventKind,
    window_bars: u32,
)
    ensures
        spec_signal_event(signal, buy_kind, sell_kind, window_bars) is None <==> signal.signal_type
            == BuySellSignalType::Stay,
        signal.signal_type == BuySellSignalType::Buy ==> spec_signal_event(
            signal,
            buy_kind,
            sell_kind,
            window_bars,
        ) == Some(
            EventFact {
                kind: buy_kind,
                occurred_at: signal.date,
                direction: DirectionType::Uptrend,
                event_params: EventParams::Pattern { pattern_name: buy_kind, window_bars },
            },
        ),
        signal.signal_type == BuySellSignalType::Sell ==> spec_signal_event(
            signal,
            buy_kind,
            sell_kind,
            window_bars,
        ) == Some(
            EventFact {
                kind: sell_kind,
                occurred_at: signal.date,
                direction: DirectionType::Downtrend,
                event_params: EventParams::Pattern { pattern_name: sell_kind, window_bars },
            },
        ),
{
}

} // verus!
