//! Body engulfing: today's candle body swallows yesterday's, and the candle
//! turned from one colour to the other.
use crate::models::buy_sell_signal::{
    signal_events, spec_signal_events, BuySellSignal, BuySellSignalType,
};
use crate::models::candle_stick::{BullishBearishType, CandleStick};
use crate::models::technical_analysis::{EventFact, EventKind};
use crate::price::Comparison;
use vstd::prelude::*;

verus! {

/// How today's body compares with yesterday's, and the colours of both candles.
#[derive(Debug, Copy, Clone, PartialEq, Eq, Structural, Hash, Default)]
pub struct BodyEngulfing {
    pub body_low_ordering: Option<Comparison>,
    pub body_high_ordering: Option<Comparison>,
    pub prev_bullish_bearish: BullishBearishType,
    pub today_bullish_bearish: BullishBearishType,
}

/// Buy when today's body reaches below and above yesterday's and a bearish
/// candle is followed by a bullish one; sell for the same engulfing after a
/// bullish candle turned bearish; stay otherwise.
pub open spec fn spec_engulfing_signal_type(
    body_low_ordering: Option<Comparison>,
    body_high_ordering: Option<Comparison>,
    prev: BullishBearishType,
    today: BullishBearishType,
) -> BuySellSignalType {
    match (body_low_ordering, body_high_ordering, prev, today) {
        (
            Some(Comparison::Less),
            Some(Comparison::Greater),
            BullishBearishType::Bearish,
            BullishBearishType::Bullish,
        ) => BuySellSignalType::Buy,
        (
            Some(Comparison::Less),
            Some(Comparison::Greater),
            BullishBearishType::Bullish,
            BullishBearishType::Bearish,
        ) => BuySellSignalType::Sell,
        _ => BuySellSignalType::Stay,
    }
}

pub fn engulfing_signal_type(
    body_low_ordering: Option<Comparison>,
    body_high_ordering: Option<Comparison>,
    prev: BullishBearishType,
    today: BullishBearishType,
) -> (r: BuySellSignalType)
    ensures
        r == spec_engulfing_signal_type(body_low_ordering, body_high_ordering, prev, today),
{
    match (body_low_ordering, body_high_ordering, prev, today) {
        (
            Some(Comparison::Less),
            Some(Comparison::Greater),
            BullishBearishType::Bearish,
            BullishBearishType::Bullish,
        ) => BuySellSignalType::Buy,
        (
            Some(Comparison::Less),
            Some(Comparison::Greater),
            BullishBearishType::Bullish,
            BullishBearishType::Bearish,
        ) => BuySellSignalType::Sell,
        _ => BuySellSignalType::Stay,
    }
}

impl From<BodyEngulfing> for BuySellSignalType {
    fn from(value: BodyEngulfing) -> (r: BuySellSignalType) {
        engulfing_signal_type(
            value.body_low_ordering,
            value.body_high_ordering,
            value.prev_bullish_bearish,
            value.today_bullish_bearish,
        )
    }
}

impl vstd::std_specs::convert::FromSpecImpl<BodyEngulfing> for BuySellSignalType {
    open spec fn obeys_from_spec() -> bool {
        true
    }

    open spec fn from_spec(value: BodyEngulfing) -> BuySellSignalType {
        spec_engulfing_signal_type(
            value.body_low_ordering,
            value.body_high_ordering,
            value.prev_bullish_bearish,
            value.today_bullish_bearish,
        )
    }
}

/// The engulfing signal of `today` against `prev`, dated today.
pub open spec fn spec_engulfing_signal(prev: CandleStick, today: CandleStick) -> BuySellSignal {
    BuySellSignal {
        signal_type: spec_engulfing_signal_type(
            today.body_low.spec_partial_compare(prev.body_low),
            today.body_high.spec_partial_compare(prev.body_high),
            prev.bullish_bearish,
            today.bullish_bearish,
        ),
        date: today.date,
    }
}

/// The signal of each candle after the first.
pub open spec fn spec_engulfing_signals(candles: Seq<CandleStick>) -> Seq<BuySellSignal> {
    Seq::new(
        if candles.len() > 0 {
            (candles.len() - 1) as nat
        } else {
            0
        },
        |i: int| spec_engulfing_signal(candles[i], candles[i + 1]),
    )
}

/// The engulfing signal of each pair of consecutive candles.
pub fn engulfing_signals(value: &[CandleStick]) -> (r: Vec<BuySellSignal>)
    ensures
        r@ == spec_engulfing_signals(value@),
{
    let mut out: Vec<BuySellSignal> = Vec::new();
    let mut i: usize = 1;
    while i < value.len()
        invariant
            1 <= i,
            value@.len() > 0 ==> i <= value@.len(),
            value@.len() == 0 ==> out@.len() == 0,
            value@.len() > 0 ==> out@ == spec_engulfing_signals(value@).take(i - 1),
        decreases value.len() - i,
    {
        let prev = &value[i - 1];
        let today = &value[i];
        let signal_type = engulfing_signal_type(
            today.body_low.partial_compare(&prev.body_low),
            today.body_high.partial_compare(&prev.body_high),
            prev.bullish_bearish,
            today.bullish_bearish,
        );
        out.push(BuySellSignal { signal_type, date: today.date });
        i = i + 1;
    }
    proof {
        if value@.len() > 0 {
            assert(spec_engulfing_signals(value@).take(value@.len() - 1) == spec_engulfing_signals(
                value@,
            ));
        } else {
            assert(out@ == spec_engulfing_signals(value@));
        }
    }
    out
}

/// The body-engulfing signals of consecutive candles.
#[derive(Debug, Clone, PartialEq, Eq, Default)]
pub struct BodyEngulfings(pub Vec<BuySellSignal>);

impl BodyEngulfings {
    /// One signal for each pair of consecutive candles.
    pub fn from(value: &[CandleStick]) -> (r: BodyEngulfings)
        ensures
            r.0@ == spec_engulfing_signals(value@),
    {
        BodyEngulfings(engulfing_signals(value))
    }

    pub fn len(&self) -> (n: usize)
        ensures
            n == self.0@.len(),
    {
        self.0.len()
    }

    pub fn as_slice(&self) -> (s: &[BuySellSignal])
        ensures
            s@ == self.0@,
    {
        self.0.as_slice()
    }
}

/// Body-engulfing signals seen as events.
pub struct BodyEngulfingEvents<'a> {
    pub body_engulfings: &'a BodyEngulfings,
}

impl<'a> BodyEngulfingEvents<'a> {
    /// A buy is an uptrend body-engulfing event, a sell a downtrend one, each a
    /// pattern over two bars; stays give no event.
    pub fn into_event_facts(self) -> (r: Vec<EventFact>)
        ensures
            r@ == spec_signal_events(
                self.body_engulfings.0@,
                EventKind::BodyEngulfing,
                EventKind::BodyEngulfing,
                2,
            ),
    {
        signal_events(
            self.body_engulfings.0.as_slice(),
            EventKind::BodyEngulfing,
            EventKind::BodyEngulfing,
            2,
        )
    }
}

/// An engulfing signal needs today's body to reach strictly below and
/// strictly above yesterday's: buy exactly for such a bullish body after a
/// bearish one, sell exactly for such a bearish body after a bullish one,
/// stay otherwise.
pub proof fn lemma_engulfing_signal_type_needs_engulfing(
    body_low_ordering: Option<Comparison>,
    body_high_ordering: Option<Comparison>,
    prev: BullishBearishType,
    today: BullishBearishType,
)
    ensures
        spec_engulfing_signal_type(body_low_ordering, body_high_ordering, prev, today)
            == BuySellSignalType::Buy <==> (body_low_ordering == Some(Comparison::Less)
            && body_high_ordering == Some(Comparison::Greater) && prev == BullishBearishType::Bearish
            && today == BullishBearishType::Bullish),
        spec_engulfing_signal_type(body_low_ordering, body_high_ordering, prev, today)
            == BuySellSignalType::Sell <==> (body_low_ordering == Some(Comparison::Less)
            && body_high_ordering == Some(Comparison::Greater) && prev == BullishBearishType::Bullish
            && today == BullishBearishType::Bearish),
        spec_engulfing_signal_type(body_low_ordering, body_high_ordering, prev, today)
            != BuySellSignalType::Stay ==> body_low_ordering == Some(Comparison::Less)
            && body_high_ordering == Some(Comparison::Greater),
{
}

/// For consecutive candles, the signal dated on each candle after the first
/// is a buy exactly when its body engulfs the previous body (lower low and
/// higher high, strictly) and a bearish candle turned bullish, a sell exactly
/// when it engulfs and a bullish candle turned bearish, and stay otherwise.
pub proof fn lemma_engulfing_signals_need_engulfing(candles: Seq<CandleStick>)
    ensures
        candles.len() > 0 ==> spec_engulfing_signals(candles).len() == candles.len() - 1,
        candles.len() == 0 ==> spec_engulfing_signals(candles).len() == 0,
        forall|i: int|
            0 <= i < spec_engulfing_signals(candles).len() ==> {
                let s = #[trigger] spec_engulfing_signals(candles)[i];
                let prev = candles[i];
                let today = candles[i + 1];
                let engulfs = today.body_low.spec_partial_compare(prev.body_low) == Some(
                    Comparison::Less,
                ) && today.body_high.spec_partial_compare(prev.body_high) == Some(
                    Comparison::Greater,
                );
                &&& s.date == today.date
                &&& s.signal_type == BuySellSignalType::Buy <==> (engulfs && prev.bullish_bearish
                    == BullishBearishType::Bearish && today.bullish_bearish
                    == BullishBearishType::Bullish)
                &&& s.signal_type == BuySellSignalType::Sell <==> (engulfs && prev.bullish_bearish
                    == BullishBearishType::Bullish && today.bullish_bearish
                    == BullishBearishType::Bearish)
                &&& s.signal_type != BuySellSignalType::Stay ==> engulfs
            },
{
}

} // verus!
