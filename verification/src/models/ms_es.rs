//! Morning star / evening star: a candle, then a doji, then a candle of the
//! opposite colour.
use crate::models::buy_sell_signal::{
    signal_events, spec_signal_events, BuySellSignal, BuySellSignalType,
};
use crate::models::candle_stick::{BullishBearishType, CandleStick};
use crate::models::technical_analysis::{EventFact, EventKind};
use vstd::prelude::*;

verus! {

/// The three candles that make a star pattern.
#[derive(Debug, Copy, Clone, PartialEq, Eq, Structural, Hash, Default)]
pub struct MsEs {
    pub two_days_before_bullish_bearish: BullishBearishType,
    pub a_day_before_is_doji: bool,
    pub target_day_bullish_bearish: BullishBearishType,
}

/// Morning star (buy): bearish, then a doji, then bullish. Evening star
/// (sell): bullish, then a doji, then bearish. Stay otherwise.
pub open spec fn spec_ms_es_signal_type(value: MsEs) -> BuySellSignalType {
    match (
        value.two_days_before_bullish_bearish,
        value.a_day_before_is_doji,
        value.target_day_bullish_bearish,
    ) {
        (BullishBearishType::Bearish, true, BullishBearishType::Bullish) => BuySellSignalType::Buy,
        (BullishBearishType::Bullish, true, BullishBearishType::Bearish) => BuySellSignalType::Sell,
        _ => BuySellSignalType::Stay,
    }
}

impl From<MsEs> for BuySellSignalType {
    fn from(value: MsEs) -> (r: BuySellSignalType) {
        match (
            value.two_days_before_bullish_bearish,
            value.a_day_before_is_doji,
            value.target_day_bullish_bearish,
        ) {
            (BullishBearishType::Bearish, true, BullishBearishType::Bullish) => {
                BuySellSignalType::Buy
            },
            (BullishBearishType::Bullish, true, BullishBearishType::Bearish) => {
                BuySellSignalType::Sell
            },
            _ => BuySellSignalType::Stay,
        }
    }
}

impl vstd::std_specs::convert::FromSpecImpl<MsEs> for BuySellSignalType {
    open spec fn obeys_from_spec() -> bool {
        true
    }

    open spec fn from_spec(value: MsEs) -> BuySellSignalType {
        spec_ms_es_signal_type(value)
    }
}

/// The signal of each candle from the third on, over it and the two before.
pub open spec fn spec_ms_eses(candles: Seq<CandleStick>) -> Seq<BuySellSignal> {
    Seq::new(
        if candles.len() >= 2 {
            (candles.len() - 2) as nat
        } else {
            0
        },
        |i: int|
            BuySellSignal {
                signal_type: spec_ms_es_signal_type(
                    MsEs {
                        two_days_before_bullish_bearish: candles[i].bullish_bearish,
                        a_day_before_is_doji: candles[i + 1].is_doji,
                        target_day_bullish_bearish: candles[i + 2].bullish_bearish,
                    },
                ),
                date: candles[i + 2].date,
            },
    )
}

/// The star signals of each run of three consecutive candles.
#[derive(Debug, Clone, PartialEq, Eq, Default)]
pub struct MsEses(pub Vec<BuySellSignal>);

impl MsEses {
    /// One signal for each window of three consecutive candles.
    pub fn from(value: &[CandleStick]) -> (r: MsEses)
        ensures
            r.0@ == spec_ms_eses(value@),
    {
        let mut out: Vec<BuySellSignal> = Vec::new();
        let mut i: usize = 2;
        while i < value.len()
            invariant
                2 <= i,
                value@.len() >= 2 ==> i <= value@.len(),
                value@.len() < 2 ==> out@.len() == 0,
                value@.len() >= 2 ==> out@ == spec_ms_eses(value@).take(i - 2),
            decreases value.len() - i,
        {
            let ms_es = MsEs {
                two_days_before_bullish_bearish: value[i - 2].bullish_bearish,
                a_day_before_is_doji: value[i - 1].is_doji,
                target_day_bullish_bearish: value[i].bullish_bearish,
            };
            let signal_type = BuySellSignalType::from(ms_es);
            out.push(BuySellSignal { signal_type, date: value[i].date });
            i = i + 1;
        }
        proof {
            if value@.len() >= 2 {
                assert(spec_ms_eses(value@).take(value@.len() - 2) == spec_ms_eses(value@));
            } else {
                assert(out@ == spec_ms_eses(value@));
            }
        }
        MsEses(out)
    }

    pub fn len(&self) -> (n: usize)
        ensures
            n == self.0@.len(),
    {
        self.0.len()
    }

    pub fn as_slice(&self) -> (s: &[BuySellSignal])
        ensures
            s@ == self.0@,
    {
        self.0.as_slice()
    }
}

/// Star signals seen as events.
pub struct MsEsEvents<'a> {
    pub mseses: &'a MsEses,
}

impl<'a> MsEsEvents<'a> {
    /// A buy is an uptrend morning-star event, a sell a downtrend evening-star
    /// event, each a pattern over three bars; stays give no event.
    pub fn into_event_facts(self) -> (r: Vec<EventFact>)
        ensures
            r@ == spec_signal_events(
                self.mseses.0@,
                EventKind::MorningStar,
                EventKind::EveningStar,
                3,
            ),
    {
        signal_events(self.mseses.0.as_slice(), EventKind::MorningStar, EventKind::EveningStar, 3)
    }
}

/// A star needs all three candles: buy (morning star) exactly for bearish,
/// doji, bullish; sell (evening star) exactly for bullish, doji, bearish;
/// stay otherwise.
pub proof fn lemma_ms_es_signal_type_needs_three_candles(value: MsEs)
    ensures
        spec_ms_es_signal_type(value) == BuySellSignalType::Buy <==> (
        value.two_days_before_bullish_bearish == BullishBearishType::Bearish
            && value.a_day_before_is_doji && value.target_day_bullish_bearish
            == BullishBearishType::Bullish),
        spec_ms_es_signal_type(value) == BuySellSignalType::Sell <==> (
        value.two_days_before_bullish_bearish == BullishBearishType::Bullish
            && value.a_day_before_is_doji && value.target_day_bullish_bearish
            == BullishBearishType::Bearish),
        !value.a_day_before_is_doji ==> spec_ms_es_signal_type(value) == BuySellSignalType::Stay,
{
}

/// For each run of three consecutive candles, the signal dated on the third
/// is a buy exactly when the first is bearish, the second a doji and the
/// third bullish, a sell exactly when the first is bullish, the second a doji
/// and the third bearish, and stay otherwise.
pub proof fn lemma_ms_eses_need_three_candles(candles: Seq<CandleStick>)
    ensures
        candles.len() >= 2 ==> spec_ms_eses(candles).len() == candles.len() - 2,
        candles.len() < 2 ==> spec_ms_eses(candles).len() == 0,
        forall|i: int|
            0 <= i < spec_ms_eses(candles).len() ==> {
                let s = #[trigger] spec_ms_eses(candles)[i];
                &&& s.date == candles[i + 2].date
                &&& s.signal_type == BuySellSignalType::Buy <==> (candles[i].bullish_bearish
                    == BullishBearishType::Bearish && candles[i + 1].is_doji && candles[i
                    + 2].bullish_bearish == BullishBearishType::Bullish)
                &&& s.signal_type == BuySellSignalType::Sell <==> (candles[i].bullish_bearish
                    == BullishBearishType::Bullish && candles[i + 1].is_doji && candles[i
                    + 2].bullish_bearish == BullishBearishType::Bearish)
            },
{
}

} // verus!
