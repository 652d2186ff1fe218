//! Engulfing Candlestick Pattern 2: today's body swallows yesterday's and the
//! candle changed colour.
use crate::models::body_engulfing::{
    engulfing_signal_type, engulfing_signals, spec_engulfing_signal_type, spec_engulfing_signals,
};
use crate::models::buy_sell_signal::{BuySellSignal, BuySellSignalType};
use crate::models::candle_stick::{BullishBearishType, CandleStick};
use crate::price::Comparison;
use vstd::prelude::*;

verus! {

/// How today's body compares with yesterday's, and the colours of both candles.
#[derive(Debug, Copy, Clone, PartialEq, Eq, Structural, Hash, Default)]
pub struct ECP2 {
    pub body_low_ordering: Option<Comparison>,
    pub body_high_ordering: Option<Comparison>,
    pub prev_bullish_bearish: BullishBearishType,
    pub today_bullish_bearish: BullishBearishType,
}

impl From<ECP2> for BuySellSignalType {
    fn from(value: ECP2) -> (r: BuySellSignalType) {
        engulfing_signal_type(
            value.body_low_ordering,
            value.body_high_ordering,
            value.prev_bullish_bearish,
            value.today_bullish_bearish,
        )
    }
}

impl vstd::std_specs::convert::FromSpecImpl<ECP2> for BuySellSignalType {
    open spec fn obeys_from_spec() -> bool {
        true
    }

    open spec fn from_spec(value: ECP2) -> BuySellSignalType {
        spec_engulfing_signal_type(
            value.body_low_ordering,
            value.body_high_ordering,
            value.prev_bullish_bearish,
            value.today_bullish_bearish,
        )
    }
}

/// The ECP2 signals of consecutive candles; they are the body-engulfing
/// signals, since both follow the same rule.
#[derive(Debug, Clone, PartialEq, Eq, Default)]
pub struct ECP2s(pub Vec<BuySellSignal>);

impl ECP2s {
    /// One signal for each pair of consecutive candles.
    pub fn from(value: &[CandleStick]) -> (r: ECP2s)
        ensures
            r.0@ == spec_engulfing_signals(value@),
    {
        ECP2s(engulfing_signals(value))
    }

    pub fn len(&self) -> (n: usize)
        ensures
            n == self.0@.len(),
    {
        self.0.len()
    }

    pub fn as_slice(&self) -> (s: &[BuySellSignal])
        ensures
            s@ == self.0@,
    {
        self.0.as_slice()
    }
}

} // verus!
