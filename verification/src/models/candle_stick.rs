//! Candlesticks: the body and wicks of a trading day, and the rules that
//! classify them.
use crate::date::Date;
use crate::price::{Comparison, Price};
use vstd::prelude::*;

verus! {

/// Whether a candle closed above its open (bullish), below it (bearish), or neither.
#[derive(Debug, Copy, Clone, PartialEq, Eq, Structural, Hash, PartialOrd, Ord, Default)]
pub enum BullishBearishType {
    #[default]
    Neither,
    Bullish,
    Bearish,
}

/// One trading day seen as a candlestick.
#[derive(Debug, Copy, Clone, PartialEq, Default)]
pub struct CandleStick {
    pub date: Date,
    pub open: Price,
    pub high: Price,
    pub low: Price,
    pub close: Price,
    pub size: Price,
    pub body: Price,
    pub body_high: Price,
    pub body_low: Price,
    pub upper_wick: Price,
    pub lower_wick: Price,
    pub body_ratio: Price,
    pub upper_wick_ratio: Price,
    pub lower_wick_ratio: Price,
    pub bullish_bearish: BullishBearishType,
    pub is_marubozu: bool,
    pub is_doji: bool,
}

/// `open < close` is bullish, `open > close` bearish; equal or unordered
/// (NaN) prices are neither.
pub open spec fn spec_bullish_bearish(open: Price, close: Price) -> BullishBearishType {
    match open.spec_partial_compare(close) {
        Some(Comparison::Less) => BullishBearishType::Bullish,
        Some(Comparison::Greater) => BullishBearishType::Bearish,
        _ => BullishBearishType::Neither,
    }
}

/// `a >= b` on binary64 values.
pub open spec fn spec_ge(a: Price, b: Price) -> bool {
    a.spec_partial_compare(b) == Some(Comparison::Greater) || a.spec_partial_compare(b) == Some(
        Comparison::Equal,
    )
}

/// `a <= b` on binary64 values.
pub open spec fn spec_le(a: Price, b: Price) -> bool {
    a.spec_partial_compare(b) == Some(Comparison::Less) || a.spec_partial_compare(b) == Some(
        Comparison::Equal,
    )
}

/// A strict marubozu: both ratios finite, the body at least its minimum
/// share of the range and the larger wick at most its maximum share.
pub open spec fn spec_is_marubozu(
    body_ratio: Price,
    body_min_ratio: Price,
    wick_ratio: Price,
    wick_max_ratio: Price,
) -> bool {
    body_ratio.spec_is_finite() && wick_ratio.spec_is_finite() && spec_ge(
        body_ratio,
        body_min_ratio,
    ) && spec_le(wick_ratio, wick_max_ratio)
}

/// A doji: a finite body ratio no larger than the maximum.
pub open spec fn spec_is_doji(body_ratio: Price, doji_max_body_ratio: Price) -> bool {
    body_ratio.spec_is_finite() && spec_le(body_ratio, doji_max_body_ratio)
}

/// `a >= b`.
fn price_ge(a: &Price, b: &Price) -> (r: bool)
    ensures
        r == spec_ge(*a, *b),
{
    match a.partial_compare(b) {
        Some(Comparison::Greater) => true,
        Some(Comparison::Equal) => true,
        _ => false,
    }
}

/// `a <= b`.
fn price_le(a: &Price, b: &Price) -> (r: bool)
    ensures
        r == spec_le(*a, *b),
{
    match a.partial_compare(b) {
        Some(Comparison::Less) => true,
        Some(Comparison::Equal) => true,
        _ => false,
    }
}

impl CandleStick {
    /// Classifies a candle by its open and close.
    pub fn get_bullish_bearish_type(open: Price, close: Price) -> (r: BullishBearishType)
        ensures
            r == spec_bullish_bearish(open, close),
    {
        match open.partial_compare(&close) {
            None => BullishBearishType::Neither,
            Some(Comparison::Less) => BullishBearishType::Bullish,
            Some(Comparison::Equal) => BullishBearishType::Neither,
            Some(Comparison::Greater) => BullishBearishType::Bearish,
        }
    }

    /// Strict marubozu: a large body and each wick individually very small.
    pub fn is_marubozu(
        body_ratio: Price,
        body_min_ratio: Price,
        wick_ratio: Price,
        wick_max_ratio: Price,
    ) -> (r: bool)
        ensures
            r == spec_is_marubozu(body_ratio, body_min_ratio, wick_ratio, wick_max_ratio),
    {
        if !body_ratio.is_finite() || !wick_ratio.is_finite() {
            return false;
        }
        price_ge(&body_ratio, &body_min_ratio) && price_le(&wick_ratio, &wick_max_ratio)
    }

    /// Doji: a body tiny relative to the whole range; wicks unrestricted.
    pub fn is_doji(body_ratio: Price, doji_max_body_ratio: Price) -> (r: bool)
        ensures
            r == spec_is_doji(body_ratio, doji_max_body_ratio),
    {
        body_ratio.is_finite() && price_le(&body_ratio, &doji_max_body_ratio)
    }
}

/// Why a marubozu body ratio (a percentage) was refused.
#[derive(Debug, Copy, Clone, PartialEq, Eq, Structural, Hash)]
pub enum CandleSticksError {
    /// The ratio is above 100%.
    MarubozuBodyMinRatioGreaterThan100,
    /// The ratio is below 80%.
    MarubozuBodyMinRatioLessThanEqual80,
}

/// The minimum body ratio of a marubozu, in percent, must lie in 80..=100.
pub open spec fn spec_check_marubozu_body_min_ratio(n: usize) -> Result<(), CandleSticksError> {
    if n > 100 {
        Err(CandleSticksError::MarubozuBodyMinRatioGreaterThan100)
    } else if n < 80 {
        Err(CandleSticksError::MarubozuBodyMinRatioLessThanEqual80)
    } else {
        Ok(())
    }
}

/// Candlesticks classified with a marubozu minimum body ratio of `N` percent,
/// a marubozu maximum wick ratio of `M` percent and a doji maximum body ratio
/// of `O` percent.
#[derive(Debug, Clone, PartialEq, Default)]
pub struct CandleSticks<const N: usize, const M: usize, const O: usize>(pub Vec<CandleStick>);

impl<const N: usize, const M: usize, const O: usize> CandleSticks<N, M, O> {
    /// Checks the marubozu minimum body ratio `N`.
    pub fn check_ratios() -> (r: Result<(), CandleSticksError>)
        ensures
            r == spec_check_marubozu_body_min_ratio(N),
    {
        if N > 100 {
            return Err(CandleSticksError::MarubozuBodyMinRatioGreaterThan100);
        }
        if N < 80 {
            return Err(CandleSticksError::MarubozuBodyMinRatioLessThanEqual80);
        }
        Ok(())
    }

    /// Wraps candlesticks built for these ratios, refusing a marubozu minimum
    /// body ratio outside 80..=100 percent.
    pub fn from_candle_sticks(candle_sticks: Vec<CandleStick>) -> (r: Result<
        CandleSticks<N, M, O>,
        CandleSticksError,
    >)
        ensures
            spec_check_marubozu_body_min_ratio(N) matches Err(e) ==> r == Err::<
                CandleSticks<N, M, O>,
                CandleSticksError,
            >(e),
            spec_check_marubozu_body_min_ratio(N) is Ok ==> (r matches Ok(c) && c.0@
                == candle_sticks@),
    {
        match Self::check_ratios() {
            Err(e) => Err(e),
            Ok(()) => Ok(CandleSticks(candle_sticks)),
        }
    }

    pub fn len(&self) -> (n: usize)
        ensures
            n == self.0@.len(),
    {
        self.0.len()
    }

    pub fn as_slice(&self) -> (s: &[CandleStick])
        ensures
            s@ == self.0@,
    {
        self.0.as_slice()
    }
}

} // verus!
