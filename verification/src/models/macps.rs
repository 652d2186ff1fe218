//! Moving average comparison strategy (the same rule as the simple moving
//! average comparison strategy).
use crate::date::Date;
use crate::models::buy_sell_signal::BuySellSignalType;
use crate::models::sma::SMAListTrio;
use crate::models::sma_cps::{latest_comparison_signals, signal_is, spec_comparison_signals};
use crate::models::stock::Stock;
use crate::models::sma::SMA;
use crate::models::sma_cps::SmaCps;
use crate::search::{is_latest_matching, lemma_latest_matching_unique};
use vstd::prelude::*;

verus! {

/// The latest buy and sell dates of the strategy.
#[derive(Debug, Copy, Clone, PartialEq, Eq, Structural, Hash, PartialOrd, Ord, Default)]
pub struct MACPS {
    pub buy: Option<Date>,
    pub sell: Option<Date>,
}

impl MACPS {
    /// The latest day on which close < 5-day < 25-day < 50-day average
    /// (buy), and the latest on which close > 5-day > 25-day > 50-day (sell).
    pub fn from(value: (&[Stock], SMAListTrio<'_, 5, 25, 50>)) -> (r: MACPS)
        ensures
            is_latest_matching(
                spec_comparison_signals(value.0@, value.1.smas_n@, value.1.smas_o@, value.1.smas_p@),
                signal_is(BuySellSignalType::Buy),
                r.buy,
            ),
            is_latest_matching(
                spec_comparison_signals(value.0@, value.1.smas_n@, value.1.smas_o@, value.1.smas_p@),
                signal_is(BuySellSignalType::Sell),
                r.sell,
            ),
    {
        let (stocks, trio) = value;
        let (buy, sell) = latest_comparison_signals(stocks, trio.smas_n, trio.smas_o, trio.smas_p);
        MACPS { buy, sell }
    }
}

/// The moving average comparison strategy and the simple moving average
/// comparison strategy give the same latest buy and sell dates for the same
/// trading days and averages.
pub proof fn lemma_macps_agrees_with_sma_cps(
    stocks: Seq<Stock>,
    smas_5: Seq<SMA<5>>,
    smas_25: Seq<SMA<25>>,
    smas_50: Seq<SMA<50>>,
    macps: MACPS,
    sma_cps: SmaCps,
)
    requires
        is_latest_matching(
            spec_comparison_signals(stocks, smas_5, smas_25, smas_50),
            signal_is(BuySellSignalType::Buy),
            macps.buy,
        ),
        is_latest_matching(
            spec_comparison_signals(stocks, smas_5, smas_25, smas_50),
            signal_is(BuySellSignalType::Sell),
            macps.sell,
        ),
        is_latest_matching(
            spec_comparison_signals(stocks, smas_5, smas_25, smas_50),
            signal_is(BuySellSignalType::Buy),
            sma_cps.buy,
        ),
        is_latest_matching(
            spec_comparison_signals(stocks, smas_5, smas_25, smas_50),
            signal_is(BuySellSignalType::Sell),
            sma_cps.sell,
        ),
    ensures
        macps.buy == sma_cps.buy,
        macps.sell == sma_cps.sell,
{
    let signals = spec_comparison_signals(stocks, smas_5, smas_25, smas_50);
    lemma_latest_matching_unique(signals, signal_is(BuySellSignalType::Buy), macps.buy, sma_cps.buy);
    lemma_latest_matching_unique(signals, signal_is(BuySellSignalType::Sell), macps.sell, sma_cps.sell);
}

} // verus!
