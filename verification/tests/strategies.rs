use quantitative_data_analysis_rs::date::Date;
use quantitative_data_analysis_rs::models::buy_sell_signal::{BuySellSignal, BuySellSignalType};
use quantitative_data_analysis_rs::models::crossover_pattern::CrossoverPattern;
use quantitative_data_analysis_rs::models::crossover_pattern_close;
use quantitative_data_analysis_rs::models::crossover_pattern_volume;
use quantitative_data_analysis_rs::models::macd::{MACDs, MACD};
use quantitative_data_analysis_rs::models::macd_cos::{MacdCos, MacdCoses};
use quantitative_data_analysis_rs::models::macps::MACPS;
use quantitative_data_analysis_rs::models::sma::{SMAListTrio, SMA};
use quantitative_data_analysis_rs::models::sma_cos::{SmaCos, SmaCoses};
use quantitative_data_analysis_rs::models::sma_cps::SmaCps;
use quantitative_data_analysis_rs::models::stock::Stock;
use quantitative_data_analysis_rs::models::trend_reversal_analysis::{
    crossover_pattern_to_buy_sell_signal, latest_buy_or_sell_signal_type,
    latest_signal_from_buy_sell_dates, TrendReversalAnalysis, TrendReversalAnalysisSet,
};
use quantitative_data_analysis_rs::price::Price;

use BuySellSignalType::{Buy, Sell, Stay};

fn d(n: i32) -> Date {
    Date::from_days(738_000 + n)
}

fn p(x: f64) -> Price {
    Price::from_bits(x.to_bits())
}

fn s(signal_type: BuySellSignalType, date: Date) -> BuySellSignal {
    BuySellSignal { signal_type, date }
}

fn sma_cos(date: Date, close: CrossoverPattern) -> SmaCos {
    SmaCos {
        date,
        close_25: None,
        volume_25: None,
        crossover_pattern_close: crossover_pattern_close::CrossoverPattern(close),
        crossover_pattern_volume: crossover_pattern_volume::CrossoverPattern(CrossoverPattern::Neither),
    }
}

fn macd_cos(date: Date, pattern: CrossoverPattern) -> MacdCos {
    MacdCos { date, macd: p(0.0), signal: p(0.0), histogram: p(0.0), crossover_pattern: pattern }
}

fn stock(date: Date, close: f64) -> Stock {
    Stock {
        date,
        open: p(close),
        high: p(close),
        low: p(close),
        close: p(close),
        adj_close: p(close),
        volume: 0,
    }
}

fn sma<const N: usize>(date: Date, close: f64) -> SMA<N> {
    SMA { date, close: p(close), volume: p(0.0) }
}

#[test]
fn latest_buy_or_sell_skips_stays_and_takes_the_last_of_the_latest_date() {
    assert_eq!(latest_buy_or_sell_signal_type(&[]), None);
    assert_eq!(latest_buy_or_sell_signal_type(&[s(Stay, d(5))]), None);
    assert_eq!(
        latest_buy_or_sell_signal_type(&[s(Buy, d(1)), s(Sell, d(3)), s(Stay, d(9)), s(Buy, d(2))]),
        Some((d(3), Sell))
    );
    assert_eq!(
        latest_buy_or_sell_signal_type(&[s(Buy, d(4)), s(Sell, d(4)), s(Sell, d(1))]),
        Some((d(4), Sell))
    );
}

#[test]
fn buy_and_sell_dates_to_latest_signal() {
    assert_eq!(latest_signal_from_buy_sell_dates(Some(d(2)), Some(d(1))), Some((d(2), Buy)));
    assert_eq!(latest_signal_from_buy_sell_dates(Some(d(1)), Some(d(2))), Some((d(2), Sell)));
    assert_eq!(latest_signal_from_buy_sell_dates(Some(d(2)), Some(d(2))), Some((d(2), Buy)));
    assert_eq!(latest_signal_from_buy_sell_dates(None, Some(d(2))), Some((d(2), Sell)));
    assert_eq!(latest_signal_from_buy_sell_dates(Some(d(2)), None), Some((d(2), Buy)));
    assert_eq!(latest_signal_from_buy_sell_dates(None, None), None);
}

#[test]
fn crossovers_become_dated_signals() {
    assert_eq!(
        crossover_pattern_to_buy_sell_signal(d(1), CrossoverPattern::GoldenCross),
        Some((d(1), Buy))
    );
    assert_eq!(
        crossover_pattern_to_buy_sell_signal(d(1), CrossoverPattern::DeadCross),
        Some((d(1), Sell))
    );
    assert_eq!(crossover_pattern_to_buy_sell_signal(d(1), CrossoverPattern::Neither), None);
    assert_eq!(BuySellSignalType::from(CrossoverPattern::Neither), Stay);
}

#[test]
fn trend_reversal_is_unanimous() {
    let sma_coses = SmaCoses(vec![
        sma_cos(d(1), CrossoverPattern::DeadCross),
        sma_cos(d(3), CrossoverPattern::GoldenCross),
        sma_cos(d(4), CrossoverPattern::Neither),
    ]);
    let macd_coses = MacdCoses(vec![macd_cos(d(2), CrossoverPattern::GoldenCross)]);
    let sma_cps = SmaCps { buy: Some(d(5)), sell: Some(d(4)) };
    let body_engulfings = vec![s(Sell, d(1)), s(Buy, d(2))];
    let ms_eses = vec![s(Buy, d(3)), s(Stay, d(6))];
    let analysis = TrendReversalAnalysis::from(TrendReversalAnalysisSet {
        body_engulfings: &body_engulfings,
        ms_eses: &ms_eses,
        sma_cps: &sma_cps,
        sma_coses: &sma_coses,
        macd_coses: &macd_coses,
    });
    assert_eq!(
        analysis,
        TrendReversalAnalysis {
            signal_type: Buy,
            sma_cos: Some((d(3), Buy)),
            sma_cps: Some((d(5), Buy)),
            body_engulfing: Some((d(2), Buy)),
            ms_es: Some((d(3), Buy)),
            macd_cos: Some((d(2), Buy)),
        }
    );

    let ms_eses = vec![s(Buy, d(3)), s(Sell, d(6))];
    let analysis = TrendReversalAnalysis::from(TrendReversalAnalysisSet {
        body_engulfings: &body_engulfings,
        ms_eses: &ms_eses,
        sma_cps: &sma_cps,
        sma_coses: &sma_coses,
        macd_coses: &macd_coses,
    });
    assert_eq!(analysis.signal_type, Stay);
    assert_eq!(analysis.ms_es, Some((d(6), Sell)));

    let no_macd = MacdCoses(vec![]);
    let analysis = TrendReversalAnalysis::from(TrendReversalAnalysisSet {
        body_engulfings: &body_engulfings,
        ms_eses: &[s(Buy, d(3))],
        sma_cps: &sma_cps,
        sma_coses: &sma_coses,
        macd_coses: &no_macd,
    });
    assert_eq!(analysis.signal_type, Stay);
    assert_eq!(analysis.macd_cos, None);
}

#[test]
fn all_sells_give_sell() {
    let sma_coses = SmaCoses(vec![sma_cos(d(1), CrossoverPattern::DeadCross)]);
    let macd_coses = MacdCoses(vec![macd_cos(d(1), CrossoverPattern::DeadCross)]);
    let sma_cps = SmaCps { buy: None, sell: Some(d(1)) };
    let analysis = TrendReversalAnalysis::from(TrendReversalAnalysisSet {
        body_engulfings: &[s(Sell, d(1))],
        ms_eses: &[s(Sell, d(1))],
        sma_cps: &sma_cps,
        sma_coses: &sma_coses,
        macd_coses: &macd_coses,
    });
    assert_eq!(analysis.signal_type, Sell);
}

#[test]
fn macd_coses_compare_consecutive_days() {
    let macd = |n: i32, m: f64, sg: f64| MACD { date: d(n), macd: p(m), signal: p(sg), histogram: p(m - sg) };
    let macds = MACDs::<12, 26, 9>(vec![macd(1, -1.0, 0.0), macd(2, 1.0, 0.0), macd(3, 2.0, 0.0), macd(4, -1.0, 0.0)]);
    let coses = MacdCoses::from(macds);
    let patterns: Vec<CrossoverPattern> = coses.as_slice().iter().map(|c| c.crossover_pattern).collect();
    assert_eq!(
        patterns,
        vec![CrossoverPattern::GoldenCross, CrossoverPattern::Neither, CrossoverPattern::DeadCross]
    );
    assert_eq!(coses.as_slice()[0].date, d(2));
    assert_eq!(coses.as_slice()[0].histogram, p(1.0));
    assert_eq!(MacdCoses::from(MACDs::<12, 26, 9>(vec![])).len(), 0);
}

#[test]
fn comparison_strategy_latest_buy_and_sell() {
    let stocks = vec![stock(d(1), 1.0), stock(d(2), 9.0), stock(d(3), 1.0), stock(d(4), 1.0)];
    let smas_5 = vec![sma::<5>(d(1), 2.0), sma::<5>(d(2), 8.0), sma::<5>(d(3), 2.0), sma::<5>(d(4), 2.0)];
    let smas_25 = vec![sma::<25>(d(1), 3.0), sma::<25>(d(2), 7.0), sma::<25>(d(3), 3.0), sma::<25>(d(4), 3.0)];
    let smas_50 = vec![sma::<50>(d(1), 4.0), sma::<50>(d(2), 6.0), sma::<50>(d(3), 4.0)];
    let trio = || SMAListTrio { smas_n: &smas_5[..], smas_o: &smas_25[..], smas_p: &smas_50[..] };
    let cps = SmaCps::from((&stocks[..], trio()));
    assert_eq!(cps, SmaCps { buy: Some(d(3)), sell: Some(d(2)) });
    let macps = MACPS::from((&stocks[..], trio()));
    assert_eq!((macps.buy, macps.sell), (cps.buy, cps.sell));
    let none = SmaCps::from((&stocks[..0], trio()));
    assert_eq!(none, SmaCps { buy: None, sell: None });
}
