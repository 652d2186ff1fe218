use quantitative_data_analysis_rs::date::Date;
use quantitative_data_analysis_rs::models::analysis_pattern::{
    analysis_pattern, AnalysisPattern, CrossoverPatternRateOfChangePair,
};
use quantitative_data_analysis_rs::models::crossover_pattern::CrossoverPattern;
use quantitative_data_analysis_rs::models::crossover_pattern_close;
use quantitative_data_analysis_rs::models::crossover_pattern_volume;
use quantitative_data_analysis_rs::models::latest_chance::LatestChance;
use quantitative_data_analysis_rs::models::macos::{
    macos_analysis_pattern, AnalysisPattern as MacosPattern, Pattern, PatternCloseVolume, MACOS,
};
use quantitative_data_analysis_rs::models::macos_analysis_close::{
    MACOSAnalysisClose, MACOSAnalysisCloses, MACOSObservation,
};
use quantitative_data_analysis_rs::models::macos_analysis_volume::{
    MACOSAnalysisVolume, MACOSAnalysisVolumes,
};
use quantitative_data_analysis_rs::models::sma_cos::SmaCos;
use quantitative_data_analysis_rs::models::sma_cos_analysis_close::{
    AnalysisResult, AnalysisResults, ChanceCounts, CrossoverObservation,
};
use quantitative_data_analysis_rs::models::sma_cos_analysis_volume;
use quantitative_data_analysis_rs::models::stock::Stock;
use quantitative_data_analysis_rs::models::stocks_macoses_pair::StocksMACOSESPair;
use quantitative_data_analysis_rs::models::stocks_sma_coses_pair::StocksSmaCosesPair;
use quantitative_data_analysis_rs::price::Price;

fn d(n: i32) -> Date {
    Date::from_days(738_000 + n)
}

fn p(x: f64) -> Price {
    Price::from_bits(x.to_bits())
}

fn stock(date: Date, close: f64, volume: u64) -> Stock {
    Stock {
        date,
        open: p(close),
        high: p(close),
        low: p(close),
        close: p(close),
        adj_close: p(close),
        volume,
    }
}

fn cos(date: Date, close: CrossoverPattern, volume: CrossoverPattern) -> SmaCos {
    SmaCos {
        date,
        close_25: None,
        volume_25: None,
        crossover_pattern_close: crossover_pattern_close::CrossoverPattern(close),
        crossover_pattern_volume: crossover_pattern_volume::CrossoverPattern(volume),
    }
}

fn macos(date: Date, close: Pattern, volume: Pattern) -> MACOS {
    MACOS { date, sma_set_25: None, pattern_close_volume: PatternCloseVolume { close, volume } }
}

fn rate(o_close: Price, after: Price) -> Price {
    let close = f64::from_bits(o_close.bits);
    let after = f64::from_bits(after.bits);
    p((after - close) / close * 100.0)
}

#[test]
fn analysis_pattern_by_sign_of_rate() {
    let cases = [
        (CrossoverPattern::GoldenCross, 1.0, AnalysisPattern::GoldenChance),
        (CrossoverPattern::GoldenCross, 0.0, AnalysisPattern::GoldenLoss),
        (CrossoverPattern::GoldenCross, -0.0, AnalysisPattern::GoldenLoss),
        (CrossoverPattern::GoldenCross, -2.0, AnalysisPattern::GoldenLoss),
        (CrossoverPattern::DeadCross, -1.0, AnalysisPattern::DeadChance),
        (CrossoverPattern::DeadCross, 0.0, AnalysisPattern::DeadLoss),
        (CrossoverPattern::DeadCross, 3.0, AnalysisPattern::DeadLoss),
        (CrossoverPattern::GoldenCross, f64::NAN, AnalysisPattern::NotApplicable),
        (CrossoverPattern::DeadCross, f64::NAN, AnalysisPattern::NotApplicable),
        (CrossoverPattern::Neither, 5.0, AnalysisPattern::NotApplicable),
        (CrossoverPattern::GoldenCross, f64::INFINITY, AnalysisPattern::GoldenChance),
    ];
    for (pattern, r, expected) in cases {
        assert_eq!(analysis_pattern(pattern, p(r)), expected, "{pattern:?} {r}");
        assert_eq!(
            AnalysisPattern::from(CrossoverPatternRateOfChangePair { crossover_pattern: pattern, rate_of_change: p(r) }),
            expected
        );
    }
    assert_eq!(macos_analysis_pattern(Pattern::GoldenCross, p(0.5)), MacosPattern::GoldenChance);
    assert_eq!(macos_analysis_pattern(Pattern::DeadCross, p(0.5)), MacosPattern::DeadLoss);
    assert_eq!(macos_analysis_pattern(Pattern::Neither, p(0.5)), MacosPattern::NotApplicable);
}

#[test]
fn observations_follow_crossovers_n_trading_days_ahead() {
    let stocks = vec![
        stock(d(1), 100.0, 10),
        stock(d(2), 110.0, 20),
        stock(d(3), 90.0, 30),
        stock(d(4), 120.0, 40),
        stock(d(5), 80.0, 50),
    ];
    let coses = vec![
        cos(d(1), CrossoverPattern::GoldenCross, CrossoverPattern::Neither),
        cos(d(2), CrossoverPattern::Neither, CrossoverPattern::DeadCross),
        cos(d(3), CrossoverPattern::DeadCross, CrossoverPattern::GoldenCross),
        cos(d(4), CrossoverPattern::GoldenCross, CrossoverPattern::Neither),
        cos(d(9), CrossoverPattern::DeadCross, CrossoverPattern::DeadCross),
    ];
    let pair = StocksSmaCosesPair { stocks: &stocks, sma_coses: &coses };
    let observations = AnalysisResults::<2>::observations(&pair);
    assert_eq!(
        observations,
        vec![
            CrossoverObservation {
                date_of_event: d(1),
                close: p(100.0),
                close_after_n_days: p(90.0),
                pattern: CrossoverPattern::GoldenCross,
            },
            CrossoverObservation {
                date_of_event: d(3),
                close: p(90.0),
                close_after_n_days: p(80.0),
                pattern: CrossoverPattern::DeadCross,
            },
        ]
    );

    let results = AnalysisResults::<2>(
        observations
            .iter()
            .map(|o| AnalysisResult::from_observation(*o, rate(o.close, o.close_after_n_days)))
            .collect(),
    );
    assert_eq!(results.len(), 2);
    assert_eq!(results.as_slice()[0].analysis_pattern, AnalysisPattern::GoldenLoss);
    assert_eq!(results.as_slice()[1].analysis_pattern, AnalysisPattern::DeadChance);
    assert_eq!(
        results.chance_counts(),
        ChanceCounts { golden_chance: 0, golden_loss: 1, dead_chance: 1, dead_loss: 0, total: 2 }
    );
    let latest = results.latest_chance();
    assert_eq!(latest, LatestChance { golden_cross: None, dead_cross: Some(d(3)) });
    assert_eq!(CrossoverPattern::from(latest), CrossoverPattern::DeadCross);
    assert_eq!(Date::from(latest), d(3));

    let volumes = sma_cos_analysis_volume::AnalysisResults::from(&pair);
    assert_eq!(
        volumes.0,
        vec![
            sma_cos_analysis_volume::AnalysisResult {
                date_of_event: d(2),
                volume: 20,
                pattern: CrossoverPattern::DeadCross,
            },
            sma_cos_analysis_volume::AnalysisResult {
                date_of_event: d(3),
                volume: 30,
                pattern: CrossoverPattern::GoldenCross,
            },
        ]
    );
}

#[test]
fn latest_chance_takes_the_later_and_golden_on_ties() {
    let both = LatestChance { golden_cross: Some(d(5)), dead_cross: Some(d(5)) };
    assert_eq!(CrossoverPattern::from(both), CrossoverPattern::GoldenCross);
    assert_eq!(Date::from(both), d(5));
    let dead_later = LatestChance { golden_cross: Some(d(4)), dead_cross: Some(d(6)) };
    assert_eq!(CrossoverPattern::from(dead_later), CrossoverPattern::DeadCross);
    assert_eq!(Date::from(dead_later), d(6));
    let none = LatestChance { golden_cross: None, dead_cross: None };
    assert_eq!(CrossoverPattern::from(none), CrossoverPattern::Neither);
    assert_eq!(Date::from(none), Date::default());
}

#[test]
fn latest_chance_is_the_last_result_of_its_kind() {
    let result = |n: i32, pattern: AnalysisPattern| AnalysisResult {
        date_of_event: d(n),
        analysis_pattern: pattern,
        ..AnalysisResult::default()
    };
    let results = AnalysisResults::<3>(vec![
        result(1, AnalysisPattern::GoldenChance),
        result(2, AnalysisPattern::DeadChance),
        result(3, AnalysisPattern::GoldenChance),
        result(4, AnalysisPattern::GoldenLoss),
        result(5, AnalysisPattern::DeadLoss),
    ]);
    assert_eq!(
        results.latest_chance(),
        LatestChance { golden_cross: Some(d(3)), dead_cross: Some(d(2)) }
    );
    assert_eq!(
        results.chance_counts(),
        ChanceCounts { golden_chance: 2, golden_loss: 1, dead_chance: 1, dead_loss: 1, total: 5 }
    );
}

#[test]
fn macos_analysis_close_and_volume() {
    let stocks = vec![stock(d(1), 100.0, 10), stock(d(2), 120.0, 20), stock(d(3), 130.0, 30)];
    let macoses = vec![
        macos(d(1), Pattern::GoldenCross, Pattern::DeadCross),
        macos(d(2), Pattern::DeadCross, Pattern::Neither),
        macos(d(3), Pattern::GoldenCross, Pattern::GoldenCross),
    ];
    let pair = StocksMACOSESPair { stocks: &stocks, macoses: &macoses };
    let observations = MACOSAnalysisCloses::<1>::observations(&pair);
    assert_eq!(
        observations,
        vec![
            MACOSObservation {
                date_of_event: d(1),
                close: p(100.0),
                close_after_n_days: p(120.0),
                pattern: Pattern::GoldenCross,
            },
            MACOSObservation {
                date_of_event: d(2),
                close: p(120.0),
                close_after_n_days: p(130.0),
                pattern: Pattern::DeadCross,
            },
        ]
    );
    let closes = MACOSAnalysisCloses::<1>(
        observations
            .iter()
            .map(|o| MACOSAnalysisClose::from_observation(*o, rate(o.close, o.close_after_n_days)))
            .collect(),
    );
    let counts = closes.chance_counts();
    assert_eq!((counts.golden_chance, counts.dead_loss, counts.total), (1, 1, 2));
    assert_eq!(closes.latest_chance().golden_cross, Some(d(1)));
    assert_eq!(closes.latest_chance().dead_cross, None);

    let volumes = MACOSAnalysisVolumes::from(&pair);
    assert_eq!(
        volumes.0,
        vec![
            MACOSAnalysisVolume { date_of_event: d(1), volume: 10, pattern: Pattern::DeadCross },
            MACOSAnalysisVolume { date_of_event: d(3), volume: 30, pattern: Pattern::GoldenCross },
        ]
    );
    assert_eq!(volumes.len(), 2);
}
