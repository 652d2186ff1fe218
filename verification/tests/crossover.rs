use chrono::{Datelike, NaiveDate};
use quantitative_data_analysis_rs::date::Date;
use quantitative_data_analysis_rs::models::crossover_pattern::CrossoverPattern;
use quantitative_data_analysis_rs::models::macd::{MacdCrossEvents, MACDs, MACD};
use quantitative_data_analysis_rs::models::sma::{SMAListPair, SMAs, SmaCrossEvents, SMA};
use quantitative_data_analysis_rs::models::sma_cos::SmaCoses;
use quantitative_data_analysis_rs::models::technical_analysis::{
    DerivedFact, DirectionType, EventFact, EventKind, EventParams, MetricKind,
};
use quantitative_data_analysis_rs::price::{Comparison, Price};
use ta::indicators::{MovingAverageConvergenceDivergence, SimpleMovingAverage};
use ta::Next;

fn day(y: i32, m: u32, d: u32) -> Date {
    Date::from_days(NaiveDate::from_ymd_opt(y, m, d).unwrap().num_days_from_ce())
}

fn date_of(n: NaiveDate) -> Date {
    Date::from_days(n.num_days_from_ce())
}

fn p(x: f64) -> Price {
    Price::from_bits(x.to_bits())
}

fn f(x: Price) -> f64 {
    f64::from_bits(x.bits)
}

struct Bar {
    date: Date,
    close: f64,
    volume: u64,
}

/// The `N`-day averages of close and volume over each window of the bars.
fn smas<const N: usize>(bars: &[Bar]) -> SMAs<N> {
    SMAs(
        bars.windows(N)
            .map(|window| {
                let mut sma_close = SimpleMovingAverage::new(N).unwrap();
                let mut sma_volume = SimpleMovingAverage::new(N).unwrap();
                let mut close = 0.0;
                let mut volume = 0.0;
                for bar in window {
                    close = sma_close.next(bar.close);
                    volume = sma_volume.next(bar.volume as f64);
                }
                SMA { date: window.last().unwrap().date, close: p(close), volume: p(volume) }
            })
            .collect(),
    )
}

fn macds<const F: usize, const S: usize, const SG: usize>(bars: &[Bar]) -> MACDs<F, S, SG> {
    let mut indicator = MovingAverageConvergenceDivergence::new(F, S, SG).unwrap();
    MACDs(
        bars.iter()
            .map(|bar| {
                let (macd, signal, histogram): (f64, f64, f64) = indicator.next(bar.close).into();
                MACD { date: bar.date, macd: p(macd), signal: p(signal), histogram: p(histogram) }
            })
            .collect(),
    )
}

fn sma<const N: usize>(date: Date, close: f64, volume: f64) -> SMA<N> {
    SMA { date, close: p(close), volume: p(volume) }
}

#[test]
fn crossover_pattern_table() {
    let cases = [
        ((Some(Comparison::Less), Some(Comparison::Greater)), CrossoverPattern::GoldenCross),
        ((Some(Comparison::Greater), Some(Comparison::Less)), CrossoverPattern::DeadCross),
        ((Some(Comparison::Less), Some(Comparison::Equal)), CrossoverPattern::Neither),
        ((Some(Comparison::Equal), Some(Comparison::Greater)), CrossoverPattern::Neither),
        ((Some(Comparison::Less), Some(Comparison::Less)), CrossoverPattern::Neither),
        ((None, Some(Comparison::Greater)), CrossoverPattern::Neither),
        ((Some(Comparison::Greater), None), CrossoverPattern::Neither),
    ];
    for (input, expected) in cases {
        assert_eq!(CrossoverPattern::from(input), expected);
    }
}

#[test]
fn converts_close_values_to_derived_facts() {
    let bars = (0..6)
        .map(|i| Bar {
            date: day(2024, 1, 1 + i as u32),
            close: 100.0 + i as f64,
            volume: 1_000 + i as u64,
        })
        .collect::<Vec<_>>();

    let smas = smas::<3>(bars.as_slice());
    let facts: Vec<DerivedFact> = smas.to_derived_facts();

    assert_eq!(facts.len(), 4);
    assert!(facts.iter().all(|fact| fact.metric == MetricKind::Sma));
    assert!(facts.iter().all(|fact| fact.period == Some(3)));
    assert_eq!(facts[0].date, day(2024, 1, 3));
    assert_eq!(facts.last().unwrap().date, day(2024, 1, 6));
    assert!((f(facts.last().unwrap().value) - 104.0).abs() < 1e-9);
}

#[test]
fn converts_sma_5_25_crossovers_to_events() {
    let start_date = NaiveDate::from_ymd_opt(2024, 1, 1).unwrap();
    let bars = (0..60)
        .map(|i| {
            let close = if i < 25 { 100.0 - i as f64 } else { 10.0 + (i - 25) as f64 * 2.0 };
            let date = date_of(start_date + chrono::Duration::days(i as i64));
            Bar { date, close, volume: 1_000 + i as u64 }
        })
        .collect::<Vec<_>>();

    let smas_5 = smas::<5>(bars.as_slice());
    let smas_25 = smas::<25>(bars.as_slice());
    let events: Vec<EventFact> = SmaCrossEvents {
        sma_list_pair: SMAListPair { smas_n: smas_5.as_slice(), smas_o: smas_25.as_slice() },
    }
    .into_event_facts();

    assert!(events.iter().any(|event| event.kind == EventKind::GoldenCross));
}

#[test]
fn sma_cross_events_need_both_days_of_the_slow_average() {
    let fast = vec![
        sma::<5>(day(2024, 1, 1), 9.0, 0.0),
        sma::<5>(day(2024, 1, 2), 11.0, 0.0),
        sma::<5>(day(2024, 1, 3), 9.0, 0.0),
        sma::<5>(day(2024, 1, 4), 11.0, 0.0),
    ];
    let slow = vec![
        sma::<25>(day(2024, 1, 1), 10.0, 0.0),
        sma::<25>(day(2024, 1, 2), 10.0, 0.0),
        sma::<25>(day(2024, 1, 3), 10.0, 0.0),
    ];
    let events = SmaCrossEvents { sma_list_pair: SMAListPair { smas_n: &fast, smas_o: &slow } }
        .into_event_facts();
    let params = EventParams::Cross {
        fast_metric: MetricKind::Sma,
        fast_period: 5,
        slow_metric: MetricKind::Sma,
        slow_period: 25,
    };
    assert_eq!(
        events,
        vec![
            EventFact {
                kind: EventKind::GoldenCross,
                occurred_at: day(2024, 1, 2),
                direction: DirectionType::Uptrend,
                event_params: params,
            },
            EventFact {
                kind: EventKind::DeadCross,
                occurred_at: day(2024, 1, 3),
                direction: DirectionType::Downtrend,
                event_params: params,
            },
        ]
    );
}

#[test]
fn converts_macd_and_signal_to_derived_facts() {
    let bars = (0..30)
        .map(|i| Bar { date: day(2024, 1, 1 + i as u32), close: 100.0 + i as f64, volume: 0 })
        .collect::<Vec<_>>();

    let macds = macds::<12, 26, 9>(bars.as_slice());
    let facts: Vec<DerivedFact> = macds.to_derived_facts();

    assert!(facts.iter().any(|fact| fact.metric == MetricKind::Macd));
    assert!(facts.iter().any(|fact| fact.metric == MetricKind::Signal));
    assert!(facts.iter().all(|fact| fact.period.is_some()));
    assert!(facts.iter().all(|fact| fact.value.is_finite()));
    assert_eq!(facts.len(), macds.len() * 2);
}

#[test]
fn converts_macd_signal_crossovers_to_events() {
    let start_date = NaiveDate::from_ymd_opt(2024, 1, 1).unwrap();
    let bars = (0..60)
        .map(|i| {
            let close = if i < 25 { 90.0 - i as f64 } else { 10.0 + (i - 25) as f64 * 2.0 };
            let date = date_of(start_date + chrono::Duration::days(i as i64));
            Bar { date, close, volume: 0 }
        })
        .collect::<Vec<_>>();

    let macds = macds::<12, 26, 9>(bars.as_slice());
    let events: Vec<EventFact> = MacdCrossEvents { macds: &macds }.into_event_facts();

    assert!(events.iter().any(|event| event.kind == EventKind::GoldenCross));
}

#[test]
fn macd_facts_come_in_pairs_with_periods() {
    let macds = MACDs::<12, 26, 9>(vec![MACD {
        date: day(2024, 5, 1),
        macd: p(1.5),
        signal: p(0.5),
        histogram: p(1.0),
    }]);
    assert_eq!(
        macds.to_derived_facts(),
        vec![
            DerivedFact { metric: MetricKind::Macd, date: day(2024, 5, 1), value: p(1.5), period: Some(26) },
            DerivedFact { metric: MetricKind::Signal, date: day(2024, 5, 1), value: p(0.5), period: Some(9) },
        ]
    );
}

#[test]
fn sma_coses_cross_on_close_and_volume() {
    let fast = vec![
        sma::<5>(day(2024, 1, 1), 9.0, 200.0),
        sma::<5>(day(2024, 1, 2), 11.0, 50.0),
        sma::<5>(day(2024, 1, 3), 12.0, 60.0),
        sma::<5>(day(2024, 1, 4), 8.0, 70.0),
        sma::<5>(day(2024, 1, 5), 12.0, 70.0),
    ];
    let slow = vec![
        sma::<25>(day(2024, 1, 1), 10.0, 100.0),
        sma::<25>(day(2024, 1, 2), 10.0, 100.0),
        sma::<25>(day(2024, 1, 3), 10.0, 100.0),
        sma::<25>(day(2024, 1, 4), 10.0, 100.0),
    ];
    let coses = SmaCoses::from(SMAListPair { smas_n: &fast, smas_o: &slow });
    assert_eq!(coses.len(), 4);
    let closes: Vec<CrossoverPattern> =
        coses.as_slice().iter().map(|c| c.crossover_pattern_close.0).collect();
    assert_eq!(
        closes,
        vec![
            CrossoverPattern::GoldenCross,
            CrossoverPattern::Neither,
            CrossoverPattern::DeadCross,
            CrossoverPattern::Neither,
        ]
    );
    assert_eq!(coses.as_slice()[0].crossover_pattern_volume.0, CrossoverPattern::DeadCross);
    assert_eq!(coses.as_slice()[0].close_25, Some(p(10.0)));
    assert_eq!(coses.as_slice()[3].close_25, None);
    assert_eq!(coses.as_slice()[3].volume_25, None);
    assert_eq!(coses.latest_based_on_close(&CrossoverPattern::GoldenCross), Some(day(2024, 1, 2)));
    assert_eq!(coses.latest_based_on_close(&CrossoverPattern::DeadCross), Some(day(2024, 1, 4)));
    assert_eq!(coses.latest_based_on_close(&CrossoverPattern::Neither), Some(day(2024, 1, 5)));
    let empty = SmaCoses::from(SMAListPair { smas_n: &fast[..1], smas_o: &slow });
    assert_eq!(empty.len(), 0);
    assert_eq!(empty.latest_based_on_close(&CrossoverPattern::GoldenCross), None);
}
