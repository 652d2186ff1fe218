use chrono::{Datelike, NaiveDate, TimeZone, Utc};
use quantitative_data_analysis_rs::date::Date;
use quantitative_data_analysis_rs::models::technical_analysis::{
    DerivedFact, DirectionType, EventFact, EventKind, EventParams, MetricKind, TechnicalAnalysis,
    UtcTimestamp,
};
use quantitative_data_analysis_rs::price::Price;

fn day(y: i32, m: u32, d: u32) -> Date {
    Date::from_days(NaiveDate::from_ymd_opt(y, m, d).unwrap().num_days_from_ce())
}

fn p(x: f64) -> Price {
    Price::from_bits(x.to_bits())
}

fn fact(metric: MetricKind, date: Date, value: f64, period: u32) -> DerivedFact {
    DerivedFact { metric, date, value: p(value), period: Some(period) }
}

fn pattern(kind: EventKind, date: Date) -> EventFact {
    EventFact {
        kind,
        occurred_at: date,
        direction: DirectionType::Neutral,
        event_params: EventParams::Pattern { pattern_name: kind, window_bars: 2 },
    }
}

#[test]
fn aggregates_and_sorts_facts_by_date() {
    let analysis_at_chrono = Utc.with_ymd_and_hms(2024, 1, 31, 9, 30, 0).unwrap();
    let analysis_at = UtcTimestamp {
        seconds: analysis_at_chrono.timestamp(),
        nanos: analysis_at_chrono.timestamp_subsec_nanos(),
    };
    let derived_facts = vec![
        DerivedFact {
            metric: MetricKind::Rsi,
            date: day(2024, 1, 30),
            value: p(70.0),
            period: Some(14),
        },
        DerivedFact {
            metric: MetricKind::Sma,
            date: day(2024, 1, 29),
            value: p(120.0),
            period: Some(5),
        },
    ];
    let event_facts = vec![
        EventFact {
            kind: EventKind::GoldenCross,
            occurred_at: day(2024, 1, 30),
            direction: DirectionType::Uptrend,
            event_params: EventParams::Cross {
                fast_metric: MetricKind::Sma,
                fast_period: 5,
                slow_metric: MetricKind::Sma,
                slow_period: 25,
            },
        },
        EventFact {
            kind: EventKind::DeadCross,
            occurred_at: day(2024, 1, 29),
            direction: DirectionType::Downtrend,
            event_params: EventParams::Cross {
                fast_metric: MetricKind::Macd,
                fast_period: 12,
                slow_metric: MetricKind::Signal,
                slow_period: 26,
            },
        },
    ];

    let start_date = day(2024, 1, 1);
    let end_date = day(2024, 1, 31);
    let analysis = TechnicalAnalysis::new(
        "7203".to_string(),
        start_date,
        end_date,
        analysis_at,
        derived_facts,
        event_facts,
    );

    assert_eq!(analysis.derived_facts[0].date, day(2024, 1, 29));
    assert_eq!(analysis.event_facts[0].occurred_at, day(2024, 1, 29));
    assert_eq!(analysis.code, "7203");
    assert_eq!(analysis.start_date, start_date);
    assert_eq!(analysis.end_date, end_date);
    assert_eq!(analysis.analysis_at, analysis_at);
}

#[test]
fn sorting_is_by_date_then_metric_and_stable() {
    let facts = vec![
        fact(MetricKind::Signal, day(2024, 2, 2), 1.0, 9),
        fact(MetricKind::Sma, day(2024, 2, 2), 2.0, 5),
        fact(MetricKind::Sma, day(2024, 2, 1), 3.0, 25),
        fact(MetricKind::Sma, day(2024, 2, 2), 4.0, 25),
        fact(MetricKind::Macd, day(2024, 2, 2), 5.0, 26),
    ];
    let analysis = TechnicalAnalysis::from_parts(
        String::new(),
        day(2024, 2, 1),
        day(2024, 2, 2),
        UtcTimestamp { seconds: 0, nanos: 0 },
        facts,
        vec![],
    );
    let expected = vec![
        fact(MetricKind::Sma, day(2024, 2, 1), 3.0, 25),
        fact(MetricKind::Sma, day(2024, 2, 2), 2.0, 5),
        fact(MetricKind::Sma, day(2024, 2, 2), 4.0, 25),
        fact(MetricKind::Macd, day(2024, 2, 2), 5.0, 26),
        fact(MetricKind::Signal, day(2024, 2, 2), 1.0, 9),
    ];
    assert_eq!(analysis.derived_facts, expected);
}

#[test]
fn events_sort_by_date_then_kind_in_declaration_order() {
    let events = vec![
        pattern(EventKind::Breakout, day(2024, 3, 1)),
        pattern(EventKind::BodyEngulfing, day(2024, 3, 1)),
        pattern(EventKind::HighLowDirection, day(2024, 3, 1)),
        pattern(EventKind::GoldenCross, day(2024, 3, 2)),
        pattern(EventKind::BearishEngulfing, day(2024, 3, 1)),
    ];
    let analysis = TechnicalAnalysis::from_parts(
        "x".to_string(),
        day(2024, 3, 1),
        day(2024, 3, 2),
        UtcTimestamp { seconds: 1, nanos: 2 },
        vec![],
        events,
    );
    let kinds: Vec<EventKind> = analysis.event_facts.iter().map(|e| e.kind).collect();
    assert_eq!(
        kinds,
        vec![
            EventKind::BearishEngulfing,
            EventKind::BodyEngulfing,
            EventKind::HighLowDirection,
            EventKind::Breakout,
            EventKind::GoldenCross,
        ]
    );
}

#[test]
fn pushing_keeps_the_order() {
    let mut analysis = TechnicalAnalysis::new(
        "9984".to_string(),
        day(2024, 1, 1),
        day(2024, 1, 31),
        UtcTimestamp { seconds: 0, nanos: 0 },
        vec![fact(MetricKind::Rsi, day(2024, 1, 5), 50.0, 14)],
        vec![pattern(EventKind::VolumeSpike, day(2024, 1, 5))],
    );
    analysis.push_derived_fact(fact(MetricKind::Atr, day(2024, 1, 4), 1.5, 14));
    analysis.push_derived_fact(fact(MetricKind::Rsi, day(2024, 1, 5), 55.0, 14));
    analysis.push_event_fact(pattern(EventKind::MorningStar, day(2024, 1, 5)));
    assert_eq!(
        analysis.derived_facts,
        vec![
            fact(MetricKind::Atr, day(2024, 1, 4), 1.5, 14),
            fact(MetricKind::Rsi, day(2024, 1, 5), 50.0, 14),
            fact(MetricKind::Rsi, day(2024, 1, 5), 55.0, 14),
        ]
    );
    assert_eq!(
        analysis.event_facts,
        vec![
            pattern(EventKind::MorningStar, day(2024, 1, 5)),
            pattern(EventKind::VolumeSpike, day(2024, 1, 5)),
        ]
    );
    assert_eq!(analysis.code, "9984");
}

#[test]
fn pushing_a_fact_matches_building_with_it() {
    let facts = vec![
        fact(MetricKind::Rsi, day(2024, 4, 2), 1.0, 14),
        fact(MetricKind::Sma, day(2024, 4, 2), 2.0, 5),
        fact(MetricKind::Sma, day(2024, 4, 1), 3.0, 5),
    ];
    let extra = fact(MetricKind::Sma, day(2024, 4, 2), 4.0, 25);
    let at = UtcTimestamp { seconds: 0, nanos: 0 };
    let mut pushed =
        TechnicalAnalysis::from_parts("1".to_string(), day(2024, 4, 1), day(2024, 4, 2), at, facts.clone(), vec![]);
    pushed.push_derived_fact(extra);
    let mut all = facts;
    all.push(extra);
    let rebuilt = TechnicalAnalysis::from_parts("1".to_string(), day(2024, 4, 1), day(2024, 4, 2), at, all, vec![]);
    assert_eq!(pushed, rebuilt);
}
