use chrono::{Datelike, NaiveDate};
use quantitative_data_analysis_rs::date::Date;
use quantitative_data_analysis_rs::models::body_engulfing::{
    BodyEngulfing, BodyEngulfingEvents, BodyEngulfings,
};
use quantitative_data_analysis_rs::models::buy_sell_signal::{BuySellSignal, BuySellSignalType};
use quantitative_data_analysis_rs::models::candle_stick::{BullishBearishType, CandleStick};
use quantitative_data_analysis_rs::models::ecp1::ECP1s;
use quantitative_data_analysis_rs::models::ecp2::ECP2s;
use quantitative_data_analysis_rs::models::high_low_direction_signal::{
    HighLowDirectionEvents, HighLowDirectionSignal, HighLowDirectionSignals,
};
use quantitative_data_analysis_rs::models::ms_es::{MsEs, MsEsEvents, MsEses};
use quantitative_data_analysis_rs::models::stock::Stock;
use quantitative_data_analysis_rs::models::technical_analysis::{
    DirectionType, EventFact, EventKind, EventParams,
};
use quantitative_data_analysis_rs::price::{Comparison, Price};

fn day(y: i32, m: u32, d: u32) -> Date {
    Date::from_days(NaiveDate::from_ymd_opt(y, m, d).unwrap().num_days_from_ce())
}

fn p(x: f64) -> Price {
    Price::from_bits(x.to_bits())
}

fn signal(signal_type: BuySellSignalType, date: Date) -> BuySellSignal {
    BuySellSignal { signal_type, date }
}

fn stock(date: Date, low: f64, high: f64) -> Stock {
    Stock {
        date,
        open: p(low),
        high: p(high),
        low: p(low),
        close: p(high),
        adj_close: p(high),
        volume: 0,
    }
}

fn candle(date: Date, body_low: f64, body_high: f64, kind: BullishBearishType, is_doji: bool) -> CandleStick {
    CandleStick {
        date,
        open: p(body_low),
        high: p(body_high),
        low: p(body_low),
        close: p(body_high),
        size: p(body_high - body_low),
        body: p(body_high - body_low),
        body_high: p(body_high),
        body_low: p(body_low),
        upper_wick: p(0.0),
        lower_wick: p(0.0),
        body_ratio: p(1.0),
        upper_wick_ratio: p(0.0),
        lower_wick_ratio: p(0.0),
        bullish_bearish: kind,
        is_marubozu: false,
        is_doji,
    }
}

#[test]
fn converts_body_engulfing_signals_to_events() {
    let body_engulfings = BodyEngulfings(vec![
        signal(BuySellSignalType::Buy, day(2024, 1, 10)),
        signal(BuySellSignalType::Sell, day(2024, 1, 11)),
    ]);

    let events: Vec<EventFact> = BodyEngulfingEvents {
        body_engulfings: &body_engulfings,
    }
    .into_event_facts();

    assert!(events.iter().any(|event| event.kind == EventKind::BodyEngulfing));
}

#[test]
fn converts_high_low_direction_signals_to_events() {
    let signals = HighLowDirectionSignals(vec![
        signal(BuySellSignalType::Buy, day(2024, 1, 10)),
        signal(BuySellSignalType::Sell, day(2024, 1, 11)),
    ]);

    let events: Vec<EventFact> = HighLowDirectionEvents { signals: &signals }.into_event_facts();

    assert!(events.iter().any(|event| event.kind == EventKind::HighLowDirection));
}

#[test]
fn converts_morning_and_evening_stars_to_events() {
    let mses = MsEses(vec![
        signal(BuySellSignalType::Buy, day(2024, 1, 10)),
        signal(BuySellSignalType::Sell, day(2024, 1, 11)),
    ]);

    let events: Vec<EventFact> = MsEsEvents { mseses: &mses }.into_event_facts();

    assert!(events.iter().any(|event| event.kind == EventKind::MorningStar));
    assert!(events.iter().any(|event| event.kind == EventKind::EveningStar));
}

#[test]
fn star_events_carry_direction_and_three_bar_window() {
    let mses = MsEses(vec![
        signal(BuySellSignalType::Stay, day(2024, 1, 9)),
        signal(BuySellSignalType::Buy, day(2024, 1, 10)),
        signal(BuySellSignalType::Sell, day(2024, 1, 11)),
    ]);
    let events = MsEsEvents { mseses: &mses }.into_event_facts();
    assert_eq!(
        events,
        vec![
            EventFact {
                kind: EventKind::MorningStar,
                occurred_at: day(2024, 1, 10),
                direction: DirectionType::Uptrend,
                event_params: EventParams::Pattern {
                    pattern_name: EventKind::MorningStar,
                    window_bars: 3,
                },
            },
            EventFact {
                kind: EventKind::EveningStar,
                occurred_at: day(2024, 1, 11),
                direction: DirectionType::Downtrend,
                event_params: EventParams::Pattern {
                    pattern_name: EventKind::EveningStar,
                    window_bars: 3,
                },
            },
        ]
    );
}

#[test]
fn stays_give_no_events() {
    let signals = HighLowDirectionSignals(vec![
        signal(BuySellSignalType::Stay, day(2024, 1, 10)),
        signal(BuySellSignalType::Stay, day(2024, 1, 11)),
    ]);
    assert!(HighLowDirectionEvents { signals: &signals }.into_event_facts().is_empty());
}

#[test]
fn high_low_direction_rule() {
    let up = HighLowDirectionSignal {
        low_ordering: Some(Comparison::Greater),
        high_ordering: Some(Comparison::Greater),
    };
    let down = HighLowDirectionSignal {
        low_ordering: Some(Comparison::Less),
        high_ordering: Some(Comparison::Less),
    };
    let mixed = HighLowDirectionSignal {
        low_ordering: Some(Comparison::Greater),
        high_ordering: Some(Comparison::Less),
    };
    let unknown = HighLowDirectionSignal { low_ordering: None, high_ordering: Some(Comparison::Greater) };
    assert_eq!(BuySellSignalType::from(up), BuySellSignalType::Buy);
    assert_eq!(BuySellSignalType::from(down), BuySellSignalType::Sell);
    assert_eq!(BuySellSignalType::from(mixed), BuySellSignalType::Stay);
    assert_eq!(BuySellSignalType::from(unknown), BuySellSignalType::Stay);
}

#[test]
fn high_low_direction_signals_match_ecp1() {
    let stocks = vec![
        stock(day(2024, 1, 1), 100.0, 110.0),
        stock(day(2024, 1, 2), 101.0, 111.0),
        stock(day(2024, 1, 3), 99.0, 109.0),
        stock(day(2024, 1, 4), 100.0, 108.0),
        stock(day(2024, 1, 5), f64::NAN, 120.0),
    ];
    let hl = HighLowDirectionSignals::from(stocks.as_slice());
    let ecp1 = ECP1s::from(stocks.as_slice());
    assert_eq!(
        hl.0,
        vec![
            signal(BuySellSignalType::Buy, day(2024, 1, 2)),
            signal(BuySellSignalType::Sell, day(2024, 1, 3)),
            signal(BuySellSignalType::Stay, day(2024, 1, 4)),
            signal(BuySellSignalType::Stay, day(2024, 1, 5)),
        ]
    );
    assert_eq!(hl.0, ecp1.0);
    assert_eq!(HighLowDirectionSignals::from(&stocks[..1]).len(), 0);
    assert_eq!(HighLowDirectionSignals::from(&stocks[..0]).len(), 0);
}

#[test]
fn engulfing_rule() {
    let buy = BodyEngulfing {
        body_low_ordering: Some(Comparison::Less),
        body_high_ordering: Some(Comparison::Greater),
        prev_bullish_bearish: BullishBearishType::Bearish,
        today_bullish_bearish: BullishBearishType::Bullish,
    };
    let sell = BodyEngulfing {
        prev_bullish_bearish: BullishBearishType::Bullish,
        today_bullish_bearish: BullishBearishType::Bearish,
        ..buy
    };
    let same_colour = BodyEngulfing {
        prev_bullish_bearish: BullishBearishType::Bullish,
        today_bullish_bearish: BullishBearishType::Bullish,
        ..buy
    };
    let touching = BodyEngulfing { body_low_ordering: Some(Comparison::Equal), ..buy };
    assert_eq!(BuySellSignalType::from(buy), BuySellSignalType::Buy);
    assert_eq!(BuySellSignalType::from(sell), BuySellSignalType::Sell);
    assert_eq!(BuySellSignalType::from(same_colour), BuySellSignalType::Stay);
    assert_eq!(BuySellSignalType::from(touching), BuySellSignalType::Stay);
}

#[test]
fn engulfing_signals_of_candles_and_ecp2_agree() {
    let candles = vec![
        candle(day(2024, 2, 1), 100.0, 105.0, BullishBearishType::Bearish, false),
        candle(day(2024, 2, 2), 99.0, 106.0, BullishBearishType::Bullish, false),
        candle(day(2024, 2, 5), 98.0, 107.0, BullishBearishType::Bearish, false),
        candle(day(2024, 2, 6), 99.0, 100.0, BullishBearishType::Bullish, false),
    ];
    let engulfings = BodyEngulfings::from(candles.as_slice());
    assert_eq!(
        engulfings.0,
        vec![
            signal(BuySellSignalType::Buy, day(2024, 2, 2)),
            signal(BuySellSignalType::Sell, day(2024, 2, 5)),
            signal(BuySellSignalType::Stay, day(2024, 2, 6)),
        ]
    );
    assert_eq!(ECP2s::from(candles.as_slice()).0, engulfings.0);
}

#[test]
fn star_rule_and_windows() {
    let morning = MsEs {
        two_days_before_bullish_bearish: BullishBearishType::Bearish,
        a_day_before_is_doji: true,
        target_day_bullish_bearish: BullishBearishType::Bullish,
    };
    let evening = MsEs {
        two_days_before_bullish_bearish: BullishBearishType::Bullish,
        a_day_before_is_doji: true,
        target_day_bullish_bearish: BullishBearishType::Bearish,
    };
    let no_doji = MsEs { a_day_before_is_doji: false, ..morning };
    assert_eq!(BuySellSignalType::from(morning), BuySellSignalType::Buy);
    assert_eq!(BuySellSignalType::from(evening), BuySellSignalType::Sell);
    assert_eq!(BuySellSignalType::from(no_doji), BuySellSignalType::Stay);

    let candles = vec![
        candle(day(2024, 3, 1), 100.0, 105.0, BullishBearishType::Bearish, false),
        candle(day(2024, 3, 4), 100.0, 100.1, BullishBearishType::Neither, true),
        candle(day(2024, 3, 5), 100.0, 106.0, BullishBearishType::Bullish, false),
        candle(day(2024, 3, 6), 100.0, 106.0, BullishBearishType::Bullish, false),
    ];
    let stars = MsEses::from(candles.as_slice());
    assert_eq!(
        stars.0,
        vec![
            signal(BuySellSignalType::Buy, day(2024, 3, 5)),
            signal(BuySellSignalType::Stay, day(2024, 3, 6)),
        ]
    );
    assert_eq!(MsEses::from(&candles[..2]).len(), 0);
}
