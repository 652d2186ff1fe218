use quantitative_data_analysis_rs::date::Date;
use quantitative_data_analysis_rs::models::atr::{ATRs, ATR};
use quantitative_data_analysis_rs::models::bollinger::{Bollinger, Bollingers};
use quantitative_data_analysis_rs::models::rsi::{RSIs, RSI};
use quantitative_data_analysis_rs::models::statement::{RowStatement, Statement, StatementError};
use quantitative_data_analysis_rs::models::stock::{RowStock, Stock, StockError, Stocks};
use quantitative_data_analysis_rs::models::technical_analysis::{DerivedFact, MetricKind};
use quantitative_data_analysis_rs::models::volume_spike::{VolumeSpike, VolumeSpikes};
use quantitative_data_analysis_rs::price::Price;

fn d(n: i32) -> Date {
    Date::from_days(738_000 + n)
}

fn p(x: f64) -> Price {
    Price::from_bits(x.to_bits())
}

fn fact(metric: MetricKind, date: Date, value: f64, period: u32) -> DerivedFact {
    DerivedFact { metric, date, value: p(value), period: Some(period) }
}

#[test]
fn single_value_indicators_become_facts_in_order() {
    let atrs = ATRs::<14>(vec![
        ATR { date: d(1), period: 14, value: p(1.5) },
        ATR { date: d(2), period: 14, value: p(2.5) },
    ]);
    assert_eq!(
        atrs.to_derived_facts(),
        vec![fact(MetricKind::Atr, d(1), 1.5, 14), fact(MetricKind::Atr, d(2), 2.5, 14)]
    );
    assert_eq!(atrs.len(), 2);
    assert!(!atrs.is_empty());

    let rsis = RSIs::<14>(vec![RSI { date: d(3), period: 14, value: p(70.0) }]);
    assert_eq!(rsis.to_derived_facts(), vec![fact(MetricKind::Rsi, d(3), 70.0, 14)]);

    let spikes = VolumeSpikes::<14>(vec![VolumeSpike { date: d(4), period: 14, value: p(2.0) }]);
    assert_eq!(spikes.to_derived_facts(), vec![fact(MetricKind::VolumeRatio, d(4), 2.0, 14)]);
    assert!(VolumeSpikes::<14>(vec![]).to_derived_facts().is_empty());
    assert!(RSIs::<14>(vec![]).is_empty());
}

#[test]
fn bollinger_facts_are_upper_then_lower() {
    let bands = Bollingers::<20>(vec![
        Bollinger { date: d(1), period: 20, middle: p(100.0), upper: p(110.0), lower: p(90.0) },
        Bollinger { date: d(2), period: 20, middle: p(100.0), upper: p(100.0), lower: p(100.0) },
    ]);
    let facts = bands.to_derived_facts();
    assert_eq!(facts.len(), 2 * bands.len());
    assert_eq!(
        facts,
        vec![
            fact(MetricKind::BollingerUpper, d(1), 110.0, 20),
            fact(MetricKind::BollingerLower, d(1), 90.0, 20),
            fact(MetricKind::BollingerUpper, d(2), 100.0, 20),
            fact(MetricKind::BollingerLower, d(2), 100.0, 20),
        ]
    );
}

#[test]
fn stock_rows_need_every_column() {
    let full = RowStock {
        date: Some(d(1)),
        open: Some(p(1.0)),
        high: Some(p(2.0)),
        low: Some(p(0.5)),
        close: Some(p(1.5)),
        adj_close: Some(p(1.4)),
        volume: Some(100),
    };
    let stock = Stock::try_from(full).unwrap();
    assert_eq!(stock.date, d(1));
    assert_eq!(stock.volume, 100);
    assert_eq!(stock.adj_close, p(1.4));
    assert_eq!(Stock::try_from(RowStock { date: None, open: None, ..full }), Err(StockError::DateIsNone));
    assert_eq!(Stock::try_from(RowStock { open: None, ..full }), Err(StockError::OpenIsNone));
    assert_eq!(Stock::try_from(RowStock { high: None, ..full }), Err(StockError::HighIsNone));
    assert_eq!(Stock::try_from(RowStock { low: None, ..full }), Err(StockError::LowIsNone));
    assert_eq!(Stock::try_from(RowStock { close: None, ..full }), Err(StockError::CloseIsNone));
    assert_eq!(Stock::try_from(RowStock { adj_close: None, ..full }), Err(StockError::AdjCloseIsNone));
    assert_eq!(Stock::try_from(RowStock { volume: None, ..full }), Err(StockError::VolumeIsNone));
    let rows = vec![full, RowStock { close: None, ..full }, RowStock { date: Some(d(2)), ..full }];
    let stocks = Stocks::from_rows(&rows);
    assert_eq!(stocks.len(), 2);
    assert_eq!(stocks.as_slice()[1].date, d(2));
}

#[test]
fn statement_rows_need_a_disclosure_date_and_default_figures_to_nan() {
    let row = RowStatement {
        code: "72030".to_string(),
        disclosed_date: Some(d(10)),
        bps: Some(p(1000.0)),
        eps: Some(p(100.0)),
        ..RowStatement::default()
    };
    let statement = Statement::try_from(row.clone()).unwrap();
    assert_eq!(statement.code, "72030");
    assert_eq!(statement.disclosed_date, d(10));
    assert_eq!(statement.current_fiscal_year_end_date, None);
    assert_eq!(statement.bps, p(1000.0));
    assert_eq!(statement.eps, p(100.0));
    assert!(statement.net_sales.is_nan());
    assert!(statement.total_assets.is_nan());
    assert_eq!(statement.profit.bits, f64::NAN.to_bits());
    assert_eq!(
        Statement::try_from(RowStatement { disclosed_date: None, ..row }),
        Err(StatementError::DisclosedDateIsNone { code: "72030".to_string() })
    );
}

#[test]
fn error_messages_name_the_missing_column() {
    assert_eq!(StockError::AdjCloseIsNone.message(), "adj_close is None");
    assert_eq!(StockError::DateIsNone.message(), "date is None");
    assert_eq!(StockError::VolumeIsNone.message(), "volume is None");
    assert_eq!(
        StatementError::DisclosedDateIsNone { code: "7203".to_string() }.message(),
        "code:7203 disclosed_date is None"
    );
}
