use quantitative_data_analysis_rs::models::candle_stick::{
    BullishBearishType, CandleStick, CandleSticks, CandleSticksError,
};
use quantitative_data_analysis_rs::price::Price;

fn p(x: f64) -> Price {
    Price::from_bits(x.to_bits())
}

#[test]
fn get_bullish_bearish_type_test() {
    let actual = CandleStick::get_bullish_bearish_type(p(500.0), p(1000.0));
    assert_eq!(actual, BullishBearishType::Bullish);

    let actual = CandleStick::get_bullish_bearish_type(p(1000.0), p(500.0));
    assert_eq!(actual, BullishBearishType::Bearish);

    let actual = CandleStick::get_bullish_bearish_type(p(1000.0), p(1000.0));
    assert_eq!(actual, BullishBearishType::Neither);
}

#[test]
fn is_marubozu_test() {
    let actual = CandleStick::is_marubozu(p(1.0), p(0.9), p(0.01), p(0.02));
    assert!(actual);

    let actual = CandleStick::is_marubozu(p(0.9), p(0.9), p(0.02), p(0.02));
    assert!(actual);

    let actual = CandleStick::is_marubozu(p(0.8), p(0.9), p(0.02), p(0.02));
    assert!(!actual);

    let actual = CandleStick::is_marubozu(p(0.9), p(0.9), p(0.03), p(0.02));
    assert!(!actual);

    let actual = CandleStick::is_marubozu(p(0.8), p(0.9), p(0.03), p(0.02));
    assert!(!actual);
}

#[test]
fn is_doji_test() {
    let actual = CandleStick::is_doji(p(0.04), p(0.05));
    assert!(actual);

    let actual = CandleStick::is_doji(p(0.05), p(0.05));
    assert!(actual);

    let actual = CandleStick::is_doji(p(0.06), p(0.05));
    assert!(!actual);
}

#[test]
fn nan_open_or_close_is_neither() {
    assert_eq!(
        CandleStick::get_bullish_bearish_type(p(f64::NAN), p(1.0)),
        BullishBearishType::Neither
    );
    assert_eq!(
        CandleStick::get_bullish_bearish_type(p(1.0), p(f64::NAN)),
        BullishBearishType::Neither
    );
    assert_eq!(
        CandleStick::get_bullish_bearish_type(p(-0.0), p(0.0)),
        BullishBearishType::Neither
    );
}

#[test]
fn non_finite_ratios_are_never_marubozu_or_doji() {
    assert!(!CandleStick::is_marubozu(p(f64::NAN), p(0.9), p(0.0), p(0.02)));
    assert!(!CandleStick::is_marubozu(p(1.0), p(0.9), p(f64::NAN), p(0.02)));
    assert!(!CandleStick::is_marubozu(p(f64::INFINITY), p(0.9), p(0.0), p(0.02)));
    assert!(!CandleStick::is_doji(p(f64::NAN), p(0.05)));
    assert!(!CandleStick::is_doji(p(f64::NEG_INFINITY), p(0.05)));
}

#[test]
fn marubozu_body_ratio_bounds() {
    assert_eq!(CandleSticks::<90, 2, 5>::check_ratios(), Ok(()));
    assert_eq!(CandleSticks::<80, 2, 5>::check_ratios(), Ok(()));
    assert_eq!(CandleSticks::<100, 2, 5>::check_ratios(), Ok(()));
    assert_eq!(
        CandleSticks::<101, 2, 5>::check_ratios(),
        Err(CandleSticksError::MarubozuBodyMinRatioGreaterThan100)
    );
    assert_eq!(
        CandleSticks::<79, 2, 5>::check_ratios(),
        Err(CandleSticksError::MarubozuBodyMinRatioLessThanEqual80)
    );
    let wrapped = CandleSticks::<90, 2, 5>::from_candle_sticks(vec![]).unwrap();
    assert_eq!(wrapped.len(), 0);
    assert!(CandleSticks::<70, 2, 5>::from_candle_sticks(vec![]).is_err());
}
