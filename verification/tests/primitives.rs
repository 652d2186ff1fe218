use chrono::{Datelike, NaiveDate};
use quantitative_data_analysis_rs::date::Date;
use quantitative_data_analysis_rs::price::{Comparison, Price};
use quantitative_data_analysis_rs::text::{
    char_is_ascii_alphanumeric, char_is_white_space, char_to_ascii_uppercase,
};
use std::cmp::Ordering;

fn p(x: f64) -> Price {
    Price::from_bits(x.to_bits())
}

fn samples() -> Vec<f64> {
    vec![
        0.0,
        -0.0,
        1.0,
        -1.0,
        0.5,
        1e-310,
        -1e-310,
        f64::MIN_POSITIVE,
        f64::MAX,
        f64::MIN,
        f64::INFINITY,
        f64::NEG_INFINITY,
        f64::NAN,
        -f64::NAN,
        f64::from_bits(0x7ff0_0000_0000_0001),
        123.456,
        -123.456,
        2554.3865234,
    ]
}

fn to_comparison(o: Ordering) -> Comparison {
    match o {
        Ordering::Less => Comparison::Less,
        Ordering::Equal => Comparison::Equal,
        Ordering::Greater => Comparison::Greater,
    }
}

#[test]
fn price_comparison_agrees_with_f64() {
    for a in samples() {
        for b in samples() {
            let expected = a.partial_cmp(&b).map(to_comparison);
            assert_eq!(p(a).partial_compare(&p(b)), expected, "{a} vs {b}");
            assert_eq!(p(a) == p(b), a == b, "{a} == {b}");
        }
    }
}

#[test]
fn price_classification_agrees_with_f64() {
    for a in samples() {
        assert_eq!(p(a).is_nan(), a.is_nan(), "{a}");
        assert_eq!(p(a).is_finite(), a.is_finite(), "{a}");
    }
    assert!(Price::nan().is_nan());
    assert_eq!(Price::nan().bits, f64::NAN.to_bits());
    assert_eq!(Price::zero().bits, 0.0f64.to_bits());
}

#[test]
fn comparison_reverse_swaps_operands() {
    for a in samples() {
        for b in samples() {
            if let Some(c) = p(a).partial_compare(&p(b)) {
                let reversed = match c {
                    Comparison::Less => Comparison::Greater,
                    Comparison::Equal => Comparison::Equal,
                    Comparison::Greater => Comparison::Less,
                };
                assert_eq!(p(b).partial_compare(&p(a)), Some(reversed));
            }
        }
    }
}

#[test]
fn white_space_agrees_with_char_is_whitespace() {
    for u in 0..=0x10ffffu32 {
        if let Some(c) = char::from_u32(u) {
            assert_eq!(char_is_white_space(c), c.is_whitespace(), "{u:#x}");
            assert_eq!(char_is_ascii_alphanumeric(c), c.is_ascii_alphanumeric(), "{u:#x}");
            assert_eq!(char_to_ascii_uppercase(c), c.to_ascii_uppercase(), "{u:#x}");
        }
    }
}

#[test]
fn default_date_is_the_unix_epoch() {
    let epoch = NaiveDate::from_ymd_opt(1970, 1, 1).unwrap();
    assert_eq!(Date::default().days, epoch.num_days_from_ce());
    assert_eq!(Date::epoch().days, NaiveDate::default().num_days_from_ce());
    assert_eq!(Date::epoch().days, 719_163);
}

#[test]
fn date_comparisons() {
    let a = Date::from_days(10);
    let b = Date::from_days(11);
    assert!(a.is_before(&b));
    assert!(!b.is_before(&a));
    assert!(a.is_on_or_before(&a));
    assert!(a.same_day(&Date::from_days(10)));
    assert!(!a.same_day(&b));
}
