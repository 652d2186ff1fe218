use quantitative_data_analysis_rs::models::scoring::{
    ScorePolicyError, ScoreRange, ValueScorePolicy,
};
use quantitative_data_analysis_rs::price::Price;

fn f(x: Price) -> f64 {
    f64::from_bits(x.bits)
}

fn p(x: f64) -> Price {
    Price::from_bits(x.to_bits())
}

fn range(floor: f64, ceiling: f64, weight: f64) -> ScoreRange {
    ScoreRange { floor: p(floor), ceiling: p(ceiling), weight: p(weight) }
}

fn weight_sum(p: &ValueScorePolicy) -> f64 {
    f(p.per.weight) + f(p.pbr.weight) + f(p.dividend_yield.weight) + f(p.roe.weight) + f(p.sales_growth.weight)
}

#[test]
fn value_policy_weights_sum_to_100() {
    let p = ValueScorePolicy::value();
    let sum = weight_sum(&p);
    assert_eq!(sum, 100.0);
}

#[test]
fn dividend_policy_weights_sum_to_100() {
    let p = ValueScorePolicy::dividend();
    let sum = weight_sum(&p);
    assert_eq!(sum, 100.0);
}

#[test]
fn standard_policy_weights_sum_to_100() {
    assert_eq!(weight_sum(&ValueScorePolicy::standard()), 100.0);
}

#[test]
fn presets_hold_their_ranges() {
    assert_eq!(
        ValueScorePolicy::standard(),
        ValueScorePolicy {
            per: range(5.0, 20.0, 20.0),
            pbr: range(0.5, 2.0, 20.0),
            dividend_yield: range(1.0, 5.0, 20.0),
            roe: range(5.0, 20.0, 20.0),
            sales_growth: range(0.0, 15.0, 20.0),
        }
    );
    assert_eq!(
        ValueScorePolicy::value(),
        ValueScorePolicy {
            per: range(3.0, 15.0, 30.0),
            pbr: range(0.3, 1.5, 30.0),
            dividend_yield: range(1.0, 4.0, 15.0),
            roe: range(5.0, 20.0, 15.0),
            sales_growth: range(0.0, 12.0, 10.0),
        }
    );
    assert_eq!(
        ValueScorePolicy::dividend(),
        ValueScorePolicy {
            per: range(5.0, 20.0, 15.0),
            pbr: range(0.5, 2.0, 15.0),
            dividend_yield: range(2.0, 6.0, 40.0),
            roe: range(5.0, 20.0, 15.0),
            sales_growth: range(0.0, 12.0, 15.0),
        }
    );
    assert_eq!(ValueScorePolicy::value().pbr.floor.bits, 0.3f64.to_bits());
}

#[test]
fn try_from_standard_returns_standard_policy() {
    let policy = ValueScorePolicy::try_from("standard").unwrap();
    assert_eq!(policy, ValueScorePolicy::standard());
}

#[test]
fn try_from_value_returns_value_policy() {
    let policy = ValueScorePolicy::try_from("value").unwrap();
    assert_eq!(policy, ValueScorePolicy::value());
}

#[test]
fn try_from_dividend_returns_dividend_policy() {
    let policy = ValueScorePolicy::try_from("dividend").unwrap();
    assert_eq!(policy, ValueScorePolicy::dividend());
}

#[test]
fn try_from_unknown_returns_error() {
    let err = ValueScorePolicy::try_from("unknown").unwrap_err();
    let message = err.message();

    assert!(message.contains("unsupported preset name. preset_name: unknown"));
    assert!(message.contains("available presets: standard, value, dividend"));
    assert_eq!(
        err,
        ScorePolicyError::UnsupportedPresetName { preset_name: "unknown".to_string() }
    );
    assert!(ValueScorePolicy::try_from("Standard").is_err());
    assert!(ValueScorePolicy::try_from("").is_err());
}
