//! Value-scoring policies: for each screening metric, the range over which it
//! scores and the weight of its score, with three named presets.
use crate::price::Price;
use crate::text::str_eq;
use vstd::prelude::*;
use vstd::string::StringExecFns;

verus! {

/// The binary64 bit patterns of the numbers the presets are made of.
pub const BITS_0: u64 = 0x0000_0000_0000_0000;
pub const BITS_0_3: u64 = 0x3fd3_3333_3333_3333;
pub const BITS_0_5: u64 = 0x3fe0_0000_0000_0000;
pub const BITS_1: u64 = 0x3ff0_0000_0000_0000;
pub const BITS_1_5: u64 = 0x3ff8_0000_0000_0000;
pub const BITS_2: u64 = 0x4000_0000_0000_0000;
pub const BITS_3: u64 = 0x4008_0000_0000_0000;
pub const BITS_4: u64 = 0x4010_0000_0000_0000;
pub const BITS_5: u64 = 0x4014_0000_0000_0000;
pub const BITS_6: u64 = 0x4018_0000_0000_0000;
pub const BITS_10: u64 = 0x4024_0000_0000_0000;
pub const BITS_12: u64 = 0x4028_0000_0000_0000;
pub const BITS_15: u64 = 0x402e_0000_0000_0000;
pub const BITS_20: u64 = 0x4034_0000_0000_0000;
pub const BITS_30: u64 = 0x403e_0000_0000_0000;
pub const BITS_40: u64 = 0x4044_0000_0000_0000;

/// The values of a metric that score nothing (`floor`) and full marks
/// (`ceiling`), and the points full marks are worth (`weight`).
#[derive(Debug, Copy, Clone, PartialEq, Default)]
pub struct ScoreRange {
    pub floor: Price,
    pub ceiling: Price,
    pub weight: Price,
}

/// Whether a metric scores more as it grows or as it shrinks.
#[derive(Debug, Copy, Clone, PartialEq, Eq, Structural, Hash)]
pub enum ScoreDirection {
    HigherIsBetter,
    LowerIsBetter,
}

/// The score range of each metric.
#[derive(Debug, Copy, Clone, PartialEq, Default)]
pub struct ValueScorePolicy {
    pub per: ScoreRange,
    pub pbr: ScoreRange,
    pub dividend_yield: ScoreRange,
    pub roe: ScoreRange,
    pub sales_growth: ScoreRange,
}

/// The range with the given bit patterns.
pub open spec fn spec_range(floor: u64, ceiling: u64, weight: u64) -> ScoreRange {
    ScoreRange {
        floor: Price { bits: floor },
        ceiling: Price { bits: ceiling },
        weight: Price { bits: weight },
    }
}

/// Standard: PER 5..20, PBR 0.5..2, dividend yield 1..5, ROE 5..20 and sales
/// growth 0..15, each worth 20 points.
pub open spec fn spec_standard_policy() -> ValueScorePolicy {
    ValueScorePolicy {
        per: spec_range(BITS_5, BITS_20, BITS_20),
        pbr: spec_range(BITS_0_5, BITS_2, BITS_20),
        dividend_yield: spec_range(BITS_1, BITS_5, BITS_20),
        roe: spec_range(BITS_5, BITS_20, BITS_20),
        sales_growth: spec_range(BITS_0, BITS_15, BITS_20),
    }
}

/// Value: PER 3..15 and PBR 0.3..1.5 worth 30 points each, dividend yield
/// 1..4 and ROE 5..20 worth 15, sales growth 0..12 worth 10.
pub open spec fn spec_value_policy() -> ValueScorePolicy {
    ValueScorePolicy {
        per: spec_range(BITS_3, BITS_15, BITS_30),
        pbr: spec_range(BITS_0_3, BITS_1_5, BITS_30),
        dividend_yield: spec_range(BITS_1, BITS_4, BITS_15),
        roe: spec_range(BITS_5, BITS_20, BITS_15),
        sales_growth: spec_range(BITS_0, BITS_12, BITS_10),
    }
}

/// Dividend: dividend yield 2..6 worth 40 points; PER 5..20, PBR 0.5..2,
/// ROE 5..20 and sales growth 0..12 worth 15 each.
pub open spec fn spec_dividend_policy() -> ValueScorePolicy {
    ValueScorePolicy {
        per: spec_range(BITS_5, BITS_20, BITS_15),
        pbr: spec_range(BITS_0_5, BITS_2, BITS_15),
        dividend_yield: spec_range(BITS_2, BITS_6, BITS_40),
        roe: spec_range(BITS_5, BITS_20, BITS_15),
        sales_growth: spec_range(BITS_0, BITS_12, BITS_15),
    }
}

fn range(floor: u64, ceiling: u64, weight: u64) -> (r: ScoreRange)
    ensures
        r == spec_range(floor, ceiling, weight),
{
    ScoreRange {
        floor: Price::from_bits(floor),
        ceiling: Price::from_bits(ceiling),
        weight: Price::from_bits(weight),
    }
}

/// A preset name that is none of `standard`, `value` and `dividend`.
#[derive(Debug, Clone, PartialEq)]
pub enum ScorePolicyError {
    UnsupportedPresetName { preset_name: String },
}

/// The text of the error for an unknown preset name.
pub open spec fn spec_unsupported_preset_message(preset_name: Seq<char>) -> Seq<char> {
    "unsupported preset name. preset_name: "@ + preset_name + ". available presets: standard, value, dividend"@
}

impl ScorePolicyError {
    /// The message: the name that was refused and the names that are accepted.
    pub fn message(&self) -> (m: String)
        ensures
            self matches ScorePolicyError::UnsupportedPresetName { preset_name } ==> m@
                == spec_unsupported_preset_message(preset_name@),
    {
        match self {
            ScorePolicyError::UnsupportedPresetName { preset_name } => {
                let mut m = String::from_str("unsupported preset name. preset_name: ");
                m.append(preset_name.as_str());
                m.append(". available presets: standard, value, dividend");
                m
            },
        }
    }
}

impl ValueScorePolicy {
    pub fn standard() -> (r: ValueScorePolicy)
        ensures
            r == spec_standard_policy(),
    {
        ValueScorePolicy {
            per: range(BITS_5, BITS_20, BITS_20),
            pbr: range(BITS_0_5, BITS_2, BITS_20),
            dividend_yield: range(BITS_1, BITS_5, BITS_20),
            roe: range(BITS_5, BITS_20, BITS_20),
            sales_growth: range(BITS_0, BITS_15, BITS_20),
        }
    }

    pub fn value() -> (r: ValueScorePolicy)
        ensures
            r == spec_value_policy(),
    {
        ValueScorePolicy {
            per: range(BITS_3, BITS_15, BITS_30),
            pbr: range(BITS_0_3, BITS_1_5, BITS_30),
            dividend_yield: range(BITS_1, BITS_4, BITS_15),
            roe: range(BITS_5, BITS_20, BITS_15),
            sales_growth: range(BITS_0, BITS_12, BITS_10),
        }
    }

    pub fn dividend() -> (r: ValueScorePolicy)
        ensures
            r == spec_dividend_policy(),
    {
        ValueScorePolicy {
            per: range(BITS_5, BITS_20, BITS_15),
            pbr: range(BITS_0_5, BITS_2, BITS_15),
            dividend_yield: range(BITS_2, BITS_6, BITS_40),
            roe: range(BITS_5, BITS_20, BITS_15),
            sales_growth: range(BITS_0, BITS_12, BITS_15),
        }
    }

    /// The preset named `standard`, `value` or `dividend`.
    pub fn try_from(preset_name: &str) -> (r: Result<ValueScorePolicy, ScorePolicyError>)
        ensures
            preset_name@ == "standard"@ ==> r == Ok::<ValueScorePolicy, ScorePolicyError>(
                spec_standard_policy(),
            ),
            preset_name@ == "value"@ ==> r == Ok::<ValueScorePolicy, ScorePolicyError>(
                spec_value_policy(),
            ),
            preset_name@ == "dividend"@ ==> r == Ok::<ValueScorePolicy, ScorePolicyError>(
                spec_dividend_policy(),
            ),
            preset_name@ != "standard"@ && preset_name@ != "value"@ && preset_name@ != "dividend"@
                ==> (r matches Err(ScorePolicyError::UnsupportedPresetName { preset_name: n })
                && n@ == preset_name@),
    {
        proof {
            reveal_strlit("standard");
            reveal_strlit("value");
            reveal_strlit("dividend");
            assert("value"@.len() == 5 && "standard"@.len() == 8 && "dividend"@.len() == 8);
            assert("dividend"@[0] != "standard"@[0]);
        }
        if str_eq(preset_name, "standard") {
            Ok(ValueScorePolicy::standard())
        } else if str_eq(preset_name, "value") {
            Ok(ValueScorePolicy::value())
        } else if str_eq(preset_name, "dividend") {
            Ok(ValueScorePolicy::dividend())
        } else {
            Err(
                ScorePolicyError::UnsupportedPresetName {
                    preset_name: String::from_str(preset_name),
                },
            )
        }
    }
}

} // verus!
