//! Classifying a crossover by how the price moved after it.
use crate::models::crossover_pattern::CrossoverPattern;
use crate::price::{order_key, Comparison, Price};
use vstd::prelude::*;

verus! {

/// A crossover and the rate of change of the close over the days after it.
#[derive(Debug, Copy, Clone, PartialEq)]
pub struct CrossoverPatternRateOfChangePair {
    pub crossover_pattern: CrossoverPattern,
    pub rate_of_change: Price,
}

/// Whether a crossover foretold the move that followed it.
#[derive(Debug, Copy, Clone, PartialEq, Eq, Structural, Hash, PartialOrd, Ord, Default)]
pub enum AnalysisPattern {
    #[default]
    NotApplicable,
    GoldenChance,
    DeadChance,
    GoldenLoss,
    DeadLoss,
}

/// A golden cross followed by a rise is a golden chance, by no rise a golden
/// loss; a dead cross followed by a fall is a dead chance, by no fall a dead
/// loss. No crossover, or a rate that is NaN, is none.
pub open spec fn spec_analysis_pattern(pattern: CrossoverPattern, rate: Price) -> AnalysisPattern {
    let sign = rate.spec_partial_compare(Price { bits: 0 });
    match (pattern, sign) {
        (CrossoverPattern::GoldenCross, Some(Comparison::Greater)) => AnalysisPattern::GoldenChance,
        (CrossoverPattern::GoldenCross, Some(_)) => AnalysisPattern::GoldenLoss,
        (CrossoverPattern::DeadCross, Some(Comparison::Less)) => AnalysisPattern::DeadChance,
        (CrossoverPattern::DeadCross, Some(_)) => AnalysisPattern::DeadLoss,
        _ => AnalysisPattern::NotApplicable,
    }
}

/// Classifies a crossover by the sign of the rate of change that followed.
pub fn analysis_pattern(pattern: CrossoverPattern, rate: Price) -> (r: AnalysisPattern)
    ensures
        r == spec_analysis_pattern(pattern, rate),
{
    let sign = rate.partial_compare(&Price::zero());
    match (pattern, sign) {
        (CrossoverPattern::GoldenCross, Some(Comparison::Greater)) => AnalysisPattern::GoldenChance,
        (CrossoverPattern::GoldenCross, Some(_)) => AnalysisPattern::GoldenLoss,
        (CrossoverPattern::DeadCross, Some(Comparison::Less)) => AnalysisPattern::DeadChance,
        (CrossoverPattern::DeadCross, Some(_)) => AnalysisPattern::DeadLoss,
        _ => AnalysisPattern::NotApplicable,
    }
}

impl From<CrossoverPatternRateOfChangePair> for AnalysisPattern {
    fn from(value: CrossoverPatternRateOfChangePair) -> (r: AnalysisPattern) {
        analysis_pattern(value.crossover_pattern, value.rate_of_change)
    }
}

impl vstd::std_specs::convert::FromSpecImpl<CrossoverPatternRateOfChangePair> for AnalysisPattern {
    open spec fn obeys_from_spec() -> bool {
        true
    }

    open spec fn from_spec(value: CrossoverPatternRateOfChangePair) -> AnalysisPattern {
        spec_analysis_pattern(value.crossover_pattern, value.rate_of_change)
    }
}

impl AnalysisPattern {
    /// `self == other`.
    pub fn is(&self, other: &AnalysisPattern) -> (r: bool)
        ensures
            r == (*self == *other),
    {
        match (self, other) {
            (AnalysisPattern::NotApplicable, AnalysisPattern::NotApplicable) => true,
            (AnalysisPattern::GoldenChance, AnalysisPattern::GoldenChance) => true,
            (AnalysisPattern::DeadChance, AnalysisPattern::DeadChance) => true,
            (AnalysisPattern::GoldenLoss, AnalysisPattern::GoldenLoss) => true,
            (AnalysisPattern::DeadLoss, AnalysisPattern::DeadLoss) => true,
            _ => false,
        }
    }
}

/// Every crossover with a rate that is not NaN is either a chance or a loss
/// of its own colour, and golden outcomes come only from golden crosses, dead
/// outcomes only from dead crosses.
pub proof fn lemma_analysis_pattern_partition(pattern: CrossoverPattern, rate: Price)
    ensures
        !rate.spec_is_nan() && pattern == CrossoverPattern::GoldenCross ==> (spec_analysis_pattern(
            pattern,
            rate,
        ) == AnalysisPattern::GoldenChance || spec_analysis_pattern(pattern, rate)
            == AnalysisPattern::GoldenLoss),
        !rate.spec_is_nan() && pattern == CrossoverPattern::DeadCross ==> (spec_analysis_pattern(
            pattern,
            rate,
        ) == AnalysisPattern::DeadChance || spec_analysis_pattern(pattern, rate)
            == AnalysisPattern::DeadLoss),
        (spec_analysis_pattern(pattern, rate) == AnalysisPattern::GoldenChance
            || spec_analysis_pattern(pattern, rate) == AnalysisPattern::GoldenLoss) ==> pattern
            == CrossoverPattern::GoldenCross,
        (spec_analysis_pattern(pattern, rate) == AnalysisPattern::DeadChance
            || spec_analysis_pattern(pattern, rate) == AnalysisPattern::DeadLoss) ==> pattern
            == CrossoverPattern::DeadCross,
        pattern == CrossoverPattern::Neither ==> spec_analysis_pattern(pattern, rate)
            == AnalysisPattern::NotApplicable,
{
}

/// How a crossover is judged by the move that followed it, stated on the
/// sign of the rate of change (`order_key` orders prices as the reals they
/// denote and maps both zeros to 0): after a dead cross a fall is a dead
/// chance and anything else a dead loss; after a golden cross a rise is a
/// golden chance and anything else a golden loss; a NaN rate or no crossover
/// is not applicable.
pub proof fn lemma_analysis_pattern_by_sign(pattern: CrossoverPattern, rate: Price)
    ensures
        rate.spec_is_nan() ==> spec_analysis_pattern(pattern, rate)
            == AnalysisPattern::NotApplicable,
        pattern == CrossoverPattern::Neither ==> spec_analysis_pattern(pattern, rate)
            == AnalysisPattern::NotApplicable,
        !rate.spec_is_nan() && pattern == CrossoverPattern::DeadCross ==> (spec_analysis_pattern(
            pattern,
            rate,
        ) == AnalysisPattern::DeadChance <==> order_key(rate.bits) < 0),
        !rate.spec_is_nan() && pattern == CrossoverPattern::DeadCross ==> (spec_analysis_pattern(
            pattern,
            rate,
        ) == AnalysisPattern::DeadLoss <==> order_key(rate.bits) >= 0),
        !rate.spec_is_nan() && pattern == CrossoverPattern::GoldenCross ==> (spec_analysis_pattern(
            pattern,
            rate,
        ) == AnalysisPattern::GoldenChance <==> order_key(rate.bits) > 0),
        !rate.spec_is_nan() && pattern == CrossoverPattern::GoldenCross ==> (spec_analysis_pattern(
            pattern,
            rate,
        ) == AnalysisPattern::GoldenLoss <==> order_key(rate.bits) <= 0),
{
}

} // verus!
