//! The direction in which two moving lines crossed.
use crate::price::Comparison;
use vstd::prelude::*;

verus! {

/// The direction in which two moving averages crossed.
#[derive(Debug, Copy, Clone, PartialEq, Eq, Structural, Hash, PartialOrd, Ord, Default)]
pub enum CrossoverPattern {
    #[default]
    Neither,
    GoldenCross,
    DeadCross,
}

/// The crossover that a pair of comparisons (fast line against slow line,
/// yesterday and today) shows: from below to above is a golden cross, from
/// above to below a dead cross, anything else neither.
pub open spec fn spec_crossover_pattern(
    past: Option<Comparison>,
    target: Option<Comparison>,
) -> CrossoverPattern {
    match (past, target) {
        (Some(Comparison::Less), Some(Comparison::Greater)) => CrossoverPattern::GoldenCross,
        (Some(Comparison::Greater), Some(Comparison::Less)) => CrossoverPattern::DeadCross,
        _ => CrossoverPattern::Neither,
    }
}

impl CrossoverPattern {
    pub open spec fn spec_eq(self, other: CrossoverPattern) -> bool {
        self == other
    }

    /// `self == other`.
    pub fn is(&self, other: &CrossoverPattern) -> (r: bool)
        ensures
            r == (*self == *other),
    {
        match (self, other) {
            (CrossoverPattern::Neither, CrossoverPattern::Neither) => true,
            (CrossoverPattern::GoldenCross, CrossoverPattern::GoldenCross) => true,
            (CrossoverPattern::DeadCross, CrossoverPattern::DeadCross) => true,
            _ => false,
        }
    }
}

impl From<(Option<Comparison>, Option<Comparison>)> for CrossoverPattern {
    fn from(value: (Option<Comparison>, Option<Comparison>)) -> (r: CrossoverPattern) {
        match value {
            (Some(Comparison::Less), Some(Comparison::Greater)) => CrossoverPattern::GoldenCross,
            (Some(Comparison::Greater), Some(Comparison::Less)) => CrossoverPattern::DeadCross,
            _ => CrossoverPattern::Neither,
        }
    }
}

impl vstd::std_specs::convert::FromSpecImpl<(Option<Comparison>, Option<Comparison>)> for CrossoverPattern {
    open spec fn obeys_from_spec() -> bool {
        true
    }

    open spec fn from_spec(value: (Option<Comparison>, Option<Comparison>)) -> CrossoverPattern {
        spec_crossover_pattern(value.0, value.1)
    }
}

/// Swapping the roles of the two lines swaps golden and dead crosses.
pub proof fn lemma_crossover_pattern_mirrors(past: Comparison, target: Comparison)
    ensures
        spec_crossover_pattern(Some(past), Some(target)) == CrossoverPattern::GoldenCross
            <==> spec_crossover_pattern(Some(past.spec_reverse()), Some(target.spec_reverse()))
            == CrossoverPattern::DeadCross,
{
}

/// A crossover needs the order to change between the two days: when the
/// comparison is the same on both days there is no crossover.
pub proof fn lemma_no_crossover_without_change(c: Option<Comparison>)
    ensures
        spec_crossover_pattern(c, c) == CrossoverPattern::Neither,
{
}

/// A golden cross is exactly the fast line going from below the slow line to
/// above it, a dead cross exactly from above to below; every other pair of
/// comparisons (touching, unchanged, unknown) is no crossover.
pub proof fn lemma_crossover_pattern_meaning(past: Option<Comparison>, target: Option<Comparison>)
    ensures
        spec_crossover_pattern(past, target) == CrossoverPattern::GoldenCross <==> (past == Some(
            Comparison::Less,
        ) && target == Some(Comparison::Greater)),
        spec_crossover_pattern(past, target) == CrossoverPattern::DeadCross <==> (past == Some(
            Comparison::Greater,
        ) && target == Some(Comparison::Less)),
{
}

} // verus!
