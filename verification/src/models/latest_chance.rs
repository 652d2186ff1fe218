//! The latest golden and dead chances of an analysis.
use crate::date::{epoch_days, Date};
use crate::models::crossover_pattern::CrossoverPattern;
use vstd::prelude::*;

verus! {

/// The dates of the latest golden and dead chances, if any.
#[derive(Debug, Copy, Clone, PartialEq, Eq, Structural, Hash, PartialOrd, Ord, Default)]
pub struct LatestChance {
    pub golden_cross: Option<Date>,
    pub dead_cross: Option<Date>,
}

/// The more recent of the two chances decides; a golden chance wins a tie.
pub open spec fn spec_latest_chance_pattern(value: LatestChance) -> CrossoverPattern {
    match (value.golden_cross, value.dead_cross) {
        (Some(golden), Some(dead)) => if golden.days >= dead.days {
            CrossoverPattern::GoldenCross
        } else {
            CrossoverPattern::DeadCross
        },
        (Some(_), None) => CrossoverPattern::GoldenCross,
        (None, Some(_)) => CrossoverPattern::DeadCross,
        (None, None) => CrossoverPattern::Neither,
    }
}

/// The date of the more recent chance; the default date when there is none.
pub open spec fn spec_latest_chance_date(value: LatestChance) -> Date {
    match (value.golden_cross, value.dead_cross) {
        (Some(golden), Some(dead)) => if golden.days >= dead.days {
            golden
        } else {
            dead
        },
        (Some(golden), None) => golden,
        (None, Some(dead)) => dead,
        (None, None) => Date { days: epoch_days() },
    }
}

impl From<LatestChance> for CrossoverPattern {
    fn from(value: LatestChance) -> (r: CrossoverPattern) {
        match (value.golden_cross, value.dead_cross) {
            (Some(golden), Some(dead)) => {
                if dead.is_on_or_before(&golden) {
                    CrossoverPattern::GoldenCross
                } else {
                    CrossoverPattern::DeadCross
                }
            },
            (Some(_), None) => CrossoverPattern::GoldenCross,
            (None, Some(_)) => CrossoverPattern::DeadCross,
            (None, None) => CrossoverPattern::Neither,
        }
    }
}

impl vstd::std_specs::convert::FromSpecImpl<LatestChance> for CrossoverPattern {
    open spec fn obeys_from_spec() -> bool {
        true
    }

    open spec fn from_spec(value: LatestChance) -> CrossoverPattern {
        spec_latest_chance_pattern(value)
    }
}

impl From<LatestChance> for Date {
    fn from(value: LatestChance) -> (r: Date) {
        match (value.golden_cross, value.dead_cross) {
            (Some(golden), Some(dead)) => {
                if dead.is_on_or_before(&golden) {
                    golden
                } else {
                    dead
                }
            },
            (Some(golden), None) => golden,
            (None, Some(dead)) => dead,
            (None, None) => Date::epoch(),
        }
    }
}

impl vstd::std_specs::convert::FromSpecImpl<LatestChance> for Date {
    open spec fn obeys_from_spec() -> bool {
        true
    }

    open spec fn from_spec(value: LatestChance) -> Date {
        spec_latest_chance_date(value)
    }
}

/// The pattern and the date read from the same latest chance agree: a
/// golden cross is dated by the golden chance, a dead cross by the dead
/// chance, and no cross happens only without chances, on the default date.
pub proof fn lemma_latest_chance_consistent(value: LatestChance)
    ensures
        spec_latest_chance_pattern(value) == CrossoverPattern::GoldenCross ==> value.golden_cross
            == Some(spec_latest_chance_date(value)),
        spec_latest_chance_pattern(value) == CrossoverPattern::DeadCross ==> value.dead_cross
            == Some(spec_latest_chance_date(value)),
        spec_latest_chance_pattern(value) == CrossoverPattern::Neither <==> (value.golden_cross is None
            && value.dead_cross is None),
        spec_latest_chance_pattern(value) == CrossoverPattern::Neither ==> spec_latest_chance_date(
            value,
        ).days == epoch_days(),
{
}

/// The latest chance is the later of the two: a golden cross exactly when
/// there is a golden chance no earlier than any dead chance, a dead cross
/// exactly when there is a dead chance strictly later than any golden chance,
/// dated by that chance; neither only without chances.
pub proof fn lemma_latest_chance_is_the_later(value: LatestChance)
    ensures
        spec_latest_chance_pattern(value) == CrossoverPattern::GoldenCross <==> (value.golden_cross is Some && (
        value.dead_cross is None || (value.golden_cross->0).days >= (value.dead_cross->0).days)),
        spec_latest_chance_pattern(value) == CrossoverPattern::DeadCross <==> (value.dead_cross is Some && (
        value.golden_cross is None || (value.golden_cross->0).days < (value.dead_cross->0).days)),
        spec_latest_chance_pattern(value) == CrossoverPattern::GoldenCross ==> spec_latest_chance_date(value) == value.golden_cross->0,
        spec_latest_chance_pattern(value) == CrossoverPattern::DeadCross ==> spec_latest_chance_date(value) == value.dead_cross->0,
{
}

} // verus!
