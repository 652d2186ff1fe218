//! Moving average crossover strategy: where the 5-day average crossed the
//! 25-day average, for close and for volume.
use crate::date::Date;
use crate::models::crossover_pattern::CrossoverPattern;
use crate::models::sma::{SMAListPair, SMAPair, SMA};
use crate::models::sma_cos::{
    spec_sma_coses,
    sma_cos_step, spec_crossover_close_volume, spec_matching_slow, spec_ordering_close_volume,
    CrossoverPatternCloseVolume,
};
use crate::price::{order_key, Comparison, Price};
use crate::search::{is_latest_matching, lemma_latest_matching_step, HasDate};
use vstd::prelude::*;

verus! {

/// The direction in which two moving averages crossed.
#[derive(Debug, Copy, Clone, PartialEq, Eq, Structural, Hash, PartialOrd, Ord, Default)]
pub enum Pattern {
    #[default]
    Neither,
    GoldenCross,
    DeadCross,
}

/// The pattern of a crossover.
pub open spec fn spec_pattern_of(p: CrossoverPattern) -> Pattern {
    match p {
        CrossoverPattern::Neither => Pattern::Neither,
        CrossoverPattern::GoldenCross => Pattern::GoldenCross,
        CrossoverPattern::DeadCross => Pattern::DeadCross,
    }
}

pub fn pattern_of(p: CrossoverPattern) -> (r: Pattern)
    ensures
        r == spec_pattern_of(p),
{
    match p {
        CrossoverPattern::Neither => Pattern::Neither,
        CrossoverPattern::GoldenCross => Pattern::GoldenCross,
        CrossoverPattern::DeadCross => Pattern::DeadCross,
    }
}

/// From below to above is a golden cross, from above to below a dead cross.
pub open spec fn spec_pattern(past: Option<Comparison>, target: Option<Comparison>) -> Pattern {
    match (past, target) {
        (Some(Comparison::Less), Some(Comparison::Greater)) => Pattern::GoldenCross,
        (Some(Comparison::Greater), Some(Comparison::Less)) => Pattern::DeadCross,
        _ => Pattern::Neither,
    }
}

impl From<(Option<Comparison>, Option<Comparison>)> for Pattern {
    fn from(value: (Option<Comparison>, Option<Comparison>)) -> (r: Pattern) {
        match value {
            (Some(Comparison::Less), Some(Comparison::Greater)) => Pattern::GoldenCross,
            (Some(Comparison::Greater), Some(Comparison::Less)) => Pattern::DeadCross,
            _ => Pattern::Neither,
        }
    }
}

impl vstd::std_specs::convert::FromSpecImpl<(Option<Comparison>, Option<Comparison>)> for Pattern {
    open spec fn obeys_from_spec() -> bool {
        true
    }

    open spec fn from_spec(value: (Option<Comparison>, Option<Comparison>)) -> Pattern {
        spec_pattern(value.0, value.1)
    }
}

impl Pattern {
    /// `self == other`.
    pub fn is(&self, other: &Pattern) -> (r: bool)
        ensures
            r == (*self == *other),
    {
        match (self, other) {
            (Pattern::Neither, Pattern::Neither) => true,
            (Pattern::GoldenCross, Pattern::GoldenCross) => true,
            (Pattern::DeadCross, Pattern::DeadCross) => true,
            _ => false,
        }
    }
}

/// Whether a crossover foretold the move that followed it.
#[derive(Debug, Copy, Clone, PartialEq, Eq, Structural, Hash, PartialOrd, Ord, Default)]
pub enum AnalysisPattern {
    #[default]
    NotApplicable,
    GoldenChance,
    DeadChance,
    GoldenLoss,
    DeadLoss,
}

/// A crossover pattern and the rate of change of the close after it.
#[derive(Debug, Copy, Clone, PartialEq)]
pub struct PatternRateOfChangePair {
    pub pattern: Pattern,
    pub rate_of_change: Price,
}

/// A golden cross followed by a rise is a golden chance, by no rise a golden
/// loss; a dead cross followed by a fall is a dead chance, by no fall a dead
/// loss; no crossover, or a NaN rate, is not applicable.
pub open spec fn spec_macos_analysis_pattern(pattern: Pattern, rate: Price) -> AnalysisPattern {
    let sign = rate.spec_partial_compare(Price { bits: 0 });
    match (pattern, sign) {
        (Pattern::GoldenCross, Some(Comparison::Greater)) => AnalysisPattern::GoldenChance,
        (Pattern::GoldenCross, Some(_)) => AnalysisPattern::GoldenLoss,
        (Pattern::DeadCross, Some(Comparison::Less)) => AnalysisPattern::DeadChance,
        (Pattern::DeadCross, Some(_)) => AnalysisPattern::DeadLoss,
        _ => AnalysisPattern::NotApplicable,
    }
}

pub fn macos_analysis_pattern(pattern: Pattern, rate: Price) -> (r: AnalysisPattern)
    ensures
        r == spec_macos_analysis_pattern(pattern, rate),
{
    let sign = rate.partial_compare(&Price::zero());
    match (pattern, sign) {
        (Pattern::GoldenCross, Some(Comparison::Greater)) => AnalysisPattern::GoldenChance,
        (Pattern::GoldenCross, Some(_)) => AnalysisPattern::GoldenLoss,
        (Pattern::DeadCross, Some(Comparison::Less)) => AnalysisPattern::DeadChance,
        (Pattern::DeadCross, Some(_)) => AnalysisPattern::DeadLoss,
        _ => AnalysisPattern::NotApplicable,
    }
}

impl From<PatternRateOfChangePair> for AnalysisPattern {
    fn from(value: PatternRateOfChangePair) -> (r: AnalysisPattern) {
        macos_analysis_pattern(value.pattern, value.rate_of_change)
    }
}

impl vstd::std_specs::convert::FromSpecImpl<PatternRateOfChangePair> for AnalysisPattern {
    open spec fn obeys_from_spec() -> bool {
        true
    }

    open spec fn from_spec(value: PatternRateOfChangePair) -> AnalysisPattern {
        spec_macos_analysis_pattern(value.pattern, value.rate_of_change)
    }
}

impl AnalysisPattern {
    /// `self == other`.
    pub fn is(&self, other: &AnalysisPattern) -> (r: bool)
        ensures
            r == (*self == *other),
    {
        match (self, other) {
            (AnalysisPattern::NotApplicable, AnalysisPattern::NotApplicable) => true,
            (AnalysisPattern::GoldenChance, AnalysisPattern::GoldenChance) => true,
            (AnalysisPattern::DeadChance, AnalysisPattern::DeadChance) => true,
            (AnalysisPattern::GoldenLoss, AnalysisPattern::GoldenLoss) => true,
            (AnalysisPattern::DeadLoss, AnalysisPattern::DeadLoss) => true,
            _ => false,
        }
    }
}

/// The crossover patterns of close and volume.
#[derive(Debug, Copy, Clone, PartialEq, Eq, Structural, Hash, PartialOrd, Ord, Default)]
pub struct PatternCloseVolume {
    pub close: Pattern,
    pub volume: Pattern,
}

/// How a fast average compares with a slow one, for close and for volume;
/// both `None` when the slow average of that day is missing.
#[derive(Debug, Copy, Clone, PartialEq, Eq, Structural, Hash, PartialOrd, Ord, Default)]
pub struct OrderingCloseVolume {
    pub close: Option<Comparison>,
    pub volume: Option<Comparison>,
}

impl OrderingCloseVolume {
    /// Compares an `N`-day average with the `O`-day average of its day.
    pub fn from_pair<const N: usize, const O: usize>(value: SMAPair<'_, N, O>) -> (r: OrderingCloseVolume)
        ensures
            r.close == spec_ordering_close_volume(
                *value.sma_n,
                match value.sma_o {
                    Some(o) => Some(*o),
                    None => None,
                },
            ).close,
            r.volume == spec_ordering_close_volume(
                *value.sma_n,
                match value.sma_o {
                    Some(o) => Some(*o),
                    None => None,
                },
            ).volume,
    {
        match value.sma_o {
            Some(sma_o) => OrderingCloseVolume {
                close: value.sma_n.close.partial_compare(&sma_o.close),
                volume: value.sma_n.volume.partial_compare(&sma_o.volume),
            },
            None => OrderingCloseVolume { close: None, volume: None },
        }
    }
}

/// A day of the moving average crossover strategy.
#[derive(Debug, Copy, Clone, PartialEq, Default)]
pub struct MACOS {
    pub date: Date,
    pub sma_set_25: Option<SMA<25>>,
    pub pattern_close_volume: PatternCloseVolume,
}

impl HasDate for MACOS {
    open spec fn spec_date(&self) -> Date {
        self.date
    }

    fn date_of(&self) -> (d: Date) {
        self.date
    }
}

/// The strategy day of the 5-day average at `i + 1`, against the day before.
pub open spec fn spec_macos(smas_5: Seq<SMA<5>>, smas_25: Seq<SMA<25>>, i: int) -> MACOS {
    let past = spec_ordering_close_volume(smas_5[i], spec_matching_slow(smas_5, smas_25, i));
    let slow = spec_matching_slow(smas_5, smas_25, i + 1);
    let target = spec_ordering_close_volume(smas_5[i + 1], slow);
    let patterns = spec_crossover_close_volume(past, target);
    MACOS {
        date: smas_5[i + 1].date,
        sma_set_25: slow,
        pattern_close_volume: PatternCloseVolume {
            close: spec_pattern_of(patterns.close),
            volume: spec_pattern_of(patterns.volume),
        },
    }
}

/// One strategy day for each 5-day average after the first.
pub open spec fn spec_macoses(smas_5: Seq<SMA<5>>, smas_25: Seq<SMA<25>>) -> Seq<MACOS> {
    Seq::new(
        if smas_5.len() > 0 {
            (smas_5.len() - 1) as nat
        } else {
            0
        },
        |i: int| spec_macos(smas_5, smas_25, i),
    )
}

/// `m` crossed on close in the pattern `p`.
pub open spec fn macos_closes_with(p: Pattern) -> spec_fn(MACOS) -> bool {
    |m: MACOS| m.pattern_close_volume.close == p
}

/// The moving average crossover-strategy days, in date order.
#[derive(Debug, Clone, PartialEq, Default)]
pub struct MACOSes(pub Vec<MACOS>);

impl MACOSes {
    /// One strategy day for each 5-day average after the first, with the
    /// crossovers it shows against the day before.
    pub fn from(value: SMAListPair<'_, 5, 25>) -> (r: MACOSes)
        ensures
            r.0@ == spec_macoses(value.smas_n@, value.smas_o@),
    {
        let smas_5 = value.smas_n;
        let smas_25 = value.smas_o;
        let mut out: Vec<MACOS> = Vec::new();
        if smas_5.len() == 0 {
            assert(out@ == spec_macoses(smas_5@, smas_25@));
            return MACOSes(out);
        }
        let (_, first) = sma_cos_step(smas_5, smas_25, 0);
        let mut past = first;
        let mut i: usize = 1;
        while i < smas_5.len()
            invariant
                1 <= i <= smas_5@.len(),
                past == spec_ordering_close_volume(
                    smas_5@[i - 1],
                    spec_matching_slow(smas_5@, smas_25@, i - 1),
                ),
                out@ == spec_macoses(smas_5@, smas_25@).take(i - 1),
            decreases smas_5.len() - i,
        {
            let (slow, target) = sma_cos_step(smas_5, smas_25, i);
            let patterns = CrossoverPatternCloseVolume::from_orderings(past, target);
            out.push(
                MACOS {
                    date: smas_5[i].date,
                    sma_set_25: slow,
                    pattern_close_volume: PatternCloseVolume {
                        close: pattern_of(patterns.close),
                        volume: pattern_of(patterns.volume),
                    },
                },
            );
            proof {
                assert(out@ =~= spec_macoses(smas_5@, smas_25@).take(i as int));
            }
            past = target;
            i = i + 1;
        }
        assert(spec_macoses(smas_5@, smas_25@).take(smas_5@.len() - 1) == spec_macoses(
            smas_5@,
            smas_25@,
        ));
        MACOSes(out)
    }

    /// The latest date on which the close averages crossed in the given pattern.
    pub fn latest_based_on_close(&self, pattern: &Pattern) -> (r: Option<Date>)
        ensures
            is_latest_matching(self.0@, macos_closes_with(*pattern), r),
    {
        let s = self.0.as_slice();
        let mut best: Option<Date> = None;
        let mut i: usize = 0;
        assert(s@.take(0) =~= Seq::<MACOS>::empty());
        while i < s.len()
            invariant
                i <= s@.len(),
                s@ == self.0@,
                is_latest_matching(s@.take(i as int), macos_closes_with(*pattern), best),
            decreases s.len() - i,
        {
            proof {
                lemma_latest_matching_step(s@, macos_closes_with(*pattern), i as int, best);
            }
            let m = &s[i];
            if m.pattern_close_volume.close.is(pattern) {
                best = match best {
                    Some(d) => if d.is_on_or_before(&m.date) {
                        Some(m.date)
                    } else {
                        Some(d)
                    },
                    None => Some(m.date),
                };
            }
            i = i + 1;
        }
        assert(s@.take(s@.len() as int) == s@);
        best
    }

    pub fn len(&self) -> (n: usize)
        ensures
            n == self.0@.len(),
    {
        self.0.len()
    }

    pub fn as_slice(&self) -> (s: &[MACOS])
        ensures
            s@ == self.0@,
    {
        self.0.as_slice()
    }
}

/// The moving average crossover strategy sees the same crossovers, on the
/// same days and against the same 25-day averages, as the simple moving
/// average crossover strategy.
pub proof fn lemma_macoses_match_sma_coses(smas_5: Seq<SMA<5>>, smas_25: Seq<SMA<25>>)
    ensures
        spec_macoses(smas_5, smas_25).len() == spec_sma_coses(smas_5, smas_25).len(),
        forall|i: int|
            0 <= i < spec_macoses(smas_5, smas_25).len() ==> {
                let m = #[trigger] spec_macoses(smas_5, smas_25)[i];
                let c = spec_sma_coses(smas_5, smas_25)[i];
                &&& m.date == c.date
                &&& m.pattern_close_volume.close == spec_pattern_of(c.crossover_pattern_close.0)
                &&& m.pattern_close_volume.volume == spec_pattern_of(c.crossover_pattern_volume.0)
                &&& c.close_25 == (match m.sma_set_25 {
                    Some(o) => Some(o.close),
                    None => None,
                })
                &&& c.volume_25 == (match m.sma_set_25 {
                    Some(o) => Some(o.volume),
                    None => None,
                })
            },
{
}

/// How a crossover is judged by the move that followed it, stated on the
/// sign of the rate of change (`order_key` orders prices as the reals they
/// denote and maps both zeros to 0): after a dead cross a fall (rate below
/// zero) is a dead chance and anything else a dead loss; after a golden cross
/// a rise (rate above zero) is a golden chance and anything else a golden
/// loss; a NaN rate or no crossover is not applicable.
pub proof fn lemma_macos_analysis_pattern_by_sign(pattern: Pattern, rate: Price)
    ensures
        rate.spec_is_nan() ==> spec_macos_analysis_pattern(pattern, rate)
            == AnalysisPattern::NotApplicable,
        pattern == Pattern::Neither ==> spec_macos_analysis_pattern(pattern, rate)
            == AnalysisPattern::NotApplicable,
        !rate.spec_is_nan() && pattern == Pattern::DeadCross ==> (spec_macos_analysis_pattern(
            pattern,
            rate,
        ) == AnalysisPattern::DeadChance <==> order_key(rate.bits) < 0),
        !rate.spec_is_nan() && pattern == Pattern::DeadCross ==> (spec_macos_analysis_pattern(
            pattern,
            rate,
        ) == AnalysisPattern::DeadLoss <==> order_key(rate.bits) >= 0),
        !rate.spec_is_nan() && pattern == Pattern::GoldenCross ==> (spec_macos_analysis_pattern(
            pattern,
            rate,
        ) == AnalysisPattern::GoldenChance <==> order_key(rate.bits) > 0),
        !rate.spec_is_nan() && pattern == Pattern::GoldenCross ==> (spec_macos_analysis_pattern(
            pattern,
            rate,
        ) == AnalysisPattern::GoldenLoss <==> order_key(rate.bits) <= 0),
{
}

} // verus!
