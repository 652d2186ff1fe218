//! Close-based analysis of the moving average crossover strategy: how the
//! close moved in the `N` trading days after each crossover.
use crate::date::{epoch_days, Date};
use crate::models::macos::{
    macos_analysis_pattern, spec_macos_analysis_pattern, AnalysisPattern, Pattern, MACOS,
};
use crate::models::stock::Stock;
use crate::models::stocks_macoses_pair::StocksMACOSESPair;
use crate::price::Price;
use crate::search::{position_of_date, spec_first_with_date};
use vstd::prelude::*;

verus! {

/// A close crossover, the close on its day and the close `N` trading days later.
#[derive(Debug, Copy, Clone, PartialEq)]
pub struct MACOSObservation {
    pub date_of_event: Date,
    pub close: Price,
    pub close_after_n_days: Price,
    pub pattern: Pattern,
}

/// The analysis of one close crossover.
#[derive(Debug, Copy, Clone, PartialEq, Default)]
pub struct MACOSAnalysisClose {
    pub date_of_event: Date,
    pub close: Price,
    pub close_after_n_days: Price,
    pub pattern: Pattern,
    /// The rate of change of the close, in percent.
    pub rate_of_change: Price,
    pub analysis_pattern: AnalysisPattern,
}

/// The observation of a strategy day: none for a day without a close
/// crossover, without a trading day of its date, or without `n` further
/// trading days.
pub open spec fn spec_macos_observation(stocks: Seq<Stock>, m: MACOS, n: int) -> Option<
    MACOSObservation,
> {
    if m.pattern_close_volume.close == Pattern::Neither {
        None
    } else {
        match spec_first_with_date(stocks, m.date) {
            Some(i) => if i + n < stocks.len() {
                Some(
                    MACOSObservation {
                        date_of_event: m.date,
                        close: stocks[i].close,
                        close_after_n_days: stocks[i + n].close,
                        pattern: m.pattern_close_volume.close,
                    },
                )
            } else {
                None
            },
            None => None,
        }
    }
}

/// The observations of all strategy days, in order.
pub open spec fn spec_macos_observations(stocks: Seq<Stock>, ms: Seq<MACOS>, n: int) -> Seq<
    MACOSObservation,
>
    decreases ms.len(),
{
    if ms.len() == 0 {
        Seq::empty()
    } else {
        let rest = spec_macos_observations(stocks, ms.drop_last(), n);
        match spec_macos_observation(stocks, ms.last(), n) {
            Some(o) => rest.push(o),
            None => rest,
        }
    }
}

impl MACOSAnalysisClose {
    /// Completes an observation with the rate of change of its close, and
    /// classifies it.
    pub fn from_observation(o: MACOSObservation, rate_of_change: Price) -> (r: MACOSAnalysisClose)
        ensures
            r == (MACOSAnalysisClose {
                date_of_event: o.date_of_event,
                close: o.close,
                close_after_n_days: o.close_after_n_days,
                pattern: o.pattern,
                rate_of_change,
                analysis_pattern: spec_macos_analysis_pattern(o.pattern, rate_of_change),
            }),
    {
        MACOSAnalysisClose {
            date_of_event: o.date_of_event,
            close: o.close,
            close_after_n_days: o.close_after_n_days,
            pattern: o.pattern,
            rate_of_change,
            analysis_pattern: macos_analysis_pattern(o.pattern, rate_of_change),
        }
    }
}

/// How many results have the analysis pattern `p`.
pub open spec fn spec_macos_count(s: Seq<MACOSAnalysisClose>, p: AnalysisPattern) -> nat
    decreases s.len(),
{
    if s.len() == 0 {
        0
    } else {
        spec_macos_count(s.drop_last(), p) + if s.last().analysis_pattern == p {
            1nat
        } else {
            0nat
        }
    }
}

/// The date of the last result with the analysis pattern `p`.
pub open spec fn spec_macos_last_event(s: Seq<MACOSAnalysisClose>, p: AnalysisPattern) -> Option<Date>
    decreases s.len(),
{
    if s.len() == 0 {
        None
    } else if s.last().analysis_pattern == p {
        Some(s.last().date_of_event)
    } else {
        spec_macos_last_event(s.drop_last(), p)
    }
}

/// The counts behind the rates of chance.
#[derive(Debug, Copy, Clone, PartialEq, Eq, Structural, Hash, Default)]
pub struct MACOSChanceCounts {
    pub golden_chance: usize,
    pub golden_loss: usize,
    pub dead_chance: usize,
    pub dead_loss: usize,
    pub total: usize,
}

fn count_macos_pattern(s: &[MACOSAnalysisClose], p: &AnalysisPattern) -> (n: usize)
    ensures
        n == spec_macos_count(s@, *p),
{
    let mut n: usize = 0;
    let mut i: usize = 0;
    while i < s.len()
        invariant
            i <= s@.len(),
            n == spec_macos_count(s@.take(i as int), *p),
            n <= i,
        decreases s.len() - i,
    {
        assert(s@.take(i + 1).drop_last() == s@.take(i as int));
        if s[i].analysis_pattern.is(p) {
            n = n + 1;
        }
        i = i + 1;
    }
    assert(s@.take(s@.len() as int) == s@);
    n
}

/// The dates of the latest golden and dead chances, if any.
#[derive(Debug, Copy, Clone, PartialEq, Eq, Structural, Hash, PartialOrd, Ord, Default)]
pub struct LatestChance {
    pub golden_cross: Option<Date>,
    pub dead_cross: Option<Date>,
}

/// The more recent of the two chances decides; a golden chance wins a tie.
pub open spec fn spec_latest_chance_macos_pattern(value: LatestChance) -> Pattern {
    match (value.golden_cross, value.dead_cross) {
        (Some(golden), Some(dead)) => if golden.days >= dead.days {
            Pattern::GoldenCross
        } else {
            Pattern::DeadCross
        },
        (Some(_), None) => Pattern::GoldenCross,
        (None, Some(_)) => Pattern::DeadCross,
        (None, None) => Pattern::Neither,
    }
}

/// The date of the more recent chance; the default date when there is none.
pub open spec fn spec_latest_chance_macos_date(value: LatestChance) -> Date {
    match (value.golden_cross, value.dead_cross) {
        (Some(golden), Some(dead)) => if golden.days >= dead.days {
            golden
        } else {
            dead
        },
        (Some(golden), None) => golden,
        (None, Some(dead)) => dead,
        (None, None) => Date { days: epoch_days() },
    }
}

impl From<LatestChance> for Pattern {
    fn from(value: LatestChance) -> (r: Pattern) {
        match (value.golden_cross, value.dead_cross) {
            (Some(golden), Some(dead)) => {
                if dead.is_on_or_before(&golden) {
                    Pattern::GoldenCross
                } else {
                    Pattern::DeadCross
                }
            },
            (Some(_), None) => Pattern::GoldenCross,
            (None, Some(_)) => Pattern::DeadCross,
            (None, None) => Pattern::Neither,
        }
    }
}

impl vstd::std_specs::convert::FromSpecImpl<LatestChance> for Pattern {
    open spec fn obeys_from_spec() -> bool {
        true
    }

    open spec fn from_spec(value: LatestChance) -> Pattern {
        spec_latest_chance_macos_pattern(value)
    }
}

impl From<LatestChance> for Date {
    fn from(value: LatestChance) -> (r: Date) {
        match (value.golden_cross, value.dead_cross) {
            (Some(golden), Some(dead)) => {
                if dead.is_on_or_before(&golden) {
                    golden
                } else {
                    dead
                }
            },
            (Some(golden), None) => golden,
            (None, Some(dead)) => dead,
            (None, None) => Date::epoch(),
        }
    }
}

impl vstd::std_specs::convert::FromSpecImpl<LatestChance> for Date {
    open spec fn obeys_from_spec() -> bool {
        true
    }

    open spec fn from_spec(value: LatestChance) -> Date {
        spec_latest_chance_macos_date(value)
    }
}

/// Close-based analysis results over `N` trading days, in strategy-day order.
#[derive(Debug, Clone, PartialEq, Default)]
pub struct MACOSAnalysisCloses<const N: usize>(pub Vec<MACOSAnalysisClose>);

impl<const N: usize> MACOSAnalysisCloses<N> {
    /// For each close crossover of the strategy, the close on its day and
    /// `N` trading days later.
    pub fn observations(value: &StocksMACOSESPair<'_>) -> (r: Vec<MACOSObservation>)
        ensures
            r@ == spec_macos_observations(value.stocks@, value.macoses@, N as int),
    {
        let stocks = value.stocks;
        let ms = value.macoses;
        let mut out: Vec<MACOSObservation> = Vec::new();
        let mut i: usize = 0;
        while i < ms.len()
            invariant
                i <= ms@.len(),
                out@ == spec_macos_observations(stocks@, ms@.take(i as int), N as int),
            decreases ms.len() - i,
        {
            assert(ms@.take(i + 1).drop_last() == ms@.take(i as int));
            let m = &ms[i];
            if !m.pattern_close_volume.close.is(&Pattern::Neither) {
                match position_of_date(stocks, m.date) {
                    Some(k) => {
                        if N < stocks.len() - k {
                            out.push(
                                MACOSObservation {
                                    date_of_event: m.date,
                                    close: stocks[k].close,
                                    close_after_n_days: stocks[k + N].close,
                                    pattern: m.pattern_close_volume.close,
                                },
                            );
                        }
                    },
                    None => {},
                }
            }
            i = i + 1;
        }
        assert(ms@.take(ms@.len() as int) == ms@);
        out
    }

    /// The counts of chances and losses.
    pub fn chance_counts(&self) -> (r: MACOSChanceCounts)
        ensures
            r.golden_chance == spec_macos_count(self.0@, AnalysisPattern::GoldenChance),
            r.golden_loss == spec_macos_count(self.0@, AnalysisPattern::GoldenLoss),
            r.dead_chance == spec_macos_count(self.0@, AnalysisPattern::DeadChance),
            r.dead_loss == spec_macos_count(self.0@, AnalysisPattern::DeadLoss),
            r.total == self.0@.len(),
    {
        let s = self.0.as_slice();
        MACOSChanceCounts {
            golden_chance: count_macos_pattern(s, &AnalysisPattern::GoldenChance),
            golden_loss: count_macos_pattern(s, &AnalysisPattern::GoldenLoss),
            dead_chance: count_macos_pattern(s, &AnalysisPattern::DeadChance),
            dead_loss: count_macos_pattern(s, &AnalysisPattern::DeadLoss),
            total: s.len(),
        }
    }

    fn find_latest_event(&self, target_pattern: &AnalysisPattern) -> (r: Option<Date>)
        ensures
            r == spec_macos_last_event(self.0@, *target_pattern),
    {
        let s = self.0.as_slice();
        let mut i: usize = s.len();
        assert(s@.take(s@.len() as int) == s@);
        while i > 0
            invariant
                i <= s@.len(),
                s@ == self.0@,
                spec_macos_last_event(s@, *target_pattern) == spec_macos_last_event(
                    s@.take(i as int),
                    *target_pattern,
                ),
            decreases i,
        {
            assert(s@.take(i as int).drop_last() == s@.take(i - 1));
            assert(s@.take(i as int).last() == s@[i - 1]);
            if s[i - 1].analysis_pattern.is(target_pattern) {
                assert(s@.take(i as int).len() == i);
                return Some(s[i - 1].date_of_event);
            }
            i = i - 1;
        }
        None
    }

    /// The dates of the last golden chance and the last dead chance.
    pub fn latest_chance(&self) -> (r: LatestChance)
        ensures
            r.golden_cross == spec_macos_last_event(self.0@, AnalysisPattern::GoldenChance),
            r.dead_cross == spec_macos_last_event(self.0@, AnalysisPattern::DeadChance),
    {
        let golden_cross = self.find_latest_event(&AnalysisPattern::GoldenChance);
        let dead_cross = self.find_latest_event(&AnalysisPattern::DeadChance);
        LatestChance { golden_cross, dead_cross }
    }

    pub fn len(&self) -> (n: usize)
        ensures
            n == self.0@.len(),
    {
        self.0.len()
    }
}

/// The latest chance is the later of the two: a golden cross exactly when
/// there is a golden chance no earlier than any dead chance, a dead cross
/// exactly when there is a dead chance strictly later than any golden chance,
/// dated by that chance; neither only without chances.
pub proof fn lemma_macos_latest_chance_is_the_later(value: LatestChance)
    ensures
        spec_latest_chance_macos_pattern(value) == Pattern::GoldenCross <==> (value.golden_cross is Some && (
        value.dead_cross is None || (value.golden_cross->0).days >= (value.dead_cross->0).days)),
        spec_latest_chance_macos_pattern(value) == Pattern::DeadCross <==> (value.dead_cross is Some && (
        value.golden_cross is None || (value.golden_cross->0).days < (value.dead_cross->0).days)),
        spec_latest_chance_macos_pattern(value) == Pattern::GoldenCross ==> spec_latest_chance_macos_date(value) == value.golden_cross->0,
        spec_latest_chance_macos_pattern(value) == Pattern::DeadCross ==> spec_latest_chance_macos_date(value) == value.dead_cross->0,
{
}

} // verus!
