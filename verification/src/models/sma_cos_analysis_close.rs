//! Close-based analysis of the crossover strategy: how the close moved in the
//! `N` trading days after each crossover.
use crate::date::Date;
use crate::models::analysis_pattern::{analysis_pattern, spec_analysis_pattern, AnalysisPattern};
use crate::models::crossover_pattern::CrossoverPattern;
use crate::models::latest_chance::LatestChance;
use crate::models::sma_cos::SmaCos;
use crate::models::stock::Stock;
use crate::models::stocks_sma_coses_pair::StocksSmaCosesPair;
use crate::price::Price;
use crate::search::{position_of_date, spec_first_with_date};
use vstd::prelude::*;

verus! {

/// A close crossover, the close on its day and the close `N` trading days later.
#[derive(Debug, Copy, Clone, PartialEq)]
pub struct CrossoverObservation {
    pub date_of_event: Date,
    pub close: Price,
    pub close_after_n_days: Price,
    pub pattern: CrossoverPattern,
}

/// The analysis of one close crossover.
#[derive(Debug, Copy, Clone, PartialEq, Default)]
pub struct AnalysisResult {
    /// The day of the crossover.
    pub date_of_event: Date,
    /// The close on that day.
    pub close: Price,
    /// The close `N` trading days later.
    pub close_after_n_days: Price,
    pub pattern: CrossoverPattern,
    /// The rate of change of the close, in percent.
    pub rate_of_change: Price,
    pub analysis_pattern: AnalysisPattern,
}

/// The observation of a strategy day: none for a day without a close
/// crossover, without a trading day of its date, or without `n` further
/// trading days; the first trading day of its date is the one observed.
pub open spec fn spec_observation(stocks: Seq<Stock>, cos: SmaCos, n: int) -> Option<
    CrossoverObservation,
> {
    if cos.crossover_pattern_close.0 == CrossoverPattern::Neither {
        None
    } else {
        match spec_first_with_date(stocks, cos.date) {
            Some(i) => if i + n < stocks.len() {
                Some(
                    CrossoverObservation {
                        date_of_event: cos.date,
                        close: stocks[i].close,
                        close_after_n_days: stocks[i + n].close,
                        pattern: cos.crossover_pattern_close.0,
                    },
                )
            } else {
                None
            },
            None => None,
        }
    }
}

/// The observations of all strategy days, in order.
pub open spec fn spec_observations(stocks: Seq<Stock>, coses: Seq<SmaCos>, n: int) -> Seq<
    CrossoverObservation,
>
    decreases coses.len(),
{
    if coses.len() == 0 {
        Seq::empty()
    } else {
        let rest = spec_observations(stocks, coses.drop_last(), n);
        match spec_observation(stocks, coses.last(), n) {
            Some(o) => rest.push(o),
            None => rest,
        }
    }
}

/// The analysis of an observation whose close moved by `rate_of_change` percent.
pub open spec fn spec_analysis_result(o: CrossoverObservation, rate_of_change: Price) -> AnalysisResult {
    AnalysisResult {
        date_of_event: o.date_of_event,
        close: o.close,
        close_after_n_days: o.close_after_n_days,
        pattern: o.pattern,
        rate_of_change,
        analysis_pattern: spec_analysis_pattern(o.pattern, rate_of_change),
    }
}

impl AnalysisResult {
    /// Completes an observation with the rate of change of its close, and
    /// classifies it.
    pub fn from_observation(o: CrossoverObservation, rate_of_change: Price) -> (r: AnalysisResult)
        ensures
            r == spec_analysis_result(o, rate_of_change),
    {
        AnalysisResult {
            date_of_event: o.date_of_event,
            close: o.close,
            close_after_n_days: o.close_after_n_days,
            pattern: o.pattern,
            rate_of_change,
            analysis_pattern: analysis_pattern(o.pattern, rate_of_change),
        }
    }
}

/// How many results have the analysis pattern `p`.
pub open spec fn spec_count_pattern(s: Seq<AnalysisResult>, p: AnalysisPattern) -> nat
    decreases s.len(),
{
    if s.len() == 0 {
        0
    } else {
        spec_count_pattern(s.drop_last(), p) + if s.last().analysis_pattern == p {
            1nat
        } else {
            0nat
        }
    }
}

/// The date of the last result with the analysis pattern `p`.
pub open spec fn spec_last_event(s: Seq<AnalysisResult>, p: AnalysisPattern) -> Option<Date>
    decreases s.len(),
{
    if s.len() == 0 {
        None
    } else if s.last().analysis_pattern == p {
        Some(s.last().date_of_event)
    } else {
        spec_last_event(s.drop_last(), p)
    }
}

/// The counts behind the rates of chance: chances and losses of each colour,
/// and all results.
#[derive(Debug, Copy, Clone, PartialEq, Eq, Structural, Hash, Default)]
pub struct ChanceCounts {
    pub golden_chance: usize,
    pub golden_loss: usize,
    pub dead_chance: usize,
    pub dead_loss: usize,
    pub total: usize,
}

/// The count of one analysis pattern.
pub fn count_pattern(s: &[AnalysisResult], p: &AnalysisPattern) -> (n: usize)
    ensures
        n == spec_count_pattern(s@, *p),
{
    let mut n: usize = 0;
    let mut i: usize = 0;
    while i < s.len()
        invariant
            i <= s@.len(),
            n == spec_count_pattern(s@.take(i as int), *p),
            n <= i,
        decreases s.len() - i,
    {
        assert(s@.take(i + 1).drop_last() == s@.take(i as int));
        if s[i].analysis_pattern.is(p) {
            n = n + 1;
        }
        i = i + 1;
    }
    assert(s@.take(s@.len() as int) == s@);
    n
}

/// Close-based analysis results over `N` trading days, in strategy-day order.
#[derive(Debug, Clone, PartialEq, Default)]
pub struct AnalysisResults<const N: usize>(pub Vec<AnalysisResult>);

impl<const N: usize> AnalysisResults<N> {
    /// For each close crossover of the strategy, the close on its day and
    /// `N` trading days later (the rate of change between them is what
    /// completes each observation into a result).
    pub fn observations(value: &StocksSmaCosesPair<'_>) -> (r: Vec<CrossoverObservation>)
        ensures
            r@ == spec_observations(value.stocks@, value.sma_coses@, N as int),
    {
        let stocks = value.stocks;
        let coses = value.sma_coses;
        let mut out: Vec<CrossoverObservation> = Vec::new();
        let mut i: usize = 0;
        while i < coses.len()
            invariant
                i <= coses@.len(),
                out@ == spec_observations(stocks@, coses@.take(i as int), N as int),
            decreases coses.len() - i,
        {
            assert(coses@.take(i + 1).drop_last() == coses@.take(i as int));
            let cos = &coses[i];
            if !cos.crossover_pattern_close.0.is(&CrossoverPattern::Neither) {
                match position_of_date(stocks, cos.date) {
                    Some(k) => {
                        if N < stocks.len() - k {
                            out.push(
                                CrossoverObservation {
                                    date_of_event: cos.date,
                                    close: stocks[k].close,
                                    close_after_n_days: stocks[k + N].close,
                                    pattern: cos.crossover_pattern_close.0,
                                },
                            );
                        }
                    },
                    None => {},
                }
            }
            i = i + 1;
        }
        assert(coses@.take(coses@.len() as int) == coses@);
        out
    }

    /// The counts of chances and losses.
    pub fn chance_counts(&self) -> (r: ChanceCounts)
        ensures
            r.golden_chance == spec_count_pattern(self.0@, AnalysisPattern::GoldenChance),
            r.golden_loss == spec_count_pattern(self.0@, AnalysisPattern::GoldenLoss),
            r.dead_chance == spec_count_pattern(self.0@, AnalysisPattern::DeadChance),
            r.dead_loss == spec_count_pattern(self.0@, AnalysisPattern::DeadLoss),
            r.total == self.0@.len(),
    {
        let s = self.0.as_slice();
        ChanceCounts {
            golden_chance: count_pattern(s, &AnalysisPattern::GoldenChance),
            golden_loss: count_pattern(s, &AnalysisPattern::GoldenLoss),
            dead_chance: count_pattern(s, &AnalysisPattern::DeadChance),
            dead_loss: count_pattern(s, &AnalysisPattern::DeadLoss),
            total: s.len(),
        }
    }

    fn find_latest_event(&self, target_pattern: &AnalysisPattern) -> (r: Option<Date>)
        ensures
            r == spec_last_event(self.0@, *target_pattern),
    {
        let s = self.0.as_slice();
        let mut i: usize = s.len();
        assert(s@ == self.0@);
        assert(s@.take(s@.len() as int) == s@);
        while i > 0
            invariant
                i <= s@.len(),
                s@ == self.0@,
                spec_last_event(s@, *target_pattern) == spec_last_event(
                    s@.take(i as int),
                    *target_pattern,
                ),
            decreases i,
        {
            assert(s@.take(i as int).drop_last() == s@.take(i - 1));
            assert(s@.take(i as int).last() == s@[i - 1]);
            if s[i - 1].analysis_pattern.is(target_pattern) {
                assert(s@.take(i as int).len() == i);
                assert(spec_last_event(s@.take(i as int), *target_pattern) == Some(
                    s@[i - 1].date_of_event,
                ));
                return Some(s[i - 1].date_of_event);
            }
            i = i - 1;
        }
        None
    }

    /// The dates of the last golden chance and the last dead chance.
    pub fn latest_chance(&self) -> (r: LatestChance)
        ensures
            r.golden_cross == spec_last_event(self.0@, AnalysisPattern::GoldenChance),
            r.dead_cross == spec_last_event(self.0@, AnalysisPattern::DeadChance),
    {
        let golden_cross = self.find_latest_event(&AnalysisPattern::GoldenChance);
        let dead_cross = self.find_latest_event(&AnalysisPattern::DeadChance);
        LatestChance { golden_cross, dead_cross }
    }

    pub fn len(&self) -> (n: usize)
        ensures
            n == self.0@.len(),
    {
        self.0.len()
    }

    pub fn as_slice(&self) -> (s: &[AnalysisResult])
        ensures
            s@ == self.0@,
    {
        self.0.as_slice()
    }
}

/// The chances and losses counted are among the results counted: their sum
/// never exceeds the number of results.
pub proof fn lemma_chance_counts_bounded(s: Seq<AnalysisResult>)
    ensures
        spec_count_pattern(s, AnalysisPattern::GoldenChance) + spec_count_pattern(
            s,
            AnalysisPattern::GoldenLoss,
        ) + spec_count_pattern(s, AnalysisPattern::DeadChance) + spec_count_pattern(
            s,
            AnalysisPattern::DeadLoss,
        ) <= s.len(),
    decreases s.len(),
{
    if s.len() > 0 {
        lemma_chance_counts_bounded(s.drop_last());
    }
}

} // verus!
