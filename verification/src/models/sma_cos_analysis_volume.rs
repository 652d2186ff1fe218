//! Volume-based analysis of the crossover strategy: the volume traded on the
//! day of each volume crossover.
use crate::date::Date;
use crate::models::crossover_pattern::CrossoverPattern;
use crate::models::sma_cos::SmaCos;
use crate::models::stock::Stock;
use crate::models::stocks_sma_coses_pair::StocksSmaCosesPair;
use crate::search::{position_of_date, spec_first_with_date};
use vstd::prelude::*;

verus! {

/// A volume crossover and the volume of its day.
#[derive(Debug, Copy, Clone, PartialEq, Eq, Structural, Hash, Default)]
pub struct AnalysisResult {
    pub date_of_event: Date,
    pub volume: u64,
    pub pattern: CrossoverPattern,
}

/// The result of a strategy day: none without a volume crossover or without
/// a trading day of its date (the first such day gives the volume).
pub open spec fn spec_volume_result(stocks: Seq<Stock>, cos: SmaCos) -> Option<AnalysisResult> {
    if cos.crossover_pattern_volume.0 == CrossoverPattern::Neither {
        None
    } else {
        match spec_first_with_date(stocks, cos.date) {
            Some(i) => Some(
                AnalysisResult {
                    date_of_event: stocks[i].date,
                    volume: stocks[i].volume,
                    pattern: cos.crossover_pattern_volume.0,
                },
            ),
            None => None,
        }
    }
}

/// The results of all strategy days, in order.
pub open spec fn spec_volume_results(stocks: Seq<Stock>, coses: Seq<SmaCos>) -> Seq<AnalysisResult>
    decreases coses.len(),
{
    if coses.len() == 0 {
        Seq::empty()
    } else {
        let rest = spec_volume_results(stocks, coses.drop_last());
        match spec_volume_result(stocks, coses.last()) {
            Some(r) => rest.push(r),
            None => rest,
        }
    }
}

/// Volume-based results, in strategy-day order.
#[derive(Debug, Clone, PartialEq, Eq, Default)]
pub struct AnalysisResults(pub Vec<AnalysisResult>);

impl AnalysisResults {
    /// The volume of the day of every volume crossover.
    pub fn from(value: &StocksSmaCosesPair<'_>) -> (r: AnalysisResults)
        ensures
            r.0@ == spec_volume_results(value.stocks@, value.sma_coses@),
    {
        let stocks = value.stocks;
        let coses = value.sma_coses;
        let mut out: Vec<AnalysisResult> = Vec::new();
        let mut i: usize = 0;
        while i < coses.len()
            invariant
                i <= coses@.len(),
                out@ == spec_volume_results(stocks@, coses@.take(i as int)),
            decreases coses.len() - i,
        {
            assert(coses@.take(i + 1).drop_last() == coses@.take(i as int));
            let cos = &coses[i];
            if !cos.crossover_pattern_volume.0.is(&CrossoverPattern::Neither) {
                match position_of_date(stocks, cos.date) {
                    Some(k) => {
                        out.push(
                            AnalysisResult {
                                date_of_event: stocks[k].date,
                                volume: stocks[k].volume,
                                pattern: cos.crossover_pattern_volume.0,
                            },
                        );
                    },
                    None => {},
                }
            }
            i = i + 1;
        }
        assert(coses@.take(coses@.len() as int) == coses@);
        AnalysisResults(out)
    }

    pub fn len(&self) -> (n: usize)
        ensures
            n == self.0@.len(),
    {
        self.0.len()
    }
}

} // verus!
