//! Volume-based analysis of the moving average crossover strategy.
use crate::date::Date;
use crate::models::macos::{Pattern, MACOS};
use crate::models::stock::Stock;
use crate::models::stocks_macoses_pair::StocksMACOSESPair;
use crate::search::{position_of_date, spec_first_with_date};
use vstd::prelude::*;

verus! {

/// A volume crossover and the volume of its day.
#[derive(Debug, Copy, Clone, PartialEq, Eq, Structural, Hash, Default)]
pub struct MACOSAnalysisVolume {
    pub date_of_event: Date,
    pub volume: u64,
    pub pattern: Pattern,
}

/// The result of a strategy day: none without a volume crossover or without
/// a trading day of its date.
pub open spec fn spec_macos_volume_result(stocks: Seq<Stock>, m: MACOS) -> Option<MACOSAnalysisVolume> {
    if m.pattern_close_volume.volume == Pattern::Neither {
        None
    } else {
        match spec_first_with_date(stocks, m.date) {
            Some(i) => Some(
                MACOSAnalysisVolume {
                    date_of_event: stocks[i].date,
                    volume: stocks[i].volume,
                    pattern: m.pattern_close_volume.volume,
                },
            ),
            None => None,
        }
    }
}

/// The results of all strategy days, in order.
pub open spec fn spec_macos_volume_results(stocks: Seq<Stock>, ms: Seq<MACOS>) -> Seq<
    MACOSAnalysisVolume,
>
    decreases ms.len(),
{
    if ms.len() == 0 {
        Seq::empty()
    } else {
        let rest = spec_macos_volume_results(stocks, ms.drop_last());
        match spec_macos_volume_result(stocks, ms.last()) {
            Some(r) => rest.push(r),
            None => rest,
        }
    }
}

/// Volume-based results, in strategy-day order.
#[derive(Debug, Clone, PartialEq, Eq, Default)]
pub struct MACOSAnalysisVolumes(pub Vec<MACOSAnalysisVolume>);

impl MACOSAnalysisVolumes {
    /// The volume of the day of every volume crossover.
    pub fn from(value: &StocksMACOSESPair<'_>) -> (r: MACOSAnalysisVolumes)
        ensures
            r.0@ == spec_macos_volume_results(value.stocks@, value.macoses@),
    {
        let stocks = value.stocks;
        let ms = value.macoses;
        let mut out: Vec<MACOSAnalysisVolume> = Vec::new();
        let mut i: usize = 0;
        while i < ms.len()
            invariant
                i <= ms@.len(),
                out@ == spec_macos_volume_results(stocks@, ms@.take(i as int)),
            decreases ms.len() - i,
        {
            assert(ms@.take(i + 1).drop_last() == ms@.take(i as int));
            let m = &ms[i];
            if !m.pattern_close_volume.volume.is(&Pattern::Neither) {
                match position_of_date(stocks, m.date) {
                    Some(k) => {
                        out.push(
                            MACOSAnalysisVolume {
                                date_of_event: stocks[k].date,
                                volume: stocks[k].volume,
                                pattern: m.pattern_close_volume.volume,
                            },
                        );
                    },
                    None => {},
                }
            }
            i = i + 1;
        }
        assert(ms@.take(ms@.len() as int) == ms@);
        MACOSAnalysisVolumes(out)
    }

    pub fn len(&self) -> (n: usize)
        ensures
            n == self.0@.len(),
    {
        self.0.len()
    }
}

} // verus!
