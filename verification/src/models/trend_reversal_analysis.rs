//! Trend reversal: a buy (or sell) when the latest signals of five strategies
//! all say buy (or all say sell).
use crate::date::Date;
use crate::models::buy_sell_signal::{spec_signal_of_crossover, BuySellSignal, BuySellSignalType};
use crate::models::crossover_pattern::CrossoverPattern;
use crate::models::macd_cos::{MacdCos, MacdCoses};
use crate::models::sma_cos::{SmaCos, SmaCoses};
use crate::models::sma_cps::SmaCps;
use vstd::prelude::*;

verus! {

/// The analysis and the latest signal of each strategy it was drawn from.
#[derive(Debug, Copy, Clone, PartialEq, Eq, Hash, PartialOrd, Ord, Default)]
pub struct TrendReversalAnalysis {
    pub signal_type: BuySellSignalType,
    pub sma_cos: Option<(Date, BuySellSignalType)>,
    pub sma_cps: Option<(Date, BuySellSignalType)>,
    pub body_engulfing: Option<(Date, BuySellSignalType)>,
    pub ms_es: Option<(Date, BuySellSignalType)>,
    pub macd_cos: Option<(Date, BuySellSignalType)>,
}

/// A dated signal that is present and of type `target`.
pub open spec fn spec_signal_matches(s: Option<(Date, BuySellSignalType)>, target: BuySellSignalType) -> bool {
    s matches Some(x) && x.1 == target
}

/// All five signals are present and of type `target`.
pub open spec fn spec_all_signals_match(
    s0: Option<(Date, BuySellSignalType)>,
    s1: Option<(Date, BuySellSignalType)>,
    s2: Option<(Date, BuySellSignalType)>,
    s3: Option<(Date, BuySellSignalType)>,
    s4: Option<(Date, BuySellSignalType)>,
    target: BuySellSignalType,
) -> bool {
    spec_signal_matches(s0, target) && spec_signal_matches(s1, target) && spec_signal_matches(
        s2,
        target,
    ) && spec_signal_matches(s3, target) && spec_signal_matches(s4, target)
}

fn signal_matches(s: Option<(Date, BuySellSignalType)>, target: BuySellSignalType) -> (r: bool)
    ensures
        r == spec_signal_matches(s, target),
{
    match s {
        Some(x) => x.1.is(&target),
        None => false,
    }
}

/// Whether all five signals are present and of type `target`.
pub fn all_signals_match(
    signal0: Option<(Date, BuySellSignalType)>,
    signal1: Option<(Date, BuySellSignalType)>,
    signal2: Option<(Date, BuySellSignalType)>,
    signal3: Option<(Date, BuySellSignalType)>,
    signal4: Option<(Date, BuySellSignalType)>,
    target: BuySellSignalType,
) -> (r: bool)
    ensures
        r == spec_all_signals_match(signal0, signal1, signal2, signal3, signal4, target),
{
    signal_matches(signal0, target) && signal_matches(signal1, target) && signal_matches(
        signal2,
        target,
    ) && signal_matches(signal3, target) && signal_matches(signal4, target)
}

/// Keeps the later of the best candidate so far and a new one; on equal dates
/// the new one wins (as a maximum taken over the sequence in order does).
pub open spec fn spec_later(
    best: Option<(Date, BuySellSignalType)>,
    candidate: Option<(Date, BuySellSignalType)>,
) -> Option<(Date, BuySellSignalType)> {
    match candidate {
        None => best,
        Some(x) => match best {
            None => Some(x),
            Some(y) => if y.0.days > x.0.days {
                Some(y)
            } else {
                Some(x)
            },
        },
    }
}

/// The latest candidate of a sequence: the last one among those of the
/// greatest date.
pub open spec fn spec_latest(c: Seq<Option<(Date, BuySellSignalType)>>) -> Option<(Date, BuySellSignalType)>
    decreases c.len(),
{
    if c.len() == 0 {
        None
    } else {
        spec_later(spec_latest(c.drop_last()), c.last())
    }
}

fn later(best: Option<(Date, BuySellSignalType)>, candidate: Option<(Date, BuySellSignalType)>) -> (r:
    Option<(Date, BuySellSignalType)>)
    ensures
        r == spec_later(best, candidate),
{
    match candidate {
        None => best,
        Some(x) => match best {
            None => Some(x),
            Some(y) => if x.0.is_before(&y.0) {
                Some(y)
            } else {
                Some(x)
            },
        },
    }
}

/// The candidate of a pattern signal: buys and sells count, stays do not.
pub open spec fn spec_signal_candidate(s: BuySellSignal) -> Option<(Date, BuySellSignalType)> {
    match s.signal_type {
        BuySellSignalType::Buy | BuySellSignalType::Sell => Some((s.date, s.signal_type)),
        BuySellSignalType::Stay => None,
    }
}

/// The latest buy or sell among pattern signals.
pub open spec fn spec_latest_buy_or_sell(signals: Seq<BuySellSignal>) -> Option<(Date, BuySellSignalType)> {
    spec_latest(signals.map_values(|s: BuySellSignal| spec_signal_candidate(s)))
}

/// The latest buy or sell signal, with its date.
pub fn latest_buy_or_sell_signal_type(buy_sell_signal: &[BuySellSignal]) -> (r: Option<
    (Date, BuySellSignalType),
>)
    ensures
        r == spec_latest_buy_or_sell(buy_sell_signal@),
{
    let ghost c = buy_sell_signal@.map_values(|s: BuySellSignal| spec_signal_candidate(s));
    let mut best: Option<(Date, BuySellSignalType)> = None;
    let mut i: usize = 0;
    while i < buy_sell_signal.len()
        invariant
            i <= buy_sell_signal@.len(),
            c == buy_sell_signal@.map_values(|s: BuySellSignal| spec_signal_candidate(s)),
            best == spec_latest(c.take(i as int)),
        decreases buy_sell_signal.len() - i,
    {
        assert(c.take(i + 1).drop_last() == c.take(i as int));
        let s = buy_sell_signal[i];
        let candidate = match s.signal_type {
            BuySellSignalType::Buy => Some((s.date, s.signal_type)),
            BuySellSignalType::Sell => Some((s.date, s.signal_type)),
            BuySellSignalType::Stay => None,
        };
        best = later(best, candidate);
        i = i + 1;
    }
    assert(c.take(buy_sell_signal@.len() as int) == c);
    best
}

/// The buy or sell of the more recent of the two dates; a buy wins a tie.
pub open spec fn spec_latest_signal_from_buy_sell_dates(
    buy_date: Option<Date>,
    sell_date: Option<Date>,
) -> Option<(Date, BuySellSignalType)> {
    match (buy_date, sell_date) {
        (Some(b), Some(s)) => if b.days >= s.days {
            Some((b, BuySellSignalType::Buy))
        } else {
            Some((s, BuySellSignalType::Sell))
        },
        (Some(b), None) => Some((b, BuySellSignalType::Buy)),
        (None, Some(s)) => Some((s, BuySellSignalType::Sell)),
        (None, None) => None,
    }
}

/// The more recent of a latest buy date and a latest sell date, as a signal.
pub fn latest_signal_from_buy_sell_dates(buy_date: Option<Date>, sell_date: Option<Date>) -> (r:
    Option<(Date, BuySellSignalType)>)
    ensures
        r == spec_latest_signal_from_buy_sell_dates(buy_date, sell_date),
{
    match (buy_date, sell_date) {
        (Some(b), Some(s)) => {
            if s.is_on_or_before(&b) {
                Some((b, BuySellSignalType::Buy))
            } else {
                Some((s, BuySellSignalType::Sell))
            }
        },
        (Some(b), None) => Some((b, BuySellSignalType::Buy)),
        (None, Some(s)) => Some((s, BuySellSignalType::Sell)),
        (None, None) => None,
    }
}

/// A golden cross is a dated buy, a dead cross a dated sell, no cross nothing.
pub open spec fn spec_crossover_candidate(date: Date, p: CrossoverPattern) -> Option<(Date, BuySellSignalType)> {
    match p {
        CrossoverPattern::GoldenCross | CrossoverPattern::DeadCross => Some(
            (date, spec_signal_of_crossover(p)),
        ),
        CrossoverPattern::Neither => None,
    }
}

/// The signal of a crossover on `date`, if there was a crossover.
pub fn crossover_pattern_to_buy_sell_signal(date: Date, crossover_pattern: CrossoverPattern) -> (r:
    Option<(Date, BuySellSignalType)>)
    ensures
        r == spec_crossover_candidate(date, crossover_pattern),
{
    match crossover_pattern {
        CrossoverPattern::GoldenCross => Some((date, BuySellSignalType::from(crossover_pattern))),
        CrossoverPattern::DeadCross => Some((date, BuySellSignalType::from(crossover_pattern))),
        CrossoverPattern::Neither => None,
    }
}

/// The latest close crossover of the simple moving averages, as a signal.
pub open spec fn spec_latest_sma_cos(coses: Seq<SmaCos>) -> Option<(Date, BuySellSignalType)> {
    spec_latest(
        coses.map_values(|c: SmaCos| spec_crossover_candidate(c.date, c.crossover_pattern_close.0)),
    )
}

/// The latest MACD crossover, as a signal.
pub open spec fn spec_latest_macd_cos(coses: Seq<MacdCos>) -> Option<(Date, BuySellSignalType)> {
    spec_latest(coses.map_values(|c: MacdCos| spec_crossover_candidate(c.date, c.crossover_pattern)))
}

fn latest_sma_cos(coses: &[SmaCos]) -> (r: Option<(Date, BuySellSignalType)>)
    ensures
        r == spec_latest_sma_cos(coses@),
{
    let ghost c = coses@.map_values(
        |c: SmaCos| spec_crossover_candidate(c.date, c.crossover_pattern_close.0),
    );
    let mut best: Option<(Date, BuySellSignalType)> = None;
    let mut i: usize = 0;
    while i < coses.len()
        invariant
            i <= coses@.len(),
            c == coses@.map_values(
                |c: SmaCos| spec_crossover_candidate(c.date, c.crossover_pattern_close.0),
            ),
            best == spec_latest(c.take(i as int)),
        decreases coses.len() - i,
    {
        assert(c.take(i + 1).drop_last() == c.take(i as int));
        let candidate = crossover_pattern_to_buy_sell_signal(
            coses[i].date,
            coses[i].crossover_pattern_close.0,
        );
        best = later(best, candidate);
        i = i + 1;
    }
    assert(c.take(coses@.len() as int) == c);
    best
}

fn latest_macd_cos(coses: &[MacdCos]) -> (r: Option<(Date, BuySellSignalType)>)
    ensures
        r == spec_latest_macd_cos(coses@),
{
    let ghost c = coses@.map_values(
        |c: MacdCos| spec_crossover_candidate(c.date, c.crossover_pattern),
    );
    let mut best: Option<(Date, BuySellSignalType)> = None;
    let mut i: usize = 0;
    while i < coses.len()
        invariant
            i <= coses@.len(),
            c == coses@.map_values(|c: MacdCos| spec_crossover_candidate(c.date, c.crossover_pattern)),
            best == spec_latest(c.take(i as int)),
        decreases coses.len() - i,
    {
        assert(c.take(i + 1).drop_last() == c.take(i as int));
        let candidate = crossover_pattern_to_buy_sell_signal(coses[i].date, coses[i].crossover_pattern);
        best = later(best, candidate);
        i = i + 1;
    }
    assert(c.take(coses@.len() as int) == c);
    best
}

/// The signals of the five strategies.
pub struct TrendReversalAnalysisSet<'a> {
    pub body_engulfings: &'a [BuySellSignal],
    pub ms_eses: &'a [BuySellSignal],
    pub sma_cps: &'a SmaCps,
    pub sma_coses: &'a SmaCoses,
    pub macd_coses: &'a MacdCoses,
}

/// Buy when every latest signal says buy, sell when every one says sell,
/// stay otherwise.
pub open spec fn spec_trend_type(
    sma_cos: Option<(Date, BuySellSignalType)>,
    macd_cos: Option<(Date, BuySellSignalType)>,
    sma_cps: Option<(Date, BuySellSignalType)>,
    body_engulfing: Option<(Date, BuySellSignalType)>,
    ms_es: Option<(Date, BuySellSignalType)>,
) -> BuySellSignalType {
    if spec_all_signals_match(
        sma_cos,
        macd_cos,
        sma_cps,
        body_engulfing,
        ms_es,
        BuySellSignalType::Buy,
    ) {
        BuySellSignalType::Buy
    } else if spec_all_signals_match(
        sma_cos,
        macd_cos,
        sma_cps,
        body_engulfing,
        ms_es,
        BuySellSignalType::Sell,
    ) {
        BuySellSignalType::Sell
    } else {
        BuySellSignalType::Stay
    }
}

/// The analysis of a set of strategy signals.
pub open spec fn spec_trend_reversal_analysis(
    sma_coses: Seq<SmaCos>,
    macd_coses: Seq<MacdCos>,
    sma_cps: SmaCps,
    body_engulfings: Seq<BuySellSignal>,
    ms_eses: Seq<BuySellSignal>,
) -> TrendReversalAnalysis {
    let sma_cos = spec_latest_sma_cos(sma_coses);
    let macd_cos = spec_latest_macd_cos(macd_coses);
    let cps = spec_latest_signal_from_buy_sell_dates(sma_cps.buy, sma_cps.sell);
    let body_engulfing = spec_latest_buy_or_sell(body_engulfings);
    let ms_es = spec_latest_buy_or_sell(ms_eses);
    TrendReversalAnalysis {
        signal_type: spec_trend_type(sma_cos, macd_cos, cps, body_engulfing, ms_es),
        sma_cos,
        sma_cps: cps,
        body_engulfing,
        ms_es,
        macd_cos,
    }
}

impl TrendReversalAnalysis {
    /// Takes the latest signal of each strategy and reads the trend from them.
    pub fn from(value: TrendReversalAnalysisSet<'_>) -> (r: TrendReversalAnalysis)
        ensures
            r == spec_trend_reversal_analysis(
                value.sma_coses.0@,
                value.macd_coses.0@,
                *value.sma_cps,
                value.body_engulfings@,
                value.ms_eses@,
            ),
    {
        let sma_cos = latest_sma_cos(value.sma_coses.0.as_slice());
        let macd_cos = latest_macd_cos(value.macd_coses.0.as_slice());
        let sma_cps = latest_signal_from_buy_sell_dates(value.sma_cps.buy, value.sma_cps.sell);
        let body_engulfing = latest_buy_or_sell_signal_type(value.body_engulfings);
        let ms_es = latest_buy_or_sell_signal_type(value.ms_eses);
        let signal_type = if all_signals_match(
            sma_cos,
            macd_cos,
            sma_cps,
            body_engulfing,
            ms_es,
            BuySellSignalType::Buy,
        ) {
            BuySellSignalType::Buy
        } else if all_signals_match(
            sma_cos,
            macd_cos,
            sma_cps,
            body_engulfing,
            ms_es,
            BuySellSignalType::Sell,
        ) {
            BuySellSignalType::Sell
        } else {
            BuySellSignalType::Stay
        };
        TrendReversalAnalysis { signal_type, sma_cps, sma_cos, body_engulfing, ms_es, macd_cos }
    }
}

/// The analysis says buy exactly when all five latest signals are buys, sell
/// exactly when all five are sells, and stay otherwise.
pub proof fn lemma_trend_type_unanimous(a: TrendReversalAnalysis)
    requires
        a.signal_type == spec_trend_type(a.sma_cos, a.macd_cos, a.sma_cps, a.body_engulfing, a.ms_es),
    ensures
        a.signal_type == BuySellSignalType::Buy <==> spec_all_signals_match(
            a.sma_cos,
            a.macd_cos,
            a.sma_cps,
            a.body_engulfing,
            a.ms_es,
            BuySellSignalType::Buy,
        ),
        a.signal_type == BuySellSignalType::Sell <==> spec_all_signals_match(
            a.sma_cos,
            a.macd_cos,
            a.sma_cps,
            a.body_engulfing,
            a.ms_es,
            BuySellSignalType::Sell,
        ),
        a.signal_type == BuySellSignalType::Stay <==> !spec_all_signals_match(
            a.sma_cos,
            a.macd_cos,
            a.sma_cps,
            a.body_engulfing,
            a.ms_es,
            BuySellSignalType::Buy,
        ) && !spec_all_signals_match(
            a.sma_cos,
            a.macd_cos,
            a.sma_cps,
            a.body_engulfing,
            a.ms_es,
            BuySellSignalType::Sell,
        ),
{
}

/// The latest candidate is one of the candidates, no candidate is later, and
/// none follows it on the same date; there is none only without candidates.
pub proof fn lemma_latest_is_last_greatest(c: Seq<Option<(Date, BuySellSignalType)>>)
    ensures
        spec_latest(c) is None <==> forall|i: int| 0 <= i < c.len() ==> c[i] is None,
        spec_latest(c) matches Some(x) ==> exists|i: int|
            0 <= i < c.len() && c[i] == Some(x) && forall|j: int|
                i < j < c.len() && (#[trigger] c[j]) is Some ==> (c[j]->0).0.days < x.0.days,
        spec_latest(c) matches Some(x) ==> forall|j: int|
            0 <= j < c.len() && (#[trigger] c[j]) is Some ==> (c[j]->0).0.days <= x.0.days,
    decreases c.len(),
{
    if c.len() > 0 {
        let d = c.drop_last();
        lemma_latest_is_last_greatest(d);
        let n = c.len() - 1;
        assert forall|j: int| 0 <= j < n implies #[trigger] c[j] == d[j] by {}
        match spec_latest(d) {
            Some(y) => {
                let i = choose|i: int|
                    0 <= i < d.len() && d[i] == Some(y) && forall|j: int|
                        i < j < d.len() && (#[trigger] d[j]) is Some ==> (d[j]->0).0.days < y.0.days;
                match c.last() {
                    Some(x) => {
                        if y.0.days > x.0.days {
                            assert(c[i] == Some(y));
                        } else {
                            assert(c[n] == Some(x));
                        }
                    },
                    None => {
                        assert(c[i] == Some(y));
                    },
                }
            },
            None => {
                match c.last() {
                    Some(x) => {
                        assert(c[n] == Some(x));
                    },
                    None => {},
                }
            },
        }
    }
}

/// The five-signal check holds exactly when every one of the five signals is
/// present and of type `target`; none of them is left out.
pub proof fn lemma_all_signals_match_checks_each(
    signal0: Option<(Date, BuySellSignalType)>,
    signal1: Option<(Date, BuySellSignalType)>,
    signal2: Option<(Date, BuySellSignalType)>,
    signal3: Option<(Date, BuySellSignalType)>,
    signal4: Option<(Date, BuySellSignalType)>,
    target: BuySellSignalType,
)
    ensures
        spec_all_signals_match(signal0, signal1, signal2, signal3, signal4, target) <==> {
            &&& signal0 is Some && (signal0->0).1 == target
            &&& signal1 is Some && (signal1->0).1 == target
            &&& signal2 is Some && (signal2->0).1 == target
            &&& signal3 is Some && (signal3->0).1 == target
            &&& signal4 is Some && (signal4->0).1 == target
        },
        signal2 is None ==> !spec_all_signals_match(signal0, signal1, signal2, signal3, signal4, target),
        (signal2 is Some && (signal2->0).1 != target) ==> !spec_all_signals_match(
            signal0,
            signal1,
            signal2,
            signal3,
            signal4,
            target,
        ),
{
}

/// The trend is a unanimous vote of the five latest signals: buy exactly when
/// all five are present buys, sell exactly when all five are present sells,
/// stay otherwise. In particular a single dissenting or missing signal, the
/// comparison-strategy one included, rules buy and sell out.
pub proof fn lemma_trend_is_unanimous_vote(
    sma_cos: Option<(Date, BuySellSignalType)>,
    macd_cos: Option<(Date, BuySellSignalType)>,
    sma_cps: Option<(Date, BuySellSignalType)>,
    body_engulfing: Option<(Date, BuySellSignalType)>,
    ms_es: Option<(Date, BuySellSignalType)>,
)
    ensures
        spec_trend_type(sma_cos, macd_cos, sma_cps, body_engulfing, ms_es)
            == BuySellSignalType::Buy <==> {
            &&& sma_cos is Some && (sma_cos->0).1 == BuySellSignalType::Buy
            &&& macd_cos is Some && (macd_cos->0).1 == BuySellSignalType::Buy
            &&& sma_cps is Some && (sma_cps->0).1 == BuySellSignalType::Buy
            &&& body_engulfing is Some && (body_engulfing->0).1 == BuySellSignalType::Buy
            &&& ms_es is Some && (ms_es->0).1 == BuySellSignalType::Buy
        },
        spec_trend_type(sma_cos, macd_cos, sma_cps, body_engulfing, ms_es)
            == BuySellSignalType::Sell <==> {
            &&& sma_cos is Some && (sma_cos->0).1 == BuySellSignalType::Sell
            &&& macd_cos is Some && (macd_cos->0).1 == BuySellSignalType::Sell
            &&& sma_cps is Some && (sma_cps->0).1 == BuySellSignalType::Sell
            &&& body_engulfing is Some && (body_engulfing->0).1 == BuySellSignalType::Sell
            &&& ms_es is Some && (ms_es->0).1 == BuySellSignalType::Sell
        },
        (sma_cps is Some && (sma_cps->0).1 == BuySellSignalType::Sell) ==> spec_trend_type(
            sma_cos,
            macd_cos,
            sma_cps,
            body_engulfing,
            ms_es,
        ) != BuySellSignalType::Buy,
        (sma_cps is Some && (sma_cps->0).1 == BuySellSignalType::Buy) ==> spec_trend_type(
            sma_cos,
            macd_cos,
            sma_cps,
            body_engulfing,
            ms_es,
        ) != BuySellSignalType::Sell,
{
}

/// The analysis of a set of strategy signals votes on the very signals it
/// reports: buy only when its five reported signals are all buys, sell only
/// when all are sells.
pub proof fn lemma_analysis_votes_on_reported_signals(
    sma_coses: Seq<SmaCos>,
    macd_coses: Seq<MacdCos>,
    sma_cps: SmaCps,
    body_engulfings: Seq<BuySellSignal>,
    ms_eses: Seq<BuySellSignal>,
)
    ensures
        ({
            let r = spec_trend_reversal_analysis(sma_coses, macd_coses, sma_cps, body_engulfings, ms_eses);
            &&& r.signal_type == BuySellSignalType::Buy <==> {
                &&& r.sma_cos is Some && (r.sma_cos->0).1 == BuySellSignalType::Buy
                &&& r.macd_cos is Some && (r.macd_cos->0).1 == BuySellSignalType::Buy
                &&& r.sma_cps is Some && (r.sma_cps->0).1 == BuySellSignalType::Buy
                &&& r.body_engulfing is Some && (r.body_engulfing->0).1 == BuySellSignalType::Buy
                &&& r.ms_es is Some && (r.ms_es->0).1 == BuySellSignalType::Buy
            }
            &&& r.signal_type == BuySellSignalType::Sell <==> {
                &&& r.sma_cos is Some && (r.sma_cos->0).1 == BuySellSignalType::Sell
                &&& r.macd_cos is Some && (r.macd_cos->0).1 == BuySellSignalType::Sell
                &&& r.sma_cps is Some && (r.sma_cps->0).1 == BuySellSignalType::Sell
                &&& r.body_engulfing is Some && (r.body_engulfing->0).1 == BuySellSignalType::Sell
                &&& r.ms_es is Some && (r.ms_es->0).1 == BuySellSignalType::Sell
            }
        }),
        sma_cps.sell is Some && (sma_cps.buy is None || sma_cps.buy->0.days < sma_cps.sell->0.days)
            ==> spec_trend_reversal_analysis(
            sma_coses,
            macd_coses,
            sma_cps,
            body_engulfings,
            ms_eses,
        ).signal_type != BuySellSignalType::Buy,
{
    let r = spec_trend_reversal_analysis(sma_coses, macd_coses, sma_cps, body_engulfings, ms_eses);
    lemma_trend_is_unanimous_vote(r.sma_cos, r.macd_cos, r.sma_cps, r.body_engulfing, r.ms_es);
}

} // verus!
