//! Simple moving average comparison strategy: the close below the 5-day
//! average, below the 25-day, below the 50-day says buy; the reverse order
//! says sell.
use crate::date::Date;
use crate::price::Comparison;
use crate::models::buy_sell_signal::{spec_trend_signal_type, BuySellSignal, BuySellSignalType};
use crate::models::sma::{SMAListTrio, SMA};
use crate::models::stock::Stock;
use crate::search::{
    HasDate, is_first_with_date, lemma_first_with_date, lemma_first_with_date_found,
    is_latest_matching, lemma_latest_matching_step, position_of_date, spec_first_with_date,
};
use vstd::prelude::*;

verus! {

/// The latest buy and sell dates of the strategy.
#[derive(Debug, Copy, Clone, PartialEq, Eq, Structural, Hash, PartialOrd, Ord, Default)]
pub struct SmaCps {
    pub buy: Option<Date>,
    pub sell: Option<Date>,
}

/// The comparison signal of a trading day against the averages of the same
/// day (the first of each list); stay when an average is missing.
pub open spec fn spec_comparison_signal<const N: usize, const O: usize, const P: usize>(
    stock: Stock,
    smas_n: Seq<SMA<N>>,
    smas_o: Seq<SMA<O>>,
    smas_p: Seq<SMA<P>>,
) -> BuySellSignal {
    let d = stock.date;
    let t = match (
        spec_first_with_date(smas_n, d),
        spec_first_with_date(smas_o, d),
        spec_first_with_date(smas_p, d),
    ) {
        (Some(a), Some(b), Some(c)) => spec_trend_signal_type(
            stock.close.spec_partial_compare(smas_n[a].close),
            smas_n[a].close.spec_partial_compare(smas_o[b].close),
            smas_o[b].close.spec_partial_compare(smas_p[c].close),
        ),
        _ => BuySellSignalType::Stay,
    };
    BuySellSignal { signal_type: t, date: d }
}

/// The comparison signal of every trading day.
pub open spec fn spec_comparison_signals<const N: usize, const O: usize, const P: usize>(
    stocks: Seq<Stock>,
    smas_n: Seq<SMA<N>>,
    smas_o: Seq<SMA<O>>,
    smas_p: Seq<SMA<P>>,
) -> Seq<BuySellSignal> {
    Seq::new(stocks.len(), |i: int| spec_comparison_signal(stocks[i], smas_n, smas_o, smas_p))
}

/// A signal of type `t`.
pub open spec fn signal_is(t: BuySellSignalType) -> spec_fn(BuySellSignal) -> bool {
    |s: BuySellSignal| s.signal_type == t
}

fn comparison_signal<const N: usize, const O: usize, const P: usize>(
    stock: &Stock,
    smas_n: &[SMA<N>],
    smas_o: &[SMA<O>],
    smas_p: &[SMA<P>],
) -> (r: BuySellSignal)
    ensures
        r == spec_comparison_signal(*stock, smas_n@, smas_o@, smas_p@),
{
    let d = stock.date;
    let t = match (
        position_of_date(smas_n, d),
        position_of_date(smas_o, d),
        position_of_date(smas_p, d),
    ) {
        (Some(a), Some(b), Some(c)) => BuySellSignalType::from(
            (
                stock.close.partial_compare(&smas_n[a].close),
                smas_n[a].close.partial_compare(&smas_o[b].close),
                smas_o[b].close.partial_compare(&smas_p[c].close),
            ),
        ),
        _ => BuySellSignalType::Stay,
    };
    BuySellSignal { signal_type: t, date: d }
}

/// The latest buy and latest sell dates over all trading days.
pub fn latest_comparison_signals<const N: usize, const O: usize, const P: usize>(
    stocks: &[Stock],
    smas_n: &[SMA<N>],
    smas_o: &[SMA<O>],
    smas_p: &[SMA<P>],
) -> (r: (Option<Date>, Option<Date>))
    ensures
        is_latest_matching(
            spec_comparison_signals(stocks@, smas_n@, smas_o@, smas_p@),
            signal_is(BuySellSignalType::Buy),
            r.0,
        ),
        is_latest_matching(
            spec_comparison_signals(stocks@, smas_n@, smas_o@, smas_p@),
            signal_is(BuySellSignalType::Sell),
            r.1,
        ),
{
    let ghost signals = spec_comparison_signals(stocks@, smas_n@, smas_o@, smas_p@);
    let mut buy: Option<Date> = None;
    let mut sell: Option<Date> = None;
    let mut i: usize = 0;
    assert(signals.take(0) =~= Seq::<BuySellSignal>::empty());
    while i < stocks.len()
        invariant
            i <= stocks@.len(),
            signals == spec_comparison_signals(stocks@, smas_n@, smas_o@, smas_p@),
            is_latest_matching(signals.take(i as int), signal_is(BuySellSignalType::Buy), buy),
            is_latest_matching(signals.take(i as int), signal_is(BuySellSignalType::Sell), sell),
        decreases stocks.len() - i,
    {
        proof {
            lemma_latest_matching_step(signals, signal_is(BuySellSignalType::Buy), i as int, buy);
            lemma_latest_matching_step(signals, signal_is(BuySellSignalType::Sell), i as int, sell);
        }
        let signal = comparison_signal(&stocks[i], smas_n, smas_o, smas_p);
        assert(signal == signals[i as int]);
        match signal.signal_type {
            BuySellSignalType::Buy => {
                buy = match buy {
                    Some(d) => if d.is_on_or_before(&signal.date) {
                        Some(signal.date)
                    } else {
                        Some(d)
                    },
                    None => Some(signal.date),
                };
            },
            BuySellSignalType::Sell => {
                sell = match sell {
                    Some(d) => if d.is_on_or_before(&signal.date) {
                        Some(signal.date)
                    } else {
                        Some(d)
                    },
                    None => Some(signal.date),
                };
            },
            BuySellSignalType::Stay => {},
        }
        i = i + 1;
    }
    assert(signals.take(stocks@.len() as int) == signals);
    (buy, sell)
}

impl SmaCps {
    /// The latest day on which close < 5-day < 25-day < 50-day average
    /// (buy), and the latest on which close > 5-day > 25-day > 50-day (sell).
    pub fn from(value: (&[Stock], SMAListTrio<'_, 5, 25, 50>)) -> (r: SmaCps)
        ensures
            is_latest_matching(
                spec_comparison_signals(value.0@, value.1.smas_n@, value.1.smas_o@, value.1.smas_p@),
                signal_is(BuySellSignalType::Buy),
                r.buy,
            ),
            is_latest_matching(
                spec_comparison_signals(value.0@, value.1.smas_n@, value.1.smas_o@, value.1.smas_p@),
                signal_is(BuySellSignalType::Sell),
                r.sell,
            ),
    {
        let (stocks, trio) = value;
        let (buy, sell) = latest_comparison_signals(stocks, trio.smas_n, trio.smas_o, trio.smas_p);
        SmaCps { buy, sell }
    }
}

/// The trading day's close and the averages of its date (the first of each
/// list) are strictly ordered by `c`: close to 5-day, 5-day to 25-day and
/// 25-day to 50-day average all compare as `c`.
pub open spec fn averages_stacked<const N: usize, const O: usize, const P: usize>(
    stock: Stock,
    smas_n: Seq<SMA<N>>,
    smas_o: Seq<SMA<O>>,
    smas_p: Seq<SMA<P>>,
    c: Comparison,
) -> bool {
    exists|a: int, b: int, k: int|
        #![trigger is_first_with_date(smas_n, stock.date, a), is_first_with_date(smas_o, stock.date, b), is_first_with_date(smas_p, stock.date, k)]
        {
            &&& is_first_with_date(smas_n, stock.date, a)
            &&& is_first_with_date(smas_o, stock.date, b)
            &&& is_first_with_date(smas_p, stock.date, k)
            &&& stock.close.spec_partial_compare(smas_n[a].close) == Some(c)
            &&& smas_n[a].close.spec_partial_compare(smas_o[b].close) == Some(c)
            &&& smas_o[b].close.spec_partial_compare(smas_p[k].close) == Some(c)
        }
}

/// A trading day is a buy exactly when its close is below its 5-day average,
/// that below the 25-day and that below the 50-day; a sell exactly when each
/// is above the next; the signal is dated that day.
pub proof fn lemma_comparison_signal_is_stacking<const N: usize, const O: usize, const P: usize>(
    stock: Stock,
    smas_n: Seq<SMA<N>>,
    smas_o: Seq<SMA<O>>,
    smas_p: Seq<SMA<P>>,
)
    ensures
        spec_comparison_signal(stock, smas_n, smas_o, smas_p).date == stock.date,
        spec_comparison_signal(stock, smas_n, smas_o, smas_p).signal_type == BuySellSignalType::Buy
            <==> averages_stacked(stock, smas_n, smas_o, smas_p, Comparison::Less),
        spec_comparison_signal(stock, smas_n, smas_o, smas_p).signal_type
            == BuySellSignalType::Sell <==> averages_stacked(
            stock,
            smas_n,
            smas_o,
            smas_p,
            Comparison::Greater,
        ),
{
    let d = stock.date;
    lemma_first_with_date_found(smas_n, d);
    lemma_first_with_date_found(smas_o, d);
    lemma_first_with_date_found(smas_p, d);
    assert forall|c: Comparison| averages_stacked(stock, smas_n, smas_o, smas_p, c) implies {
        &&& spec_first_with_date(smas_n, d) is Some
        &&& spec_first_with_date(smas_o, d) is Some
        &&& spec_first_with_date(smas_p, d) is Some
        &&& stock.close.spec_partial_compare(smas_n[spec_first_with_date(smas_n, d)->0].close)
            == Some(c)
        &&& smas_n[spec_first_with_date(smas_n, d)->0].close.spec_partial_compare(
            smas_o[spec_first_with_date(smas_o, d)->0].close,
        ) == Some(c)
        &&& smas_o[spec_first_with_date(smas_o, d)->0].close.spec_partial_compare(
            smas_p[spec_first_with_date(smas_p, d)->0].close,
        ) == Some(c)
    } by {
        let (a, b, k) = choose|a: int, b: int, k: int|
            #![trigger is_first_with_date(smas_n, stock.date, a), is_first_with_date(smas_o, stock.date, b), is_first_with_date(smas_p, stock.date, k)]
            {
                &&& is_first_with_date(smas_n, stock.date, a)
                &&& is_first_with_date(smas_o, stock.date, b)
                &&& is_first_with_date(smas_p, stock.date, k)
                &&& stock.close.spec_partial_compare(smas_n[a].close) == Some(c)
                &&& smas_n[a].close.spec_partial_compare(smas_o[b].close) == Some(c)
                &&& smas_o[b].close.spec_partial_compare(smas_p[k].close) == Some(c)
            };
        lemma_first_with_date(smas_n, d, a);
        lemma_first_with_date(smas_o, d, b);
        lemma_first_with_date(smas_p, d, k);
    }
    match (
        spec_first_with_date(smas_n, d),
        spec_first_with_date(smas_o, d),
        spec_first_with_date(smas_p, d),
    ) {
        (Some(a), Some(b), Some(k)) => {
            assert(is_first_with_date(smas_n, d, a));
            assert(is_first_with_date(smas_o, d, b));
            assert(is_first_with_date(smas_p, d, k));
        },
        _ => {},
    }
}

/// The latest buy date of the strategy is the date of a trading day whose
/// close and averages are stacked upwards (close lowest), and no such day is
/// later; there is none only when no day is stacked that way.
pub proof fn lemma_latest_buy_is_latest_stacked_day<const N: usize, const O: usize, const P: usize>(
    stocks: Seq<Stock>,
    smas_n: Seq<SMA<N>>,
    smas_o: Seq<SMA<O>>,
    smas_p: Seq<SMA<P>>,
    buy: Option<Date>,
)
    requires
        is_latest_matching(
            spec_comparison_signals(stocks, smas_n, smas_o, smas_p),
            signal_is(BuySellSignalType::Buy),
            buy,
        ),
    ensures
        buy matches Some(d) ==> exists|i: int|
            0 <= i < stocks.len() && #[trigger] stocks[i].date == d && averages_stacked(
                stocks[i],
                smas_n,
                smas_o,
                smas_p,
                Comparison::Less,
            ),
        forall|i: int|
            0 <= i < stocks.len() && averages_stacked(
                #[trigger] stocks[i],
                smas_n,
                smas_o,
                smas_p,
                Comparison::Less,
            ) ==> buy is Some && stocks[i].date.days <= buy->0.days,
{
    let signals = spec_comparison_signals(stocks, smas_n, smas_o, smas_p);
    assert forall|i: int| 0 <= i < stocks.len() implies (#[trigger] signals[i]).date
        == stocks[i].date && (signals[i].signal_type == BuySellSignalType::Buy
        <==> averages_stacked(stocks[i], smas_n, smas_o, smas_p, Comparison::Less)) by {
        lemma_comparison_signal_is_stacking(stocks[i], smas_n, smas_o, smas_p);
    }
    if buy is Some {
        let i = choose|i: int|
            0 <= i < signals.len() && signal_is(BuySellSignalType::Buy)(#[trigger] signals[i])
                && signals[i].spec_date() == buy->0;
        assert(stocks[i].date == buy->0);
    }
    assert forall|i: int|
        0 <= i < stocks.len() && averages_stacked(
            #[trigger] stocks[i],
            smas_n,
            smas_o,
            smas_p,
            Comparison::Less,
        ) implies buy is Some && stocks[i].date.days <= buy->0.days by {
        assert(signal_is(BuySellSignalType::Buy)(signals[i]));
    }
}

/// The latest sell date of the strategy is the date of a trading day whose
/// close and averages are stacked downwards (close highest), and no such day
/// is later; there is none only when no day is stacked that way.
pub proof fn lemma_latest_sell_is_latest_stacked_day<const N: usize, const O: usize, const P: usize>(
    stocks: Seq<Stock>,
    smas_n: Seq<SMA<N>>,
    smas_o: Seq<SMA<O>>,
    smas_p: Seq<SMA<P>>,
    sell: Option<Date>,
)
    requires
        is_latest_matching(
            spec_comparison_signals(stocks, smas_n, smas_o, smas_p),
            signal_is(BuySellSignalType::Sell),
            sell,
        ),
    ensures
        sell matches Some(d) ==> exists|i: int|
            0 <= i < stocks.len() && #[trigger] stocks[i].date == d && averages_stacked(
                stocks[i],
                smas_n,
                smas_o,
                smas_p,
                Comparison::Greater,
            ),
        forall|i: int|
            0 <= i < stocks.len() && averages_stacked(
                #[trigger] stocks[i],
                smas_n,
                smas_o,
                smas_p,
                Comparison::Greater,
            ) ==> sell is Some && stocks[i].date.days <= sell->0.days,
{
    let signals = spec_comparison_signals(stocks, smas_n, smas_o, smas_p);
    assert forall|i: int| 0 <= i < stocks.len() implies (#[trigger] signals[i]).date
        == stocks[i].date && (signals[i].signal_type == BuySellSignalType::Sell
        <==> averages_stacked(stocks[i], smas_n, smas_o, smas_p, Comparison::Greater)) by {
        lemma_comparison_signal_is_stacking(stocks[i], smas_n, smas_o, smas_p);
    }
    if sell is Some {
        let i = choose|i: int|
            0 <= i < signals.len() && signal_is(BuySellSignalType::Sell)(#[trigger] signals[i])
                && signals[i].spec_date() == sell->0;
        assert(stocks[i].date == sell->0);
    }
    assert forall|i: int|
        0 <= i < stocks.len() && averages_stacked(
            #[trigger] stocks[i],
            smas_n,
            smas_o,
            smas_p,
            Comparison::Greater,
        ) implies sell is Some && stocks[i].date.days <= sell->0.days by {
        assert(signal_is(BuySellSignalType::Sell)(signals[i]));
    }
}

} // verus!
