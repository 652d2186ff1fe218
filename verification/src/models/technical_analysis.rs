//! Technical-analysis facts: values derived from prices (moving averages,
//! oscillators, bands) and events (crossovers, candlestick patterns), kept in
//! date order.
use crate::date::Date;
use crate::price::Price;
use crate::sorting::{
    is_stable_sort_of, lemma_stable_sort_of_push, lemma_stable_sort_unique, sorted_by_key,
    stable_sort_by_key, SortKey,
};
use vstd::prelude::*;

verus! {

#[derive(Debug, Copy, Clone, PartialEq, Eq, Structural, Hash)]
pub enum DirectionType {
    Uptrend,
    Downtrend,
    Neutral,
}

#[derive(Debug, Copy, Clone, PartialEq, Eq, Structural, Hash, PartialOrd, Ord)]
pub enum EventKind {
    GoldenCross,
    DeadCross,
    MorningStar,
    EveningStar,
    BullishEngulfing,
    BearishEngulfing,
    BodyEngulfing,
    HighLowDirection,
    VolumeSpike,
    Breakout,
}

#[derive(Debug, Copy, Clone, PartialEq, Eq, Structural, Hash, PartialOrd, Ord)]
pub enum MetricKind {
    Sma,
    Macd,
    Signal,
    Rsi,
    BollingerUpper,
    BollingerLower,
    Atr,
    VolumeRatio,
}

/// The position of a metric in declaration order (the order `Ord` gives).
pub open spec fn metric_rank(m: MetricKind) -> int {
    match m {
        MetricKind::Sma => 0,
        MetricKind::Macd => 1,
        MetricKind::Signal => 2,
        MetricKind::Rsi => 3,
        MetricKind::BollingerUpper => 4,
        MetricKind::BollingerLower => 5,
        MetricKind::Atr => 6,
        MetricKind::VolumeRatio => 7,
    }
}

/// The position of an event kind in declaration order (the order `Ord` gives).
pub open spec fn event_kind_rank(k: EventKind) -> int {
    match k {
        EventKind::GoldenCross => 0,
        EventKind::DeadCross => 1,
        EventKind::MorningStar => 2,
        EventKind::EveningStar => 3,
        EventKind::BullishEngulfing => 4,
        EventKind::BearishEngulfing => 5,
        EventKind::BodyEngulfing => 6,
        EventKind::HighLowDirection => 7,
        EventKind::VolumeSpike => 8,
        EventKind::Breakout => 9,
    }
}

impl MetricKind {
    pub fn rank(&self) -> (r: i64)
        ensures
            r as int == metric_rank(*self),
    {
        match self {
            MetricKind::Sma => 0,
            MetricKind::Macd => 1,
            MetricKind::Signal => 2,
            MetricKind::Rsi => 3,
            MetricKind::BollingerUpper => 4,
            MetricKind::BollingerLower => 5,
            MetricKind::Atr => 6,
            MetricKind::VolumeRatio => 7,
        }
    }
}

impl EventKind {
    pub fn rank(&self) -> (r: i64)
        ensures
            r as int == event_kind_rank(*self),
    {
        match self {
            EventKind::GoldenCross => 0,
            EventKind::DeadCross => 1,
            EventKind::MorningStar => 2,
            EventKind::EveningStar => 3,
            EventKind::BullishEngulfing => 4,
            EventKind::BearishEngulfing => 5,
            EventKind::BodyEngulfing => 6,
            EventKind::HighLowDirection => 7,
            EventKind::VolumeSpike => 8,
            EventKind::Breakout => 9,
        }
    }
}

/// A value derived from prices on a date (an average, an oscillator, a band).
#[derive(Debug, Copy, Clone, PartialEq)]
pub struct DerivedFact {
    pub metric: MetricKind,
    pub date: Date,
    pub value: Price,
    pub period: Option<u32>,
}

#[derive(Debug, Copy, Clone, PartialEq)]
pub enum EventParams {
    Cross {
        fast_metric: MetricKind,
        fast_period: u32,
        slow_metric: MetricKind,
        slow_period: u32,
    },
    Threshold { metric: MetricKind, threshold: Price, direction: DirectionType },
    Pattern { pattern_name: EventKind, window_bars: u32 },
}

/// Something that happened on a date (a crossover, a candlestick pattern).
#[derive(Debug, Copy, Clone, PartialEq)]
pub struct EventFact {
    pub kind: EventKind,
    pub occurred_at: Date,
    pub direction: DirectionType,
    pub event_params: EventParams,
}

/// An instant in UTC: seconds since 1970-01-01T00:00:00Z and the nanoseconds
/// within that second (`DateTime<Utc>::timestamp` and
/// `timestamp_subsec_nanos`).
#[derive(Debug, Copy, Clone, PartialEq, Eq, Structural, Hash, PartialOrd, Ord)]
pub struct UtcTimestamp {
    pub seconds: i64,
    pub nanos: u32,
}

/// Derived facts are ordered by date, then by metric.
impl SortKey for DerivedFact {
    open spec fn sort_key(&self) -> int {
        self.date.days as int * 8 + metric_rank(self.metric)
    }

    fn exec_sort_key(&self) -> (k: i64) {
        (self.date.days as i64) * 8 + self.metric.rank()
    }
}

/// Events are ordered by date, then by kind.
impl SortKey for EventFact {
    open spec fn sort_key(&self) -> int {
        self.occurred_at.days as int * 16 + event_kind_rank(self.kind)
    }

    fn exec_sort_key(&self) -> (k: i64) {
        (self.occurred_at.days as i64) * 16 + self.kind.rank()
    }
}

/// `a` comes no later than `b` when ordered by date, then by metric.
pub open spec fn derived_fact_le(a: DerivedFact, b: DerivedFact) -> bool {
    a.date.days < b.date.days || (a.date.days == b.date.days && metric_rank(a.metric)
        <= metric_rank(b.metric))
}

/// `a` comes no later than `b` when ordered by date, then by kind.
pub open spec fn event_fact_le(a: EventFact, b: EventFact) -> bool {
    a.occurred_at.days < b.occurred_at.days || (a.occurred_at.days == b.occurred_at.days
        && event_kind_rank(a.kind) <= event_kind_rank(b.kind))
}

/// The sort key of a derived fact orders by date, then by metric, and two
/// facts share a key exactly when they share date and metric.
pub proof fn lemma_derived_fact_key(a: DerivedFact, b: DerivedFact)
    ensures
        a.sort_key() <= b.sort_key() <==> derived_fact_le(a, b),
        a.sort_key() == b.sort_key() <==> (a.date == b.date && a.metric == b.metric),
{
}

/// The sort key of an event orders by date, then by kind, and two events
/// share a key exactly when they share date and kind.
pub proof fn lemma_event_fact_key(a: EventFact, b: EventFact)
    ensures
        a.sort_key() <= b.sort_key() <==> event_fact_le(a, b),
        a.sort_key() == b.sort_key() <==> (a.occurred_at == b.occurred_at && a.kind == b.kind),
{
}

/// The facts and events of one security over a period.
#[derive(Debug, Clone, PartialEq)]
pub struct TechnicalAnalysis {
    pub code: String,
    pub start_date: Date,
    pub end_date: Date,
    pub analysis_at: UtcTimestamp,
    pub derived_facts: Vec<DerivedFact>,
    pub event_facts: Vec<EventFact>,
}

impl TechnicalAnalysis {
    /// Well-formed: facts ordered by (date, metric), events by (date, kind).
    pub open spec fn well_formed(&self) -> bool {
        &&& sorted_by_key(self.derived_facts@)
        &&& sorted_by_key(self.event_facts@)
    }

    /// Same as `from_parts`.
    pub fn new(
        code: String,
        start_date: Date,
        end_date: Date,
        analysis_at: UtcTimestamp,
        derived_facts: Vec<DerivedFact>,
        event_facts: Vec<EventFact>,
    ) -> (r: TechnicalAnalysis)
        ensures
            r.code@ == code@,
            r.start_date == start_date,
            r.end_date == end_date,
            r.analysis_at == analysis_at,
            is_stable_sort_of(r.derived_facts@, derived_facts@),
            is_stable_sort_of(r.event_facts@, event_facts@),
            r.well_formed(),
    {
        Self::from_parts(code, start_date, end_date, analysis_at, derived_facts, event_facts)
    }

    /// Gathers facts and events, sorting the facts by date then metric and the
    /// events by date then kind; entries with equal keys keep their order.
    pub fn from_parts(
        code: String,
        start_date: Date,
        end_date: Date,
        analysis_at: UtcTimestamp,
        derived_facts: Vec<DerivedFact>,
        event_facts: Vec<EventFact>,
    ) -> (r: TechnicalAnalysis)
        ensures
            r.code@ == code@,
            r.start_date == start_date,
            r.end_date == end_date,
            r.analysis_at == analysis_at,
            is_stable_sort_of(r.derived_facts@, derived_facts@),
            is_stable_sort_of(r.event_facts@, event_facts@),
            r.well_formed(),
    {
        let derived_facts = stable_sort_by_key(derived_facts);
        let event_facts = stable_sort_by_key(event_facts);
        TechnicalAnalysis { code, start_date, end_date, analysis_at, derived_facts, event_facts }
    }

    /// Adds a derived fact and restores the (date, metric) order.
    pub fn push_derived_fact(&mut self, fact: DerivedFact)
        ensures
            is_stable_sort_of(final(self).derived_facts@, old(self).derived_facts@.push(fact)),
            final(self).event_facts@ == old(self).event_facts@,
            final(self).code@ == old(self).code@,
            final(self).start_date == old(self).start_date,
            final(self).end_date == old(self).end_date,
            final(self).analysis_at == old(self).analysis_at,
            sorted_by_key(final(self).derived_facts@),
    {
        let mut facts: Vec<DerivedFact> = Vec::new();
        std::mem::swap(&mut facts, &mut self.derived_facts);
        facts.push(fact);
        self.derived_facts = stable_sort_by_key(facts);
    }

    /// Adds an event and restores the (date, kind) order.
    pub fn push_event_fact(&mut self, fact: EventFact)
        ensures
            is_stable_sort_of(final(self).event_facts@, old(self).event_facts@.push(fact)),
            final(self).derived_facts@ == old(self).derived_facts@,
            final(self).code@ == old(self).code@,
            final(self).start_date == old(self).start_date,
            final(self).end_date == old(self).end_date,
            final(self).analysis_at == old(self).analysis_at,
            sorted_by_key(final(self).event_facts@),
    {
        let mut facts: Vec<EventFact> = Vec::new();
        std::mem::swap(&mut facts, &mut self.event_facts);
        facts.push(fact);
        self.event_facts = stable_sort_by_key(facts);
    }
}

/// Adding a derived fact to an analysis built from `facts` leaves the same
/// derived facts as building the analysis from `facts` with that fact
/// appended (`built`, `pushed` and `rebuilt` are the derived facts that
/// `from_parts`, `push_derived_fact` and `from_parts` again promise).
pub proof fn lemma_push_derived_fact_matches_from_parts(
    facts: Seq<DerivedFact>,
    fact: DerivedFact,
    built: Seq<DerivedFact>,
    pushed: Seq<DerivedFact>,
    rebuilt: Seq<DerivedFact>,
)
    requires
        is_stable_sort_of(built, facts),
        is_stable_sort_of(pushed, built.push(fact)),
        is_stable_sort_of(rebuilt, facts.push(fact)),
    ensures
        pushed == rebuilt,
{
    lemma_stable_sort_of_push(built, facts, fact, pushed);
    lemma_stable_sort_unique(pushed, rebuilt, facts.push(fact));
}

/// Adding an event to an analysis built from `events` leaves the same events
/// as building the analysis from `events` with that event appended.
pub proof fn lemma_push_event_fact_matches_from_parts(
    events: Seq<EventFact>,
    event: EventFact,
    built: Seq<EventFact>,
    pushed: Seq<EventFact>,
    rebuilt: Seq<EventFact>,
)
    requires
        is_stable_sort_of(built, events),
        is_stable_sort_of(pushed, built.push(event)),
        is_stable_sort_of(rebuilt, events.push(event)),
    ensures
        pushed == rebuilt,
{
    lemma_stable_sort_of_push(built, events, event, pushed);
    lemma_stable_sort_unique(pushed, rebuilt, events.push(event));
}

} // verus!
