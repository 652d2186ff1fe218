//! A calendar date, held as the day number that `chrono::NaiveDate::num_days_from_ce`
//! gives it (0001-01-01 is day 1), so dates order as their day numbers do.
use chrono::Datelike;
use vstd::prelude::*;

verus! {

#[derive(Debug, Copy, Clone, PartialEq, Eq, Structural, Hash, PartialOrd, Ord)]
pub struct Date {
    pub days: i32,
}

/// The day number of 1970-01-01, the date that `NaiveDate::default()` gives.
pub open spec fn epoch_days() -> i32 {
    719_163
}

/// `chrono::NaiveDate::default()` taken to its day number. The contract
/// claims that the default date is 1970-01-01 (chrono's source builds it as
/// `from_ymd_opt(1970, 1, 1)`) and that `num_days_from_ce` counts 0001-01-01
/// as day 1, so its day number is 719163.
#[verifier::external_body]
fn chrono_default_day_number() -> (days: i32)
    ensures
        days == epoch_days(),
{
    chrono::NaiveDate::default().num_days_from_ce()
}

impl Date {
    pub open spec fn spec_le(self, other: Date) -> bool {
        self.days <= other.days
    }

    pub open spec fn spec_lt(self, other: Date) -> bool {
        self.days < other.days
    }

    pub fn from_days(days: i32) -> (d: Date)
        ensures
            d.days == days,
    {
        Date { days }
    }

    /// The default date, 1970-01-01.
    pub fn epoch() -> (d: Date)
        ensures
            d.days == epoch_days(),
    {
        Date { days: chrono_default_day_number() }
    }

    /// `self <= other`.
    pub fn is_on_or_before(&self, other: &Date) -> (r: bool)
        ensures
            r == self.spec_le(*other),
    {
        self.days <= other.days
    }

    /// `self < other`.
    pub fn is_before(&self, other: &Date) -> (r: bool)
        ensures
            r == self.spec_lt(*other),
    {
        self.days < other.days
    }

    /// `self == other`.
    pub fn same_day(&self, other: &Date) -> (r: bool)
        ensures
            r == (*self == *other),
    {
        self.days == other.days
    }
}

/// The default date is 1970-01-01, as for `chrono::NaiveDate`.
impl Default for Date {
    fn default() -> (d: Date)
        ensures
            d.days == epoch_days(),
    {
        Date::epoch()
    }
}

} // verus!
