//! Daily prices of a security.
use crate::date::Date;
use crate::price::Price;
use crate::search::HasDate;
use vstd::prelude::*;
use vstd::string::StringExecFns;

verus! {

/// A row as read from a source, where any column may be missing.
#[derive(Debug, Copy, Clone, PartialEq, Default)]
pub struct RowStock {
    pub date: Option<Date>,
    pub open: Option<Price>,
    pub high: Option<Price>,
    pub low: Option<Price>,
    pub close: Option<Price>,
    pub adj_close: Option<Price>,
    pub volume: Option<u64>,
}

/// Prices and volume of one trading day.
#[derive(Debug, Copy, Clone, PartialEq, Default)]
pub struct Stock {
    pub date: Date,
    pub open: Price,
    pub high: Price,
    pub low: Price,
    pub close: Price,
    pub adj_close: Price,
    pub volume: u64,
}

impl HasDate for Stock {
    open spec fn spec_date(&self) -> Date {
        self.date
    }

    fn date_of(&self) -> (d: Date) {
        self.date
    }
}

/// Trading days in date order.
#[derive(Debug, Clone, PartialEq, Default)]
pub struct Stocks(pub Vec<Stock>);

/// The column whose absence made a row unusable.
#[derive(Debug, Copy, Clone, PartialEq, Eq, Structural, Hash)]
pub enum StockError {
    DateIsNone,
    OpenIsNone,
    HighIsNone,
    LowIsNone,
    CloseIsNone,
    AdjCloseIsNone,
    VolumeIsNone,
}

/// The message of a missing column: its name followed by ` is None`.
pub open spec fn spec_stock_error_message(e: StockError) -> Seq<char> {
    match e {
        StockError::DateIsNone => "date is None"@,
        StockError::OpenIsNone => "open is None"@,
        StockError::HighIsNone => "high is None"@,
        StockError::LowIsNone => "low is None"@,
        StockError::CloseIsNone => "close is None"@,
        StockError::AdjCloseIsNone => "adj_close is None"@,
        StockError::VolumeIsNone => "volume is None"@,
    }
}

impl StockError {
    /// Names the missing column.
    pub fn message(&self) -> (m: String)
        ensures
            m@ == spec_stock_error_message(*self),
    {
        match self {
            StockError::DateIsNone => String::from_str("date is None"),
            StockError::OpenIsNone => String::from_str("open is None"),
            StockError::HighIsNone => String::from_str("high is None"),
            StockError::LowIsNone => String::from_str("low is None"),
            StockError::CloseIsNone => String::from_str("close is None"),
            StockError::AdjCloseIsNone => String::from_str("adj_close is None"),
            StockError::VolumeIsNone => String::from_str("volume is None"),
        }
    }
}

/// A row becomes a stock when every column is present; otherwise the first
/// missing column, in field order, is the error.
pub open spec fn spec_stock_from_row(row: RowStock) -> Result<Stock, StockError> {
    if row.date is None {
        Err(StockError::DateIsNone)
    } else if row.open is None {
        Err(StockError::OpenIsNone)
    } else if row.high is None {
        Err(StockError::HighIsNone)
    } else if row.low is None {
        Err(StockError::LowIsNone)
    } else if row.close is None {
        Err(StockError::CloseIsNone)
    } else if row.adj_close is None {
        Err(StockError::AdjCloseIsNone)
    } else if row.volume is None {
        Err(StockError::VolumeIsNone)
    } else {
        Ok(
            Stock {
                date: row.date->0,
                open: row.open->0,
                high: row.high->0,
                low: row.low->0,
                close: row.close->0,
                adj_close: row.adj_close->0,
                volume: row.volume->0,
            },
        )
    }
}

impl TryFrom<RowStock> for Stock {
    type Error = StockError;

    fn try_from(value: RowStock) -> (r: Result<Stock, StockError>) {
        let date = match value.date {
            Some(d) => d,
            None => return Err(StockError::DateIsNone),
        };
        let open = match value.open {
            Some(p) => p,
            None => return Err(StockError::OpenIsNone),
        };
        let high = match value.high {
            Some(p) => p,
            None => return Err(StockError::HighIsNone),
        };
        let low = match value.low {
            Some(p) => p,
            None => return Err(StockError::LowIsNone),
        };
        let close = match value.close {
            Some(p) => p,
            None => return Err(StockError::CloseIsNone),
        };
        let adj_close = match value.adj_close {
            Some(p) => p,
            None => return Err(StockError::AdjCloseIsNone),
        };
        let volume = match value.volume {
            Some(v) => v,
            None => return Err(StockError::VolumeIsNone),
        };
        Ok(Stock { date, open, high, low, close, adj_close, volume })
    }
}

impl vstd::std_specs::convert::TryFromSpecImpl<RowStock> for Stock {
    open spec fn obeys_try_from_spec() -> bool {
        true
    }

    open spec fn try_from_spec(value: RowStock) -> Result<Stock, StockError> {
        spec_stock_from_row(value)
    }
}

/// The stocks of the usable rows, in row order; unusable rows are skipped.
pub open spec fn spec_valid_stocks(rows: Seq<RowStock>) -> Seq<Stock>
    decreases rows.len(),
{
    if rows.len() == 0 {
        Seq::empty()
    } else {
        let rest = spec_valid_stocks(rows.drop_last());
        match spec_stock_from_row(rows.last()) {
            Ok(s) => rest.push(s),
            Err(_) => rest,
        }
    }
}

impl Stocks {
    /// Converts every row, keeping the rows that have all their columns (the
    /// collection step of a stock repository).
    pub fn from_rows(rows: &Vec<RowStock>) -> (r: Stocks)
        ensures
            r.0@ == spec_valid_stocks(rows@),
    {
        let mut out: Vec<Stock> = Vec::new();
        let mut i: usize = 0;
        while i < rows.len()
            invariant
                i <= rows.len(),
                out@ == spec_valid_stocks(rows@.take(i as int)),
            decreases rows.len() - i,
        {
            assert(rows@.take(i + 1).drop_last() == rows@.take(i as int));
            match Stock::try_from(rows[i]) {
                Ok(s) => out.push(s),
                Err(_) => {},
            }
            i = i + 1;
        }
        assert(rows@.take(rows.len() as int) == rows@);
        Stocks(out)
    }

    pub fn len(&self) -> (n: usize)
        ensures
            n == self.0@.len(),
    {
        self.0.len()
    }

    pub fn as_slice(&self) -> (s: &[Stock])
        ensures
            s@ == self.0@,
    {
        self.0.as_slice()
    }
}

} // verus!
