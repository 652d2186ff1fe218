//! Financial statements.
use crate::date::Date;
use crate::price::Price;
use vstd::prelude::*;
use vstd::string::StringExecFns;

verus! {

/// A financial statement: per-share figures (BPS, EPS, dividend forecast)
/// and totals (net sales, operating profit, ordinary profit, net income,
/// equity, total assets).
#[derive(Debug, Clone, PartialEq, Default)]
pub struct Statement {
    pub code: String,
    pub disclosed_date: Date,
    pub current_fiscal_year_end_date: Option<Date>,
    pub bps: Price,
    pub eps: Price,
    pub annual_dividend_forecast: Price,
    pub net_sales: Price,
    pub opp: Price,
    pub orp: Price,
    pub profit: Price,
    pub equity: Price,
    pub total_assets: Price,
}

/// A statement as read from a source, where figures may be missing.
#[derive(Debug, Clone, PartialEq, Default)]
pub struct RowStatement {
    pub code: String,
    pub disclosed_date: Option<Date>,
    pub current_fiscal_year_end_date: Option<Date>,
    pub bps: Option<Price>,
    pub eps: Option<Price>,
    pub annual_dividend_forecast: Option<Price>,
    pub net_sales: Option<Price>,
    pub opp: Option<Price>,
    pub orp: Option<Price>,
    pub profit: Option<Price>,
    pub equity: Option<Price>,
    pub total_assets: Option<Price>,
}

/// A statement without a disclosure date, with its code.
#[derive(Debug, Clone, PartialEq)]
pub enum StatementError {
    DisclosedDateIsNone { code: String },
}

impl StatementError {
    /// `code:<code> disclosed_date is None`.
    pub fn message(&self) -> (m: String)
        ensures
            self matches StatementError::DisclosedDateIsNone { code } ==> m@ == "code:"@ + code@
                + " disclosed_date is None"@,
    {
        match self {
            StatementError::DisclosedDateIsNone { code } => {
                let mut m = String::from_str("code:");
                m.append(code.as_str());
                m.append(" disclosed_date is None");
                m
            },
        }
    }
}

/// The figure, or NaN when it is missing.
pub open spec fn spec_or_nan(p: Option<Price>) -> Price {
    match p {
        Some(v) => v,
        None => Price { bits: 0x7ff8_0000_0000_0000 },
    }
}

fn or_nan(p: Option<Price>) -> (r: Price)
    ensures
        r == spec_or_nan(p),
{
    match p {
        Some(v) => v,
        None => Price::nan(),
    }
}

/// A statement needs its disclosure date; every missing figure becomes NaN.
pub open spec fn spec_statement_from_row(row: RowStatement) -> Result<Statement, StatementError> {
    match row.disclosed_date {
        None => Err(StatementError::DisclosedDateIsNone { code: row.code }),
        Some(d) => Ok(
            Statement {
                code: row.code,
                disclosed_date: d,
                current_fiscal_year_end_date: row.current_fiscal_year_end_date,
                bps: spec_or_nan(row.bps),
                eps: spec_or_nan(row.eps),
                annual_dividend_forecast: spec_or_nan(row.annual_dividend_forecast),
                net_sales: spec_or_nan(row.net_sales),
                opp: spec_or_nan(row.opp),
                orp: spec_or_nan(row.orp),
                profit: spec_or_nan(row.profit),
                equity: spec_or_nan(row.equity),
                total_assets: spec_or_nan(row.total_assets),
            },
        ),
    }
}

impl TryFrom<RowStatement> for Statement {
    type Error = StatementError;

    fn try_from(value: RowStatement) -> (r: Result<Statement, StatementError>) {
        let RowStatement {
            code,
            disclosed_date,
            current_fiscal_year_end_date,
            bps,
            eps,
            annual_dividend_forecast,
            net_sales,
            opp,
            orp,
            profit,
            equity,
            total_assets,
        } = value;
        match disclosed_date {
            None => Err(StatementError::DisclosedDateIsNone { code }),
            Some(d) => Ok(
                Statement {
                    code,
                    disclosed_date: d,
                    current_fiscal_year_end_date,
                    bps: or_nan(bps),
                    eps: or_nan(eps),
                    annual_dividend_forecast: or_nan(annual_dividend_forecast),
                    net_sales: or_nan(net_sales),
                    opp: or_nan(opp),
                    orp: or_nan(orp),
                    profit: or_nan(profit),
                    equity: or_nan(equity),
                    total_assets: or_nan(total_assets),
                },
            ),
        }
    }
}

impl vstd::std_specs::convert::TryFromSpecImpl<RowStatement> for Statement {
    open spec fn obeys_try_from_spec() -> bool {
        true
    }

    open spec fn try_from_spec(value: RowStatement) -> Result<Statement, StatementError> {
        spec_statement_from_row(value)
    }
}

} // verus!
