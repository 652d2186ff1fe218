//! Listed companies.
use crate::text::str_eq;
use vstd::prelude::*;
use vstd::string::StringExecFns;

verus! {

/// A company row as read from a source, where any column may be missing.
#[derive(Debug, Clone, PartialEq, Eq, PartialOrd, Ord, Default)]
pub struct RowCompany {
    pub code: Option<String>,
    pub name: Option<String>,
    pub market: Option<String>,
    pub product_category: Option<String>,
    pub symbol: Option<String>,
}

/// A listed company.
#[derive(Debug, Clone, PartialEq, Eq, PartialOrd, Ord, Default)]
pub struct Company {
    pub code: String,
    pub name: String,
    pub market: String,
    pub product_category: String,
    pub symbol: String,
}

/// Companies, in the order read.
#[derive(Debug, Clone, PartialEq, Default)]
pub struct Companies(pub Vec<Company>);

/// The column whose absence made a row unusable.
#[derive(Debug, Copy, Clone, PartialEq, Eq, Structural, Hash)]
pub enum CompanyError {
    CodeIsNone,
    NameIsNone,
    MarketIsNone,
    ProductCategoryIsNone,
    SymbolIsNone,
}

/// The message of a missing column: its name followed by ` is None`.
pub open spec fn spec_company_error_message(e: CompanyError) -> Seq<char> {
    match e {
        CompanyError::CodeIsNone => "code is None"@,
        CompanyError::NameIsNone => "name is None"@,
        CompanyError::MarketIsNone => "market is None"@,
        CompanyError::ProductCategoryIsNone => "product_category is None"@,
        CompanyError::SymbolIsNone => "symbol is None"@,
    }
}

impl CompanyError {
    /// Names the missing column.
    pub fn message(&self) -> (m: String)
        ensures
            m@ == spec_company_error_message(*self),
    {
        match self {
            CompanyError::CodeIsNone => String::from_str("code is None"),
            CompanyError::NameIsNone => String::from_str("name is None"),
            CompanyError::MarketIsNone => String::from_str("market is None"),
            CompanyError::ProductCategoryIsNone => String::from_str("product_category is None"),
            CompanyError::SymbolIsNone => String::from_str("symbol is None"),
        }
    }
}

/// A row becomes a company when every column is present; otherwise the first
/// missing column, in field order, is the error.
pub open spec fn spec_company_from_row(row: RowCompany) -> Result<Company, CompanyError> {
    if row.code is None {
        Err(CompanyError::CodeIsNone)
    } else if row.name is None {
        Err(CompanyError::NameIsNone)
    } else if row.market is None {
        Err(CompanyError::MarketIsNone)
    } else if row.product_category is None {
        Err(CompanyError::ProductCategoryIsNone)
    } else if row.symbol is None {
        Err(CompanyError::SymbolIsNone)
    } else {
        Ok(
            Company {
                code: row.code->0,
                name: row.name->0,
                market: row.market->0,
                product_category: row.product_category->0,
                symbol: row.symbol->0,
            },
        )
    }
}

impl TryFrom<RowCompany> for Company {
    type Error = CompanyError;

    fn try_from(value: RowCompany) -> (r: Result<Company, CompanyError>) {
        let RowCompany { code, name, market, product_category, symbol } = value;
        let code = match code {
            Some(v) => v,
            None => return Err(CompanyError::CodeIsNone),
        };
        let name = match name {
            Some(v) => v,
            None => return Err(CompanyError::NameIsNone),
        };
        let market = match market {
            Some(v) => v,
            None => return Err(CompanyError::MarketIsNone),
        };
        let product_category = match product_category {
            Some(v) => v,
            None => return Err(CompanyError::ProductCategoryIsNone),
        };
        let symbol = match symbol {
            Some(v) => v,
            None => return Err(CompanyError::SymbolIsNone),
        };
        Ok(Company { code, name, market, product_category, symbol })
    }
}

impl vstd::std_specs::convert::TryFromSpecImpl<RowCompany> for Company {
    open spec fn obeys_try_from_spec() -> bool {
        true
    }

    open spec fn try_from_spec(value: RowCompany) -> Result<Company, CompanyError> {
        spec_company_from_row(value)
    }
}

/// The product category of domestic stocks.
pub open spec fn domestic_stock_product_category() -> Seq<char> {
    "011"@
}

/// The Prime (0111), Standard (0112) and Growth (0113) market codes.
pub open spec fn is_target_market_code(market: Seq<char>) -> bool {
    market == "0111"@ || market == "0112"@ || market == "0113"@
}

/// A domestic stock listed on the Prime, Standard or Growth market.
pub open spec fn spec_is_target_company(c: Company) -> bool {
    c.product_category@ == domestic_stock_product_category() && is_target_market_code(c.market@)
}

/// Whether a market code is Prime, Standard or Growth.
pub fn is_target_market(market: &str) -> (r: bool)
    ensures
        r == is_target_market_code(market@),
{
    str_eq(market, "0111") || str_eq(market, "0112") || str_eq(market, "0113")
}

/// Whether a company is a domestic stock on the Prime, Standard or Growth market.
pub fn is_target_company(company: &Company) -> (r: bool)
    ensures
        r == spec_is_target_company(*company),
{
    str_eq(company.product_category.as_str(), "011") && is_target_market(company.market.as_str())
}

/// A copy of a company.
fn clone_company(c: &Company) -> (r: Company)
    ensures
        r == *c,
{
    Company {
        code: c.code.clone(),
        name: c.name.clone(),
        market: c.market.clone(),
        product_category: c.product_category.clone(),
        symbol: c.symbol.clone(),
    }
}

/// The target companies among `s`, in order.
pub open spec fn spec_target_companies(s: Seq<Company>) -> Seq<Company>
    decreases s.len(),
{
    if s.len() == 0 {
        Seq::empty()
    } else {
        let rest = spec_target_companies(s.drop_last());
        if spec_is_target_company(s.last()) {
            rest.push(s.last())
        } else {
            rest
        }
    }
}

/// The companies of the usable rows, in row order.
pub open spec fn spec_valid_companies(rows: Seq<RowCompany>) -> Seq<Company>
    decreases rows.len(),
{
    if rows.len() == 0 {
        Seq::empty()
    } else {
        let rest = spec_valid_companies(rows.drop_last());
        match spec_company_from_row(rows.last()) {
            Ok(c) => rest.push(c),
            Err(_) => rest,
        }
    }
}

fn clone_opt_string(s: &Option<String>) -> (r: Option<String>)
    ensures
        r == *s,
{
    match s {
        Some(v) => Some(v.clone()),
        None => None,
    }
}

impl Companies {
    /// The domestic stocks listed on the Prime, Standard or Growth market.
    pub fn domestic_prime_standard_growth_companies(&self) -> (r: Vec<Company>)
        ensures
            r@ == spec_target_companies(self.0@),
    {
        let mut out: Vec<Company> = Vec::new();
        let mut i: usize = 0;
        while i < self.0.len()
            invariant
                i <= self.0@.len(),
                out@ == spec_target_companies(self.0@.take(i as int)),
            decreases self.0.len() - i,
        {
            assert(self.0@.take(i + 1).drop_last() == self.0@.take(i as int));
            if is_target_company(&self.0[i]) {
                out.push(clone_company(&self.0[i]));
            }
            i = i + 1;
        }
        assert(self.0@.take(self.0@.len() as int) == self.0@);
        out
    }

    /// Converts every row, keeping the rows that have all their columns (the
    /// collection step of a company repository).
    pub fn from_rows(rows: &Vec<RowCompany>) -> (r: Companies)
        ensures
            r.0@ == spec_valid_companies(rows@),
    {
        let mut out: Vec<Company> = Vec::new();
        let mut i: usize = 0;
        while i < rows.len()
            invariant
                i <= rows.len(),
                out@ == spec_valid_companies(rows@.take(i as int)),
            decreases rows.len() - i,
        {
            assert(rows@.take(i + 1).drop_last() == rows@.take(i as int));
            let row = &rows[i];
            let copy = RowCompany {
                code: clone_opt_string(&row.code),
                name: clone_opt_string(&row.name),
                market: clone_opt_string(&row.market),
                product_category: clone_opt_string(&row.product_category),
                symbol: clone_opt_string(&row.symbol),
            };
            assert(copy == rows@[i as int]);
            match Company::try_from(copy) {
                Ok(c) => out.push(c),
                Err(_) => {},
            }
            i = i + 1;
        }
        assert(rows@.take(rows.len() as int) == rows@);
        Companies(out)
    }

    pub fn len(&self) -> (n: usize)
        ensures
            n == self.0@.len(),
    {
        self.0.len()
    }
}

/// Every company kept is a target company, and every target company is kept.
pub proof fn lemma_target_companies_exact(s: Seq<Company>)
    ensures
        forall|i: int|
            0 <= i < spec_target_companies(s).len() ==> spec_is_target_company(
                #[trigger] spec_target_companies(s)[i],
            ),
        spec_target_companies(s).len() <= s.len(),
        (forall|i: int| 0 <= i < s.len() ==> spec_is_target_company(#[trigger] s[i]))
            ==> spec_target_companies(s) == s,
    decreases s.len(),
{
    if s.len() > 0 {
        let d = s.drop_last();
        lemma_target_companies_exact(d);
        if forall|i: int| 0 <= i < s.len() ==> spec_is_target_company(#[trigger] s[i]) {
            assert forall|i: int| 0 <= i < d.len() implies spec_is_target_company(
                #[trigger] d[i],
            ) by {
                assert(d[i] == s[i]);
            }
            assert(spec_is_target_company(s[s.len() - 1]));
            assert(d.push(s.last()) =~= s);
        }
    }
}

/// Keeping the target companies a second time changes nothing.
pub proof fn lemma_target_companies_idempotent(s: Seq<Company>)
    ensures
        spec_target_companies(spec_target_companies(s)) == spec_target_companies(s),
{
    lemma_target_companies_exact(s);
    lemma_target_companies_exact(spec_target_companies(s));
}

} // verus!
