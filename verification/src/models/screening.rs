//! Screening candidates: target-market domestic stocks with a well-formed code.
use crate::models::company::{
    domestic_stock_product_category, is_target_market, is_target_market_code, Company,
};
use crate::text::{
    ascii_upper, ascii_upper_seq, char_is_ascii_alphanumeric, char_is_white_space,
    char_to_ascii_uppercase, is_ascii_alphanumeric, is_white_space, lemma_trim, push_char, str_eq,
    trim,
};
use vstd::prelude::*;
use vstd::string::StringExecFns;

verus! {

/// A company that passed screening, with its normalized code.
#[derive(Debug, Clone, PartialEq, Default)]
pub struct ScreeningCandidate {
    pub code: String,
    pub market: String,
    pub symbol: String,
    pub company_name: String,
}

/// Why a company did not become a candidate; each carries the company code.
#[derive(Debug, Clone, PartialEq)]
pub enum ScreeningError {
    NotDomesticStock { code: String },
    NotTargetMarket { code: String, market: String },
    InvalidCode { code: String },
}

/// The message of each error, naming the company code (and the market).
pub open spec fn spec_screening_error_message(e: ScreeningError) -> Seq<char> {
    match e {
        ScreeningError::NotDomesticStock { code } => "Not domestic stock. code: "@ + code@,
        ScreeningError::NotTargetMarket { code, market } => "Not target market. code: "@ + code@
            + ", market: "@ + market@,
        ScreeningError::InvalidCode { code } => "Invalid code. code: "@ + code@,
    }
}

impl ScreeningError {
    pub fn message(&self) -> (m: String)
        ensures
            m@ == spec_screening_error_message(*self),
    {
        match self {
            ScreeningError::NotDomesticStock { code } => {
                let mut m = String::from_str("Not domestic stock. code: ");
                m.append(code.as_str());
                m
            },
            ScreeningError::NotTargetMarket { code, market } => {
                let mut m = String::from_str("Not target market. code: ");
                m.append(code.as_str());
                m.append(", market: ");
                m.append(market.as_str());
                m
            },
            ScreeningError::InvalidCode { code } => {
                let mut m = String::from_str("Invalid code. code: ");
                m.append(code.as_str());
                m
            },
        }
    }
}

/// The first `n` characters are ASCII letters or digits.
pub open spec fn all_alphanumeric(s: Seq<char>, n: int) -> bool {
    forall|i: int| 0 <= i < n ==> is_ascii_alphanumeric(#[trigger] s[i])
}

/// A security code, trimmed and upper-cased, is either four ASCII letters or
/// digits, or those four followed by a `0` (which is dropped); anything else
/// is no code. Lengths count characters; every accepted character is ASCII,
/// so counting UTF-8 bytes instead accepts exactly the same codes.
pub open spec fn spec_normalize_code(code: Seq<char>) -> Option<Seq<char>> {
    let u = ascii_upper_seq(trim(code));
    if u.len() == 4 && all_alphanumeric(u, 4) {
        Some(u)
    } else if u.len() == 5 && u[4] == '0' && all_alphanumeric(u, 4) {
        Some(u.take(4))
    } else {
        None
    }
}

/// Normalizes a security code (see `spec_normalize_code`).
pub fn normalize_code(code: &str) -> (r: Option<String>)
    ensures
        r is None <==> spec_normalize_code(code@) is None,
        r matches Some(s) ==> spec_normalize_code(code@) == Some(s@),
{
    let n = code.unicode_len();
    let mut a: usize = 0;
    while a < n && char_is_white_space(code.get_char(a))
        invariant
            a <= n,
            n == code@.len(),
            forall|i: int| 0 <= i < a ==> is_white_space(#[trigger] code@[i]),
        decreases n - a,
    {
        a = a + 1;
    }
    let mut b: usize = n;
    while b > a && char_is_white_space(code.get_char(b - 1))
        invariant
            a <= b <= n,
            n == code@.len(),
            forall|i: int| b <= i < n ==> is_white_space(#[trigger] code@[i]),
        decreases b - a,
    {
        b = b - 1;
    }
    proof {
        lemma_trim(code@, a as int, b as int);
    }
    let ghost t = trim(code@);
    let ghost u = ascii_upper_seq(t);
    assert(t == code@.subrange(a as int, b as int));
    let len = b - a;
    if len != 4 && len != 5 {
        return None;
    }
    let mut out = String::new();
    let mut i: usize = 0;
    while i < 4
        invariant
            i <= 4,
            len == 4 || len == 5,
            len == b - a,
            a <= b <= n,
            n == code@.len(),
            t == code@.subrange(a as int, b as int),
            t == trim(code@),
            u == ascii_upper_seq(t),
            u.len() == len,
            out@ == u.take(i as int),
            all_alphanumeric(u, i as int),
        decreases 4 - i,
    {
        let c = char_to_ascii_uppercase(code.get_char(a + i));
        assert(c == u[i as int]);
        if !char_is_ascii_alphanumeric(c) {
            assert(!is_ascii_alphanumeric(u[i as int]));
            assert(!all_alphanumeric(u, 4));
            return None;
        }
        push_char(&mut out, c);
        assert(out@ =~= u.take(i + 1));
        i = i + 1;
    }
    if len == 4 {
        assert(u.take(4) =~= u);
        return Some(out);
    }
    let last = char_to_ascii_uppercase(code.get_char(a + 4));
    assert(last == u[4]);
    if last == '0' {
        Some(out)
    } else {
        None
    }
}

/// A normalized code is four ASCII digits or upper-case letters.
pub open spec fn is_normalized_code(s: Seq<char>) -> bool {
    s.len() == 4 && forall|i: int|
        0 <= i < 4 ==> ('0' <= #[trigger] s[i] && s[i] <= '9') || ('A' <= s[i] && s[i] <= 'Z')
}

/// Normalizing yields a normalized code, and normalizing that code again
/// gives it back unchanged.
pub proof fn lemma_normalize_code_idempotent(code: Seq<char>)
    ensures
        spec_normalize_code(code) matches Some(s) ==> is_normalized_code(s),
        spec_normalize_code(code) matches Some(s) ==> spec_normalize_code(s) == Some(s),
{
    let u = ascii_upper_seq(trim(code));
    if let Some(s) = spec_normalize_code(code) {
        assert(s.len() == 4);
        assert forall|i: int| 0 <= i < 4 implies ('0' <= #[trigger] s[i] && s[i] <= '9') || (
        'A' <= s[i] && s[i] <= 'Z') by {
            assert(s[i] == u[i]);
            assert(is_ascii_alphanumeric(u[i]));
        }
        assert forall|i: int| 0 <= i < 4 implies !is_white_space(#[trigger] s[i]) by {
            assert(('0' <= s[i] && s[i] <= '9') || ('A' <= s[i] && s[i] <= 'Z'));
        }
        lemma_trim(s, 0, 4);
        assert(s.subrange(0, 4) =~= s);
        assert forall|i: int| 0 <= i < 4 implies #[trigger] ascii_upper_seq(s)[i] == s[i] by {
            assert(('0' <= s[i] && s[i] <= '9') || ('A' <= s[i] && s[i] <= 'Z'));
        }
        assert(ascii_upper_seq(s) =~= s);
        assert(all_alphanumeric(s, 4));
    }
}

/// The candidate of a company: a domestic stock (product category `011`), on
/// a target market, with a code that normalizes; checked in that order.
pub open spec fn spec_screening_error_kind(c: Company) -> Option<int> {
    if c.product_category@ != domestic_stock_product_category() {
        Some(0)
    } else if !is_target_market_code(c.market@) {
        Some(1)
    } else if spec_normalize_code(c.code@) is None {
        Some(2)
    } else {
        None
    }
}

impl ScreeningCandidate {
    /// Screens a company: it must be a domestic stock, listed on a target
    /// market, and have a code that normalizes.
    pub fn try_from(company: &Company) -> (r: Result<ScreeningCandidate, ScreeningError>)
        ensures
            company.product_category@ != domestic_stock_product_category() ==> (r matches Err(
                ScreeningError::NotDomesticStock { code },
            ) && code@ == company.code@),
            company.product_category@ == domestic_stock_product_category() && !is_target_market_code(
                company.market@,
            ) ==> (r matches Err(ScreeningError::NotTargetMarket { code, market }) && code@
                == company.code@ && market@ == company.market@),
            company.product_category@ == domestic_stock_product_category() && is_target_market_code(
                company.market@,
            ) && spec_normalize_code(company.code@) is None ==> (r matches Err(
                ScreeningError::InvalidCode { code },
            ) && code@ == company.code@),
            spec_screening_error_kind(*company) is None ==> (r matches Ok(c) && Some(c.code@)
                == spec_normalize_code(company.code@) && c.market@ == company.market@ && c.symbol@
                == company.symbol@ && c.company_name@ == company.name@),
    {
        if !str_eq(company.product_category.as_str(), "011") {
            return Err(ScreeningError::NotDomesticStock { code: company.code.clone() });
        }
        if !is_target_market(company.market.as_str()) {
            return Err(
                ScreeningError::NotTargetMarket {
                    code: company.code.clone(),
                    market: company.market.clone(),
                },
            );
        }
        match normalize_code(company.code.as_str()) {
            None => Err(ScreeningError::InvalidCode { code: company.code.clone() }),
            Some(code) => Ok(
                ScreeningCandidate {
                    code,
                    market: company.market.clone(),
                    symbol: company.symbol.clone(),
                    company_name: company.name.clone(),
                },
            ),
        }
    }
}

} // verus!
