use quantitative_data_analysis_rs::models::company::{
    is_target_market, Companies, Company, CompanyError, RowCompany,
};
use quantitative_data_analysis_rs::models::screening::{
    normalize_code, ScreeningCandidate, ScreeningError,
};

fn company(code: &str, name: &str, market: &str, product_category: &str, symbol: &str) -> Company {
    Company {
        code: code.to_string(),
        name: name.to_string(),
        market: market.to_string(),
        product_category: product_category.to_string(),
        symbol: symbol.to_string(),
    }
}

#[test]
fn target_companies_returns_domestic_prime_standard_growth_only() {
    let companies = Companies(vec![
        Company {
            code: "1111".to_string(),
            name: "Prime Domestic".to_string(),
            market: "0111".to_string(),
            product_category: "011".to_string(),
            symbol: "1111.0111".to_string(),
        },
        Company {
            code: "2222".to_string(),
            name: "ETF".to_string(),
            market: "0109".to_string(),
            product_category: "014".to_string(),
            symbol: "2222.0109".to_string(),
        },
        Company {
            code: "3333".to_string(),
            name: "Standard Domestic".to_string(),
            market: "0112".to_string(),
            product_category: "011".to_string(),
            symbol: "3333.0112".to_string(),
        },
        Company {
            code: "4444".to_string(),
            name: "Growth Domestic".to_string(),
            market: "0113".to_string(),
            product_category: "011".to_string(),
            symbol: "4444.0113".to_string(),
        },
    ]);

    let actual = companies.domestic_prime_standard_growth_companies();

    assert_eq!(actual.len(), 3);
    assert_eq!(actual[0].code, "1111");
    assert_eq!(actual[1].code, "3333");
    assert_eq!(actual[2].code, "4444");
}

#[test]
fn filtering_target_companies_twice_changes_nothing() {
    let companies = Companies(vec![
        company("1111", "A", "0111", "011", "1111.0111"),
        company("2222", "B", "0111", "014", "2222.0111"),
        company("3333", "C", "0114", "011", "3333.0114"),
    ]);
    let once = companies.domestic_prime_standard_growth_companies();
    let twice = Companies(once.clone()).domestic_prime_standard_growth_companies();
    assert_eq!(once, twice);
    assert_eq!(once, vec![company("1111", "A", "0111", "011", "1111.0111")]);
}

#[test]
fn target_markets_are_prime_standard_growth() {
    assert!(is_target_market("0111"));
    assert!(is_target_market("0112"));
    assert!(is_target_market("0113"));
    assert!(!is_target_market("0109"));
    assert!(!is_target_market("0111 "));
    assert!(!is_target_market(""));
}

#[test]
fn company_rows_need_every_column() {
    let full = RowCompany {
        code: Some("7203".to_string()),
        name: Some("Toyota".to_string()),
        market: Some("0111".to_string()),
        product_category: Some("011".to_string()),
        symbol: Some("7203.T".to_string()),
    };
    assert_eq!(
        Company::try_from(full.clone()),
        Ok(company("7203", "Toyota", "0111", "011", "7203.T"))
    );
    assert_eq!(
        Company::try_from(RowCompany { code: None, name: None, ..full.clone() }),
        Err(CompanyError::CodeIsNone)
    );
    assert_eq!(
        Company::try_from(RowCompany { name: None, ..full.clone() }),
        Err(CompanyError::NameIsNone)
    );
    assert_eq!(
        Company::try_from(RowCompany { market: None, ..full.clone() }),
        Err(CompanyError::MarketIsNone)
    );
    assert_eq!(
        Company::try_from(RowCompany { product_category: None, ..full.clone() }),
        Err(CompanyError::ProductCategoryIsNone)
    );
    assert_eq!(
        Company::try_from(RowCompany { symbol: None, ..full.clone() }),
        Err(CompanyError::SymbolIsNone)
    );
    let rows = vec![full.clone(), RowCompany { symbol: None, ..full.clone() }, full];
    assert_eq!(Companies::from_rows(&rows).len(), 2);
}

#[test]
fn normalize_code_cases() {
    assert_eq!(normalize_code("7203"), Some("7203".to_string()));
    assert_eq!(normalize_code("  130a \n"), Some("130A".to_string()));
    assert_eq!(normalize_code("72030"), Some("7203".to_string()));
    assert_eq!(normalize_code("72031"), None);
    assert_eq!(normalize_code("720"), None);
    assert_eq!(normalize_code("720-"), None);
    assert_eq!(normalize_code("7203000"), None);
    assert_eq!(normalize_code(""), None);
    assert_eq!(normalize_code("\u{3000}7203\u{3000}"), Some("7203".to_string()));
    assert_eq!(normalize_code("72é3"), None);
}

#[test]
fn normalize_code_is_idempotent() {
    for code in ["7203", " 130a", "72030", "abc0", "abcd0"] {
        let once = normalize_code(code).unwrap();
        assert_eq!(normalize_code(&once), Some(once.clone()));
    }
}

#[test]
fn screening_candidate_checks_in_order() {
    let ok = company(" 72030 ", "Toyota", "0111", "011", "7203.T");
    assert_eq!(
        ScreeningCandidate::try_from(&ok),
        Ok(ScreeningCandidate {
            code: "7203".to_string(),
            market: "0111".to_string(),
            symbol: "7203.T".to_string(),
            company_name: "Toyota".to_string(),
        })
    );
    assert_eq!(
        ScreeningCandidate::try_from(&company("bad", "X", "0109", "014", "s")),
        Err(ScreeningError::NotDomesticStock { code: "bad".to_string() })
    );
    assert_eq!(
        ScreeningCandidate::try_from(&company("bad", "X", "0109", "011", "s")),
        Err(ScreeningError::NotTargetMarket { code: "bad".to_string(), market: "0109".to_string() })
    );
    assert_eq!(
        ScreeningCandidate::try_from(&company("bad", "X", "0112", "011", "s")),
        Err(ScreeningError::InvalidCode { code: "bad".to_string() })
    );
}

#[test]
fn error_messages_name_the_company() {
    assert_eq!(
        ScreeningError::NotDomesticStock { code: "1301".to_string() }.message(),
        "Not domestic stock. code: 1301"
    );
    assert_eq!(
        ScreeningError::NotTargetMarket { code: "1301".to_string(), market: "0109".to_string() }
            .message(),
        "Not target market. code: 1301, market: 0109"
    );
    assert_eq!(
        ScreeningError::InvalidCode { code: "13".to_string() }.message(),
        "Invalid code. code: 13"
    );
    assert_eq!(CompanyError::ProductCategoryIsNone.message(), "product_category is None");
    assert_eq!(CompanyError::CodeIsNone.message(), "code is None");
}
