use meroalpha_terminal::csv::split_csv_line;
use meroalpha_terminal::portfolio::{
    configured_api_key, find_column, normalize_api_key, normalize_profile_name, normalize_symbol,
    parse_holdings_csv, settings_from_row, settings_row, AppSettings, HoldingImport,
    InMemoryPortfolioRepository, PortfolioImportError,
};

fn value(n: &meroalpha_terminal::numeric::NumericText) -> f64 {
    n.as_str().parse::<f64>().expect("number text parses")
}

fn holding_values(h: &HoldingImport) -> (String, f64, f64, f64) {
    (h.symbol.clone(), value(&h.quantity), value(&h.avg_cost), value(&h.ltp))
}

#[test]
fn parses_holding_csv_with_required_columns() {
    let csv = "symbol,quantity,avg_cost,ltp\nnabil,2450,450.20,562.10\nGBIME,3100,190.50,215.00\n";

    let holdings = parse_holdings_csv(csv).expect("valid holdings CSV");

    assert_eq!(
        holdings.iter().map(holding_values).collect::<Vec<_>>(),
        vec![
            ("NABIL".to_string(), 2450.0, 450.20, 562.10),
            ("GBIME".to_string(), 3100.0, 190.50, 215.00),
        ]
    );
}

#[test]
fn parses_meroshare_current_balance_export() {
    let csv = "\"S.N\",\"Scrip\",\"Current Balance\",\"Last Closing Price\",\"Value as of Last Closing Price\",\"Last Transaction Price (LTP)\",\"Value as of LTP\"\n\"1\",\"ALBSL\",\"12.0\",\"1097.6\",\"13171.20\",\"1097.8\",\"13173.60\"\n\"Total :\",\" \",\" \",\" \",\"47739.14\",\" \",\"47696.84\"\n";

    let holdings = parse_holdings_csv(csv).expect("valid meroshare holdings CSV");

    assert_eq!(
        holdings.iter().map(holding_values).collect::<Vec<_>>(),
        vec![("ALBSL".to_string(), 12.0, 1097.6, 1097.8)]
    );
}

#[test]
fn rejects_csv_without_required_columns() {
    let error = parse_holdings_csv("ticker,quantity,avg_cost,ltp\nNABIL,1,2,3\n")
        .expect_err("symbol column is required");

    assert_eq!(error, PortfolioImportError::MissingColumn("symbol"));
}

#[test]
fn empty_or_blank_csv_is_rejected() {
    assert_eq!(parse_holdings_csv(""), Err(PortfolioImportError::EmptyCsv));
    assert_eq!(parse_holdings_csv("  \n\t\r\n \n"), Err(PortfolioImportError::EmptyCsv));
}

#[test]
fn missing_columns_are_reported_in_column_order() {
    assert_eq!(
        parse_holdings_csv("symbol,avg_cost\nA,1\n"),
        Err(PortfolioImportError::MissingColumn("quantity"))
    );
    assert_eq!(
        parse_holdings_csv("symbol,quantity,ltp\nA,1,2\n"),
        Err(PortfolioImportError::MissingColumn("avg_cost"))
    );
    assert_eq!(
        parse_holdings_csv("Symbol,Quantity,AVG_COST\nA,1,2\n"),
        Err(PortfolioImportError::MissingColumn("ltp"))
    );
}

#[test]
fn rows_with_a_wrong_column_count_name_their_line() {
    // Blank lines are not counted: the bad row is the third non-blank line.
    let csv = "symbol,quantity,avg_cost,ltp\n\nNABIL,1,2,3\n\n   \nGBIME,1,2\n";
    assert_eq!(
        parse_holdings_csv(csv),
        Err(PortfolioImportError::InvalidColumnCount { line: 3, expected: 4, actual: 3 })
    );
}

#[test]
fn invalid_numbers_name_line_column_and_field() {
    let csv = "symbol,quantity,avg_cost,ltp\nNABIL,10,abc,3\n";
    assert_eq!(
        parse_holdings_csv(csv),
        Err(PortfolioImportError::InvalidNumber {
            line: 2,
            column: "avg_cost",
            value: "abc".to_string(),
        })
    );
    let csv = "symbol,quantity,avg_cost,ltp\nNABIL,,1,3\n";
    assert_eq!(
        parse_holdings_csv(csv),
        Err(PortfolioImportError::InvalidNumber { line: 2, column: "quantity", value: String::new() })
    );
}

#[test]
fn numbers_may_hold_underscores_and_exponents() {
    let csv = "symbol,quantity,avg_cost,ltp\nnica,1_000,4.5e2,-inf\n";
    let holdings = parse_holdings_csv(csv).expect("valid");
    assert_eq!(holdings[0].quantity.as_str(), "1000");
    assert_eq!(value(&holdings[0].quantity), 1000.0);
    assert_eq!(value(&holdings[0].avg_cost), 450.0);
    assert_eq!(value(&holdings[0].ltp), f64::NEG_INFINITY);
}

#[test]
fn rows_without_symbol_or_total_rows_are_skipped() {
    let csv = "symbol,quantity,avg_cost,ltp\n  ,x,y,z\ntotal :,1,2,3\nhdl , 2 , 3 , 4\r\n";
    let holdings = parse_holdings_csv(csv).expect("valid");
    assert_eq!(
        holdings.iter().map(holding_values).collect::<Vec<_>>(),
        vec![("HDL".to_string(), 2.0, 3.0, 4.0)]
    );
}

#[test]
fn imported_symbols_are_trimmed_upper_case_and_never_the_total_line() {
    let csv = "Scrip,Current Balance,Last Closing Price,Last Transaction Price (LTP)\n\" shivm \",1,2,3\nTotal :,1,2,3\n\"nTc\",4,5,6\n";
    let holdings = parse_holdings_csv(csv).expect("valid");
    let symbols: Vec<&str> = holdings.iter().map(|h| h.symbol.as_str()).collect();
    assert_eq!(symbols, vec!["SHIVM", "NTC"]);
    for h in &holdings {
        assert!(!h.symbol.is_empty());
        assert_eq!(h.symbol.trim(), h.symbol);
        assert_eq!(h.symbol.to_ascii_uppercase(), h.symbol);
        assert_ne!(h.symbol, "TOTAL :");
    }
}

#[test]
fn csv_fields_honour_quotes_and_escaped_quotes() {
    assert_eq!(split_csv_line("a, b ,c"), vec!["a", "b", "c"]);
    assert_eq!(split_csv_line("\"a,b\",c"), vec!["a,b", "c"]);
    assert_eq!(split_csv_line("\"say \"\"hi\"\"\",x"), vec!["say \"hi\"", "x"]);
    assert_eq!(split_csv_line(""), vec![""]);
    assert_eq!(split_csv_line(",,"), vec!["", "", ""]);
}

#[test]
fn find_column_matches_names_and_aliases_ignoring_case() {
    let headers = vec!["S.N".to_string(), "SCRIP".to_string(), "Symbol".to_string()];
    assert_eq!(find_column(&headers, "symbol", &["scrip"]), Ok(1));
    assert_eq!(
        find_column(&headers, "ltp", &["last transaction price (ltp)"]),
        Err(PortfolioImportError::MissingColumn("ltp"))
    );
}

#[test]
fn settings_are_normalized_for_storage() {
    assert_eq!(normalize_profile_name("  Asha  "), "Asha");
    assert_eq!(normalize_profile_name("   "), "NEPSE Investor");
    assert_eq!(normalize_api_key(Some("  key ")), Some("key".to_string()));
    assert_eq!(normalize_api_key(Some("  ")), None);
    assert_eq!(normalize_api_key(None), None);
    assert_eq!(normalize_symbol(" nabil "), "NABIL");
}

#[test]
fn settings_load_back_as_saved() {
    assert_eq!(settings_from_row(None), AppSettings::default());
    assert_eq!(AppSettings::default().profile_name, "NEPSE Investor");
    let saved = AppSettings {
        profile_name: "Asha Portfolio".to_string(),
        meroalpha_api_key: Some("ma_test_key".to_string()),
    };
    let row = settings_row(&saved);
    assert_eq!(settings_from_row(Some(row)), saved);

    let messy = AppSettings { profile_name: "  ".to_string(), meroalpha_api_key: Some(" k ".to_string()) };
    let loaded = settings_from_row(Some(settings_row(&messy)));
    assert_eq!(
        loaded,
        AppSettings { profile_name: "NEPSE Investor".to_string(), meroalpha_api_key: Some("k".to_string()) }
    );
    assert_eq!(settings_from_row(Some(settings_row(&loaded))), loaded);
}

#[test]
fn configured_api_key_ignores_blank_keys() {
    assert_eq!(
        configured_api_key(&AppSettings {
            profile_name: "Test".to_string(),
            meroalpha_api_key: Some("  ma_key  ".to_string()),
        }),
        Some("ma_key".to_string())
    );
    assert_eq!(
        configured_api_key(&AppSettings {
            profile_name: "Test".to_string(),
            meroalpha_api_key: Some("   ".to_string()),
        }),
        None
    );
    assert_eq!(
        configured_api_key(&AppSettings { profile_name: "Test".to_string(), meroalpha_api_key: None }),
        None
    );
}

#[test]
fn in_memory_repository_replaces_holdings() {
    let mut repository = InMemoryPortfolioRepository::new();
    assert!(repository.holdings().is_empty());
    let first = parse_holdings_csv("symbol,quantity,avg_cost,ltp\nA,1,2,3\nB,4,5,6\n").unwrap();
    repository.replace_holdings(first);
    let second = parse_holdings_csv("symbol,quantity,avg_cost,ltp\nSHIVM,1200,540,490.5\n").unwrap();
    repository.replace_holdings(second.clone());
    assert_eq!(repository.holdings(), &second);
}
