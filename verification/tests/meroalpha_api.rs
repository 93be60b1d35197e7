use meroalpha_terminal::json::Json;
use meroalpha_terminal::market_refresh::{OverviewRefresh, OverviewStage, PriceRefresh, PriceStage, RefreshStep};
use meroalpha_terminal::meroalpha_api::{
    company_symbols_from_json, company_symbols_from_response, daily_price_path, debug_body_snippet,
    latest_price_from_daily_json, latest_price_from_daily_response, latest_price_from_nav_json,
    latest_price_from_nav_response, market_indices_from_json, market_indices_from_response,
    market_movers_from_json, market_movers_from_response, market_movers_path, market_status_from_json,
    market_status_from_response, mutual_fund_nav_path, request_route, MarketIndexUpdate, MarketMoverUpdate,
    MarketStatusUpdate, MeroAlphaApiError, MeroAlphaClient,
};
use meroalpha_terminal::numeric::NumericText;

fn num(text: &str) -> Json {
    Json::Number(text.to_string())
}

fn text(s: &str) -> Json {
    Json::String(s.to_string())
}

fn obj(members: Vec<(&str, Json)>) -> Json {
    Json::Object(members.into_iter().map(|(k, v)| (k.to_string(), v)).collect())
}

fn value(n: &NumericText) -> f64 {
    n.as_str().parse::<f64>().expect("number text parses")
}

fn price(r: Result<NumericText, MeroAlphaApiError>) -> Result<f64, MeroAlphaApiError> {
    r.map(|n| value(&n))
}

fn index_values(i: &MarketIndexUpdate) -> (String, f64, f64, f64) {
    (i.label.clone(), value(&i.value), value(&i.change), value(&i.change_pct))
}

fn mover_values(m: &MarketMoverUpdate) -> (String, f64, Option<f64>, Option<f64>, f64, f64) {
    (
        m.symbol.clone(),
        value(&m.ltp),
        m.change.as_ref().map(value),
        m.change_pct.as_ref().map(value),
        value(&m.volume),
        value(&m.turnover),
    )
}

#[test]
fn extracts_latest_close_from_daily_price_response() {
    let body = r#"{
        "data": [
            { "symbol": "NABIL", "trade_date": "2026-06-15", "close": 612.4 }
        ],
        "meta": { "next_cursor": null }
    }"#;

    assert_eq!(price(latest_price_from_daily_response(body)), Ok(612.4));
}

#[test]
fn extracts_string_ltp_from_daily_price_response() {
    let body = r#"{ "data": [{ "symbol": "NABIL", "ltp": "612.40" }] }"#;

    assert_eq!(price(latest_price_from_daily_response(body)), Ok(612.4));
}

#[test]
fn extracts_nav_from_mutual_fund_response() {
    let body = r#"{ "data": [{ "symbol": "NICADF", "nav": "10.07" }] }"#;

    assert_eq!(price(latest_price_from_nav_response(body)), Ok(10.07));
}

#[test]
fn bodies_that_are_not_json_are_invalid_json() {
    assert!(matches!(latest_price_from_daily_response("not json"), Err(MeroAlphaApiError::InvalidJson(_))));
    assert!(matches!(latest_price_from_nav_response("{"), Err(MeroAlphaApiError::InvalidJson(_))));
    assert!(matches!(market_status_from_response(""), Err(MeroAlphaApiError::InvalidJson(_))));
    assert!(matches!(market_indices_from_response("[1,"), Err(MeroAlphaApiError::InvalidJson(_))));
    assert!(matches!(market_movers_from_response("{\"data\": }"), Err(MeroAlphaApiError::InvalidJson(_))));
    assert!(matches!(company_symbols_from_response("nope"), Err(MeroAlphaApiError::InvalidJson(_))));
}

#[test]
fn parsed_bodies_keep_numbers_strings_and_nesting() {
    let body = r#"{"data": [{"close": 1e3, "name": " X ", "flag": true, "nested": [null, {"v": -2}]}]}"#;
    assert_eq!(price(latest_price_from_daily_response(body)), Ok(1000.0));
    // A JSON scalar has no rows.
    assert_eq!(latest_price_from_daily_response("42"), Err(MeroAlphaApiError::MissingPrice));
    assert_eq!(price(latest_price_from_nav_response(r#"[{"ltp": 7}]"#)), Ok(7.0));
}

#[test]
fn price_readers_report_missing_prices() {
    let no_rows = obj(vec![("data", Json::Array(vec![]))]);
    assert_eq!(latest_price_from_daily_json(&no_rows), Err(MeroAlphaApiError::MissingPrice));
    let no_price = obj(vec![("data", Json::Array(vec![obj(vec![("ltp", text("n/a"))])]))]);
    assert_eq!(latest_price_from_daily_json(&no_price), Err(MeroAlphaApiError::MissingPrice));
    assert_eq!(latest_price_from_nav_json(&text("x")), Err(MeroAlphaApiError::MissingPrice));
    // A bare object is its own row; a root array holds the rows.
    assert_eq!(price(latest_price_from_daily_json(&obj(vec![("close", num("5"))]))), Ok(5.0));
    assert_eq!(price(latest_price_from_nav_json(&Json::Array(vec![obj(vec![("ltp", num("7"))])]))), Ok(7.0));
    // A number whose text the float parser refuses is no price.
    assert_eq!(latest_price_from_daily_json(&obj(vec![("close", num("1.2.3"))])), Err(MeroAlphaApiError::MissingPrice));
}

#[test]
fn extracts_market_indices_from_api_response() {
    let body = r#"{
        "data": [
            { "name": "NEPSE", "value": 2145.67, "change": 12.45, "percent_change": 0.58 },
            { "index_name": "Banking", "current_value": "1204.30", "change_value": "-4.20", "change_percent": "-0.35" }
        ]
    }"#;

    let indices = market_indices_from_response(body).expect("indices");
    assert_eq!(
        indices.iter().map(index_values).collect::<Vec<_>>(),
        vec![
            ("NEPSE".to_string(), 2145.67, 12.45, 0.58),
            ("Banking".to_string(), 1204.30, -4.20, -0.35),
        ]
    );
}

#[test]
fn index_rows_without_label_or_value_are_left_out_and_changes_default_to_zero() {
    let body = Json::Array(vec![
        obj(vec![("value", num("1"))]),
        obj(vec![("name", text("   ")), ("value", num("2"))]),
        obj(vec![("sector", text(" Hydro ")), ("ltp", num("3"))]),
        obj(vec![("name", text("NoValue"))]),
    ]);
    let indices = market_indices_from_json(&body).expect("indices");
    assert_eq!(indices.iter().map(index_values).collect::<Vec<_>>(), vec![("Hydro".to_string(), 3.0, 0.0, 0.0)]);
}

#[test]
fn extracts_market_mover_buckets_from_market_movers_response() {
    let body = r#"{
        "data": {
            "top_gainers": [
                { "symbol": "TPKHL", "close": 456.2, "change": 59.5, "percent_change": 14.99874, "volume": 240, "turnover": 108332 }
            ],
            "top_losers": [
                { "symbol": "SOPL", "close": 988.4, "change": -52.6, "percent_change": -5.052834, "volume": 172660, "turnover": 172271880.7 }
            ],
            "top_turnover": [
                { "symbol": "AKJCL", "close": 371.5, "change": 3.0, "percent_change": 0.814111, "volume": 815172, "turnover": 296233269.3 }
            ]
        }
    }"#;

    let buckets = market_movers_from_response(body).expect("movers");
    assert_eq!(
        buckets.gainers.iter().map(mover_values).collect::<Vec<_>>(),
        vec![("TPKHL".to_string(), 456.2, Some(59.5), Some(14.99874), 240.0, 108332.0)]
    );
    assert_eq!(
        buckets.losers.iter().map(mover_values).collect::<Vec<_>>(),
        vec![("SOPL".to_string(), 988.4, Some(-52.6), Some(-5.052834), 172660.0, 172271880.7)]
    );
    assert_eq!(
        buckets.turnover.iter().map(mover_values).collect::<Vec<_>>(),
        vec![("AKJCL".to_string(), 371.5, Some(3.0), Some(0.814111), 815172.0, 296233269.3)]
    );
}

#[test]
fn movers_keep_previous_close_when_change_is_missing_and_need_a_price() {
    let body = obj(vec![(
        "top_gainers",
        Json::Array(vec![obj(vec![("ltp", num("110")), ("prev_close", num("100"))])]),
    )]);
    let buckets = market_movers_from_json(&body).expect("movers");
    let m = &buckets.gainers[0];
    assert_eq!(m.symbol, "");
    assert!(m.change.is_none() && m.change_pct.is_none());
    assert_eq!(m.previous_close.as_ref().map(value), Some(100.0));
    assert_eq!(value(&m.volume), 0.0);
    assert!(buckets.losers.is_empty() && buckets.turnover.is_empty());

    let no_price = obj(vec![("top_losers", Json::Array(vec![obj(vec![("symbol", text("X"))])]))]);
    assert_eq!(market_movers_from_json(&no_price), Err(MeroAlphaApiError::MissingPrice));
}

#[test]
fn extracts_last_traded_date_from_market_status_response() {
    let body = r#"{
        "data": {
            "status": "CLOSE",
            "is_open": false,
            "as_of": "2026-06-25T09:15:00Z",
            "last_traded_date": "2026-06-25"
        }
    }"#;

    assert_eq!(
        market_status_from_response(body),
        Ok(MarketStatusUpdate {
            status: "CLOSE".to_string(),
            is_open: false,
            as_of: Some("2026-06-25T09:15:00Z".to_string()),
            last_traded_date: "2026-06-25".to_string(),
        })
    );
}

#[test]
fn rejects_blank_last_traded_date_from_market_status_response() {
    let body = r#"{
        "data": {
            "status": "CLOSE",
            "is_open": false,
            "as_of": "2026-06-25T09:15:00Z",
            "last_traded_date": "   "
        }
    }"#;

    assert_eq!(market_status_from_response(body), Err(MeroAlphaApiError::MissingPrice));
}

#[test]
fn market_status_defaults_and_root_object() {
    let body = obj(vec![("data", Json::Array(vec![])), ("last_traded_date", text(" 2026-01-02 ")), ("is_open", text("yes"))]);
    assert_eq!(
        market_status_from_json(&body),
        Ok(MarketStatusUpdate {
            status: "UNKNOWN".to_string(),
            is_open: false,
            as_of: None,
            last_traded_date: "2026-01-02".to_string(),
        })
    );
}

#[test]
fn company_symbols_are_trimmed_upper_case_and_non_empty() {
    let body = obj(vec![(
        "data",
        Json::Array(vec![
            obj(vec![("symbol", text(" nabil "))]),
            obj(vec![("ticker", text("hdl"))]),
            obj(vec![("scrip", text("  "))]),
            obj(vec![("name", text("no symbol"))]),
        ]),
    )]);
    assert_eq!(company_symbols_from_json(&body), Ok(vec!["NABIL".to_string(), "HDL".to_string()]));
    let text_body = r#"{"data": [{"symbol": " nabil "}, {"ticker": "hdl"}, {"scrip": "  "}]}"#;
    assert_eq!(company_symbols_from_response(text_body), Ok(vec!["NABIL".to_string(), "HDL".to_string()]));
    assert_eq!(company_symbols_from_json(&Json::Null), Err(MeroAlphaApiError::MissingPrice));
}

#[test]
fn builds_refresh_paths_for_equity_and_mutual_fund_routes() {
    assert_eq!(
        daily_price_path("NABIL", "2026-06-25"),
        "/v1/prices/daily?symbol=NABIL&date=2026-06-25&adjusted=false&limit=1"
    );
    assert_eq!(mutual_fund_nav_path("NICADF"), "/v1/mutual-funds/nav?symbol=NICADF&period=range&limit=1");
}

#[test]
fn builds_market_movers_path_from_trade_date() {
    assert_eq!(market_movers_path("2026-06-25", 10), "/v1/market/movers?date=2026-06-25&limit=10");
}

#[test]
fn paths_trim_and_upper_case_their_inputs() {
    assert_eq!(
        daily_price_path(" nabil ", " 2026-06-25 "),
        "/v1/prices/daily?symbol=NABIL&date=2026-06-25&adjusted=false&limit=1"
    );
    assert_eq!(market_movers_path("d", 0), "/v1/market/movers?date=d&limit=0");
    assert_eq!(market_movers_path("d", 1234567), "/v1/market/movers?date=d&limit=1234567");
}

#[test]
fn classifies_missing_or_not_found_prices_as_unavailable() {
    assert!(MeroAlphaApiError::MissingPrice.is_unavailable_price());
    assert!(MeroAlphaApiError::HttpStatus { route: "/v1/mutual-funds/nav".to_string(), status: 404 }
        .is_unavailable_price());
    assert!(MeroAlphaApiError::HttpStatus { route: "/v1/mutual-funds/nav".to_string(), status: 403 }
        .is_unavailable_price());

    assert!(!MeroAlphaApiError::Http("connection refused".to_string()).is_unavailable_price());
    assert!(!MeroAlphaApiError::HttpStatus { route: "/v1/prices/daily".to_string(), status: 403 }
        .is_unavailable_price());
    assert!(!MeroAlphaApiError::InvalidJson("expected value".to_string()).is_unavailable_price());
}

#[test]
fn request_routes_drop_the_query() {
    assert_eq!(request_route("/v1/indices?limit=10"), "/v1/indices");
    assert_eq!(request_route("/v1/market/status"), "/v1/market/status");
    assert_eq!(request_route("?x"), "");
}

#[test]
fn client_builds_urls_and_authorization() {
    let client = MeroAlphaClient::new("secret".to_string());
    assert_eq!(client.base_url(), "https://api.meroalpha.com");
    assert_eq!(client.request_url("/v1/market/status"), "https://api.meroalpha.com/v1/market/status");
    assert_eq!(client.authorization(), "Bearer secret");
}

#[test]
fn body_snippets_collapse_white_space_and_are_cut_at_500_characters() {
    assert_eq!(debug_body_snippet("  {\n  \"a\":\t1 }  "), "{ \"a\": 1 }");
    let long = "x".repeat(600);
    let snippet = debug_body_snippet(&long);
    assert_eq!(snippet.chars().count(), 503);
    assert!(snippet.ends_with("..."));
    assert_eq!(debug_body_snippet(&"y".repeat(500)), "y".repeat(500));
}

fn status_body(date: &str) -> String {
    format!(r#"{{"data": {{"status": "OPEN", "is_open": true, "last_traded_date": "{date}"}}}}"#)
}

fn request_path<T>(step: RefreshStep<T>) -> String {
    match step {
        RefreshStep::Request(path) => path,
        RefreshStep::Finished(_) => panic!("expected a request"),
    }
}

#[test]
fn price_refresh_falls_back_to_nav_only_after_a_400() {
    let symbols = vec![" nabil ".to_string(), "nicadf".to_string(), "gone".to_string()];
    let (mut refresh, first) = PriceRefresh::start(&symbols);
    assert_eq!(first, "/v1/market/status");
    let step = refresh.advance(Ok(status_body("2026-06-25")));
    assert_eq!(request_path(step), daily_price_path("NABIL", "2026-06-25"));
    let step = refresh.advance(Ok(r#"{"data": [{"close": 612.4}]}"#.to_string()));
    assert_eq!(request_path(step), daily_price_path("NICADF", "2026-06-25"));
    let rejected = Err(MeroAlphaApiError::HttpStatus { route: "/v1/prices/daily".to_string(), status: 400 });
    let step = refresh.advance(rejected);
    assert_eq!(refresh.stage(), PriceStage::AwaitingNav);
    assert_eq!(request_path(step), mutual_fund_nav_path("NICADF"));
    let step = refresh.advance(Ok(r#"{"data": [{"nav": "10.07"}]}"#.to_string()));
    assert_eq!(request_path(step), daily_price_path("GONE", "2026-06-25"));
    let not_found = Err(MeroAlphaApiError::HttpStatus { route: "/v1/prices/daily".to_string(), status: 404 });
    let results = match refresh.advance(not_found) {
        RefreshStep::Finished(results) => results,
        RefreshStep::Request(path) => panic!("unexpected request {path}"),
    };
    assert_eq!(refresh.stage(), PriceStage::Done);
    assert_eq!(results.len(), 3);
    let first = results[0].as_ref().expect("updated");
    assert_eq!((first.symbol.as_str(), value(&first.ltp)), ("NABIL", 612.4));
    let second = results[1].as_ref().expect("updated from NAV");
    assert_eq!((second.symbol.as_str(), value(&second.ltp)), ("NICADF", 10.07));
    let third = results[2].as_ref().expect_err("failed");
    assert_eq!(third.symbol, "GONE");
    assert!(third.error.is_unavailable_price());
}

#[test]
fn price_refresh_fails_every_symbol_when_the_market_status_fails() {
    let symbols = vec!["a".to_string(), "b".to_string()];
    let (mut refresh, _) = PriceRefresh::start(&symbols);
    match refresh.advance(Err(MeroAlphaApiError::Http("offline".to_string()))) {
        RefreshStep::Finished(results) => {
            assert_eq!(results.len(), 2);
            for (result, symbol) in results.iter().zip(["A", "B"]) {
                let failure = result.as_ref().expect_err("failed");
                assert_eq!(failure.symbol, symbol);
                assert_eq!(failure.error, MeroAlphaApiError::Http("offline".to_string()));
            }
        },
        RefreshStep::Request(path) => panic!("unexpected request {path}"),
    }
}

#[test]
fn overview_refresh_uses_sub_indices_when_indices_are_empty() {
    let (mut refresh, first) = OverviewRefresh::start();
    assert_eq!(first, "/v1/market/status");
    assert_eq!(request_path(refresh.advance(Ok(status_body("2026-06-25")))), "/v1/indices?limit=10");
    assert_eq!(request_path(refresh.advance(Ok(r#"{"data": []}"#.to_string()))), "/v1/sub-indices?limit=10");
    let rows: Vec<String> = (0..6).map(|i| format!(r#"{{"name": "I{i}", "value": 1}}"#)).collect();
    let step = refresh.advance(Ok(format!(r#"{{"data": [{}]}}"#, rows.join(", "))));
    assert_eq!(request_path(step), "/v1/market/movers?date=2026-06-25&limit=10");
    assert_eq!(refresh.stage(), OverviewStage::AwaitingMovers);
    let movers = r#"{"data": {"top_gainers": [{"symbol": "G", "ltp": 2}]}}"#.to_string();
    match refresh.advance(Ok(movers)) {
        RefreshStep::Finished(Ok(data)) => {
            assert_eq!(data.market_status.last_traded_date, "2026-06-25");
            assert!(data.market_status.is_open);
            assert_eq!(data.indices.iter().map(|i| i.label.as_str()).collect::<Vec<_>>(), vec!["I0", "I1", "I2", "I3"]);
            assert_eq!(data.gainers.len(), 1);
            assert!(data.losers.is_empty() && data.turnover.is_empty());
        },
        _ => panic!("expected market data"),
    }
}

#[test]
fn overview_refresh_stops_at_the_first_failure() {
    let (mut refresh, _) = OverviewRefresh::start();
    refresh.advance(Ok(status_body("2026-06-25")));
    match refresh.advance(Ok("{ truncated".to_string())) {
        RefreshStep::Finished(Err(e)) => assert!(matches!(e, MeroAlphaApiError::InvalidJson(_))),
        _ => panic!("expected the failure"),
    }
    assert_eq!(refresh.stage(), OverviewStage::Done);
}
