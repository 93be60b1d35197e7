use meroalpha_terminal::components::theme::{IconKind, StatusKind};
use meroalpha_terminal::meroalpha_api::{MarketIndexUpdate, MarketMoverUpdate, MarketStatusUpdate, OverviewMarketData};
use meroalpha_terminal::overview::{MarketMover, MoverTab, PortfolioPerformance};
use meroalpha_terminal::portfolio::AppSettings;
use meroalpha_terminal::terminal::{
    notification_kind_for_status, overview_snapshot_for_route, plan_overview_refresh, plan_price_refresh, price_refresh_disabled,
    price_refresh_messages, price_refresh_status, price_refresh_status_kind, price_refresh_tooltip,
    AppNotificationKind, AppRoute, PriceRefreshMessages, PriceRefreshPlan,
};

fn card(update: &MarketIndexUpdate) -> String {
    update.label.clone()
}

fn mover(update: &MarketMoverUpdate, _tab: MoverTab) -> MarketMover {
    MarketMover {
        symbol: update.symbol.clone(),
        ltp: update.ltp.as_str().to_string(),
        change: String::new(),
        volume: String::new(),
        direction: meroalpha_terminal::overview::FinancialDirection::Flat,
    }
}

#[test]
fn maps_price_refresh_status_to_notification_kind() {
    assert_eq!(notification_kind_for_status("Updated 4 prices from MeroAlpha."), AppNotificationKind::Success);
    assert_eq!(
        notification_kind_for_status("No upstream prices updated. Kept local valuation for 2 unavailable symbols."),
        AppNotificationKind::Warning
    );
}

#[test]
fn app_route_keys_are_stable_for_sidebar_selection() {
    assert_eq!(AppRoute::Overview.key(), "overview");
    assert_eq!(AppRoute::Portfolio.key(), "portfolio");
}

#[test]
fn sidebar_routes_only_include_working_pages() {
    assert_eq!(AppRoute::sidebar_routes(), &[AppRoute::Overview, AppRoute::Portfolio]);
}

#[test]
fn price_refresh_button_requires_api_key_and_idle_state() {
    assert!(price_refresh_disabled(false, false));
    assert_eq!(price_refresh_tooltip(false, false), "Set API key to refresh prices");

    assert!(price_refresh_disabled(true, true));
    assert_eq!(price_refresh_tooltip(true, true), "Refreshing prices");

    assert!(!price_refresh_disabled(true, false));
    assert_eq!(price_refresh_tooltip(true, false), "Refresh Prices");
}

#[test]
fn overview_error_wins_over_stale_market_data() {
    let data = OverviewMarketData {
        market_status: MarketStatusUpdate {
            status: "CLOSE".to_string(),
            is_open: false,
            as_of: None,
            last_traded_date: "2026-06-25".to_string(),
        },
        indices: Vec::new(),
        gainers: Vec::new(),
        losers: Vec::new(),
        turnover: Vec::new(),
    };
    let overview = overview_snapshot_for_route(
        PortfolioPerformance::empty(),
        Some(&data),
        true,
        MoverTab::Gainers,
        card,
        mover,
    );

    assert!(overview.market_status.is_error());
    assert_eq!(overview.market_recency_label(), "Request failed");
    assert_eq!(overview.selected_mover_tab, MoverTab::Gainers);
}

#[test]
fn overview_route_preserves_selected_tab_without_market_rows() {
    let waiting = overview_snapshot_for_route(PortfolioPerformance::empty(), None, false, MoverTab::Turnover, card, mover);
    assert_eq!(waiting.selected_mover_tab, MoverTab::Turnover);
    assert_eq!(waiting.mover_metric_label, "TURNOVER (NPR)");

    let failed = overview_snapshot_for_route(PortfolioPerformance::empty(), None, true, MoverTab::Losers, card, mover);
    assert_eq!(failed.selected_mover_tab, MoverTab::Losers);
    assert_eq!(failed.mover_metric_label, "VOLUME");
}

#[test]
fn notification_kinds_have_status_colours_and_icons() {
    assert_eq!(AppNotificationKind::Info.status_kind(), StatusKind::Info);
    assert_eq!(AppNotificationKind::Success.status_kind(), StatusKind::Success);
    assert_eq!(AppNotificationKind::Warning.status_kind(), StatusKind::Warning);
    assert_eq!(AppNotificationKind::Error.status_kind(), StatusKind::Error);
    assert_eq!(AppNotificationKind::Info.icon(), IconKind::Info);
    assert_eq!(AppNotificationKind::Success.icon(), IconKind::CircleCheck);
    assert_eq!(AppNotificationKind::Warning.icon(), IconKind::TriangleAlert);
    assert_eq!(AppNotificationKind::Error.icon(), IconKind::CircleX);
}

#[test]
fn price_refresh_summary_counts_each_outcome() {
    assert_eq!(price_refresh_status(4, 0, 0), "Updated 4 prices from MeroAlpha.");
    assert_eq!(
        price_refresh_status(0, 2, 1),
        "No upstream prices updated. Kept local valuation for 2 unavailable symbols. Applied NPR 1.00 local floor to 1 symbols."
    );
    assert_eq!(price_refresh_status_kind("Updated 12 prices from MeroAlpha."), StatusKind::Success);
    assert_eq!(price_refresh_status_kind(&price_refresh_status(3, 1, 0)), StatusKind::Warning);
}

#[test]
fn price_refresh_messages_prefer_storage_errors_then_failures() {
    let none: Vec<String> = Vec::new();
    let storage = vec!["Could not save A".to_string(), "Could not save B".to_string()];
    assert_eq!(
        price_refresh_messages(&storage, 3, 0, 0, 0, None, None),
        PriceRefreshMessages { status: None, error: Some("Could not save A; Could not save B".to_string()) }
    );
    assert_eq!(
        price_refresh_messages(&none, 0, 0, 0, 2, Some("X: Http(\"down\")".to_string()), None),
        PriceRefreshMessages { status: None, error: Some("No prices updated. X: Http(\"down\")".to_string()) }
    );
    assert_eq!(
        price_refresh_messages(&none, 0, 0, 0, 0, None, None),
        PriceRefreshMessages { status: None, error: Some("No prices updated. No response data.".to_string()) }
    );
    assert_eq!(
        price_refresh_messages(&none, 2, 1, 1, 0, None, Some("old".to_string())),
        PriceRefreshMessages { status: Some(price_refresh_status(2, 1, 1)), error: None }
    );
    assert_eq!(
        price_refresh_messages(&none, 2, 1, 0, 3, None, Some("old".to_string())),
        PriceRefreshMessages {
            status: Some("Updated 2 prices; kept local valuation for 1 unavailable symbols; 3 symbols failed.".to_string()),
            error: Some("old".to_string()),
        }
    );
}

#[test]
fn price_refresh_needs_a_key_and_holdings() {
    let no_key = AppSettings { profile_name: "P".to_string(), meroalpha_api_key: Some("  ".to_string()) };
    assert_eq!(
        plan_price_refresh(&no_key, vec!["NABIL".to_string()]),
        PriceRefreshPlan::Blocked("Set your MeroAlpha API key first.")
    );
    let key = AppSettings { profile_name: "P".to_string(), meroalpha_api_key: Some(" k ".to_string()) };
    assert_eq!(plan_price_refresh(&key, Vec::new()), PriceRefreshPlan::Blocked("Import holdings before refreshing prices."));
    assert_eq!(
        plan_price_refresh(&key, vec!["A".to_string(), "B".to_string()]),
        PriceRefreshPlan::Start {
            api_key: "k".to_string(),
            symbols: vec!["A".to_string(), "B".to_string()],
            status: "Refreshing 2 prices...".to_string(),
            notice: "Fetching latest prices for 2 holdings.".to_string(),
        }
    );
}

#[test]
fn overview_refresh_needs_a_key() {
    let none = AppSettings { profile_name: "P".to_string(), meroalpha_api_key: None };
    assert_eq!(plan_overview_refresh(&none), Err("Set your MeroAlpha API key first."));
    let blank = AppSettings { profile_name: "P".to_string(), meroalpha_api_key: Some(" \t ".to_string()) };
    assert_eq!(plan_overview_refresh(&blank), Err("Set your MeroAlpha API key first."));
    let key = AppSettings { profile_name: "P".to_string(), meroalpha_api_key: Some(" ma_key ".to_string()) };
    assert_eq!(plan_overview_refresh(&key), Ok("ma_key".to_string()));
}

fn unlabelled_mover(update: &MarketMoverUpdate, _tab: MoverTab) -> MarketMover {
    MarketMover {
        symbol: "?".to_string(),
        ltp: update.ltp.as_str().to_string(),
        change: String::new(),
        volume: String::new(),
        direction: meroalpha_terminal::overview::FinancialDirection::Flat,
    }
}

#[test]
fn overview_rows_carry_the_symbols_of_the_selected_list_in_order() {
    let n = |t: &str| meroalpha_terminal::numeric::NumericText::parse(t).expect("number");
    let row = |symbol: &str, ltp: &str| MarketMoverUpdate {
        symbol: symbol.to_string(),
        ltp: n(ltp),
        change: None,
        change_pct: None,
        previous_close: None,
        volume: n("0"),
        turnover: n("0"),
    };
    let data = OverviewMarketData {
        market_status: MarketStatusUpdate {
            status: "OPEN".to_string(),
            is_open: true,
            as_of: None,
            last_traded_date: "2026-06-25".to_string(),
        },
        indices: Vec::new(),
        gainers: vec![row("A", "1")],
        losers: vec![row("L1", "2"), row("L2", "3")],
        turnover: Vec::new(),
    };
    let overview = overview_snapshot_for_route(
        PortfolioPerformance::empty(),
        Some(&data),
        false,
        MoverTab::Losers,
        card,
        unlabelled_mover,
    );
    assert_eq!(
        overview.top_movers.iter().map(|m| (m.symbol.as_str(), m.ltp.as_str())).collect::<Vec<_>>(),
        vec![("L1", "2"), ("L2", "3")]
    );
    assert_eq!(overview.market_status.label, "Open");
}
