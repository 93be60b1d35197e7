use meroalpha_terminal::components::overview::{
    financial_direction_icon, market_empty_icon, portfolio_change_label, portfolio_direction_icon,
};
use meroalpha_terminal::components::sidebar::{api_key_visibility_icon, api_key_visibility_tooltip};
use meroalpha_terminal::components::theme::IconKind;
use meroalpha_terminal::format::{format_amount, format_whole_amount};
use meroalpha_terminal::meroalpha_api::{
    MarketIndexUpdate, MarketMoverUpdate, MarketStatusUpdate, OverviewMarketData,
};
use meroalpha_terminal::numeric::NumericText;
use meroalpha_terminal::overview::{
    allocation_risk_label, FinancialDirection, MarketMover, MarketStatus, MoverTab, OverviewSnapshot,
    PortfolioPerformance,
};

// Display rules for the pulse cards and mover rows, as the terminal renders them.
fn number(n: &NumericText) -> f64 {
    n.as_str().parse::<f64>().expect("number text parses")
}

fn display_zero(value: f64) -> bool {
    (value * 100.0).round() == 0.0
}

fn direction(value: f64) -> FinancialDirection {
    if display_zero(value) {
        FinancialDirection::Flat
    } else if value > 0.0 {
        FinancialDirection::Up
    } else {
        FinancialDirection::Down
    }
}

fn signed_percent(value: f64) -> String {
    if display_zero(value) { "0.00%".to_string() } else { format!("{value:+.2}%") }
}

fn change_text(change: f64, change_pct: f64) -> String {
    let change = if display_zero(change) { "0.00".to_string() } else { format!("{change:+.2}") };
    format!("{change} ({})", signed_percent(change_pct))
}

fn amount(value: f64) -> String {
    format_amount(value < 0.0, &format!("{:.2}", value.abs()))
}

#[derive(Debug, Clone, PartialEq)]
struct Card {
    label: String,
    value: String,
    change: String,
    direction: FinancialDirection,
}

fn card(update: &MarketIndexUpdate) -> Card {
    let change = number(&update.change);
    let change_pct = number(&update.change_pct);
    Card {
        label: update.label.clone(),
        value: amount(number(&update.value)),
        change: change_text(change, change_pct),
        direction: FinancialDirection::from_change(direction(change), direction(change_pct)),
    }
}

fn mover(update: &MarketMoverUpdate, tab: MoverTab) -> MarketMover {
    let ltp = number(&update.ltp);
    let previous = update.previous_close.as_ref().map(number);
    let change = update.change.as_ref().map(number).or(previous.map(|p| ltp - p)).unwrap_or(0.0);
    let change_pct = update
        .change_pct
        .as_ref()
        .map(number)
        .or(previous.map(|p| if p == 0.0 { 0.0 } else { change / p * 100.0 }))
        .unwrap_or(0.0);
    let metric = if tab == MoverTab::Turnover { number(&update.turnover) } else { number(&update.volume) };
    MarketMover {
        symbol: update.symbol.clone(),
        ltp: amount(ltp),
        change: change_text(change, change_pct),
        volume: format_whole_amount(metric < 0.0, &format!("{:.0}", metric.abs())),
        direction: FinancialDirection::from_change(direction(change), direction(change_pct)),
    }
}

fn n(text: &str) -> NumericText {
    NumericText::parse(text).expect("number text")
}

fn index(label: &str, value: &str, change: &str, change_pct: &str) -> MarketIndexUpdate {
    MarketIndexUpdate { label: label.to_string(), value: n(value), change: n(change), change_pct: n(change_pct) }
}

fn row(symbol: &str, ltp: &str, change: &str, change_pct: &str, volume: &str, turnover: &str) -> MarketMoverUpdate {
    MarketMoverUpdate {
        symbol: symbol.to_string(),
        ltp: n(ltp),
        change: Some(n(change)),
        change_pct: Some(n(change_pct)),
        previous_close: None,
        volume: n(volume),
        turnover: n(turnover),
    }
}

fn closed(date: &str, as_of: Option<&str>) -> MarketStatusUpdate {
    MarketStatusUpdate {
        status: "CLOSE".to_string(),
        is_open: false,
        as_of: as_of.map(|s| s.to_string()),
        last_traded_date: date.to_string(),
    }
}

fn waiting() -> OverviewSnapshot<Card> {
    OverviewSnapshot::from_portfolio(PortfolioPerformance::empty())
}

fn empty_market(date: &str) -> OverviewMarketData {
    OverviewMarketData {
        market_status: closed(date, None),
        indices: Vec::new(),
        gainers: Vec::new(),
        losers: Vec::new(),
        turnover: Vec::new(),
    }
}

#[test]
fn overview_snapshot_is_stable_without_imported_holdings() {
    let overview = waiting();

    assert_eq!(overview.market_pulse.len(), 0);
    assert_eq!(overview.top_movers.len(), 0);
    assert_eq!(overview.portfolio.total_value_label, "No holdings");
    assert_eq!(overview.portfolio.change_label, "Portfolio inactive");
    assert_eq!(overview.portfolio.change_pct_label, "");
    assert_eq!(overview.market_status.label, "Waiting");
    assert!(!overview.market_status.live);
    assert!(overview.portfolio.is_empty);
}

#[test]
fn overview_snapshot_marks_market_status_live_when_api_data_loads() {
    let data = OverviewMarketData {
        market_status: closed("2026-06-25", Some("2026-06-25T09:15:00Z")),
        indices: vec![index("NEPSE", "2100.0", "12.5", "0.6")],
        gainers: vec![row("NABIL", "600.0", "10.0", "1.7", "12000.0", "7200000.0")],
        losers: Vec::new(),
        turnover: Vec::new(),
    };
    let overview = waiting().with_market_data(&data, MoverTab::Gainers, card, mover);

    assert_eq!(overview.market_status.label, "Closed");
    assert!(!overview.market_status.live);
    assert_eq!(overview.last_updated, "2026-06-25");
}

#[test]
fn overview_snapshot_uses_selected_mover_tab() {
    let data = OverviewMarketData {
        market_status: closed("2026-06-25", None),
        indices: Vec::new(),
        gainers: vec![row("GAIN", "100.0", "10.0", "11.1", "1000.0", "100000.0")],
        losers: vec![row("LOSE", "90.0", "-5.0", "-5.2", "2000.0", "180000.0")],
        turnover: vec![row("TURN", "50.0", "1.0", "2.0", "3000.0", "900000.0")],
    };

    let overview = waiting().with_market_data(&data, MoverTab::Turnover, card, mover);

    assert_eq!(overview.selected_mover_tab, MoverTab::Turnover);
    assert_eq!(overview.mover_metric_label, "TURNOVER (NPR)");
    assert_eq!(overview.top_movers[0].symbol, "TURN");
    assert_eq!(overview.top_movers[0].volume, "900,000");
}

#[test]
fn market_error_status_is_distinct_from_closed_market() {
    let overview = waiting().with_market_error();

    assert!(overview.market_status.is_error());
    assert!(!MarketStatus::waiting().is_error());
}

#[test]
fn market_recency_label_describes_data_state() {
    assert_eq!(waiting().market_recency_label(), "Waiting for API");
    assert_eq!(waiting().with_market_error().market_recency_label(), "Request failed");
    let loaded = waiting().with_market_data(&empty_market("2026-06-25"), MoverTab::Gainers, card, mover);
    assert_eq!(loaded.market_recency_label(), "Last traded 2026-06-25");
}

#[test]
fn mover_tabs_explain_their_sort_order() {
    assert_eq!(MoverTab::Gainers.description(), "Highest positive price moves");
    assert_eq!(MoverTab::Losers.description(), "Largest negative price moves");
    assert_eq!(MoverTab::Turnover.description(), "Highest traded value");
}

#[test]
fn mover_tabs_have_specific_empty_messages() {
    assert_eq!(MoverTab::Gainers.empty_message(), "No gainers returned.");
    assert_eq!(MoverTab::Losers.empty_message(), "No losers returned.");
    assert_eq!(MoverTab::Turnover.empty_message(), "No turnover leaders returned.");
}

#[test]
fn mover_tabs_have_labels_and_metric_labels() {
    assert_eq!(MoverTab::Gainers.label(), "Gainers");
    assert_eq!(MoverTab::Losers.label(), "Losers");
    assert_eq!(MoverTab::Turnover.label(), "Turnover");
    assert_eq!(MoverTab::Gainers.metric_label(), "VOLUME");
    assert_eq!(MoverTab::Losers.metric_label(), "VOLUME");
    assert_eq!(MoverTab::Turnover.metric_label(), "TURNOVER (NPR)");
}

#[test]
fn top_movers_empty_message_reflects_market_state() {
    assert_eq!(waiting().top_movers_empty_message(), "No market API data loaded.");
    assert_eq!(waiting().with_market_error().top_movers_empty_message(), "Market data unavailable.");
    let loaded = waiting().with_market_data(&empty_market("2026-06-25"), MoverTab::Turnover, card, mover);
    assert_eq!(loaded.top_movers_empty_message(), "No turnover leaders returned.");
}

#[test]
fn market_status_badge_label_is_human_readable() {
    assert_eq!(MarketStatus::waiting().badge_label(), "Waiting");
    assert_eq!(MarketStatus::api_error().badge_label(), "API Error");
    assert_eq!(MarketStatus { label: "Open", live: true }.badge_label(), "Market Open");
    assert_eq!(MarketStatus { label: "Closed", live: false }.badge_label(), "Market Closed");
}

#[test]
fn market_empty_copy_is_actionable() {
    assert_eq!(MarketStatus::api_error().empty_title(), "Market data unavailable");
    assert_eq!(
        MarketStatus::api_error().empty_detail(),
        "Refresh again, or check your API key and connection."
    );
    assert_eq!(MarketStatus::waiting().empty_title(), "No market API data loaded");
    assert_eq!(
        MarketStatus::waiting().empty_detail(),
        "Set an API key in Profile & API, then refresh Overview."
    );
}

fn one_index_and_mover(change: &str, change_pct: &str, mover_change: &str, mover_pct: &str) -> OverviewMarketData {
    OverviewMarketData {
        market_status: closed("2026-06-25", None),
        indices: vec![index("NEPSE", "2651.52", change, change_pct)],
        gainers: vec![row("FLAT", "100.0", mover_change, mover_pct, "1000.0", "100000.0")],
        losers: Vec::new(),
        turnover: Vec::new(),
    }
}

#[test]
fn zero_market_moves_are_neutral() {
    let data = one_index_and_mover("0.0", "0.0", "0.0", "0.0");
    let overview = waiting().with_market_data(&data, MoverTab::Gainers, card, mover);

    assert_eq!(overview.market_pulse[0].direction, FinancialDirection::Flat);
    assert_eq!(overview.market_pulse[0].change, "0.00 (0.00%)");
    assert_eq!(overview.top_movers[0].direction, FinancialDirection::Flat);
    assert_eq!(overview.top_movers[0].change, "0.00 (0.00%)");
}

#[test]
fn tiny_market_moves_that_display_as_zero_are_neutral() {
    let data = one_index_and_mover("0.004", "-0.004", "-0.004", "0.004");
    let overview = waiting().with_market_data(&data, MoverTab::Gainers, card, mover);

    assert_eq!(overview.market_pulse[0].direction, FinancialDirection::Flat);
    assert_eq!(overview.market_pulse[0].change, "0.00 (0.00%)");
    assert_eq!(overview.top_movers[0].direction, FinancialDirection::Flat);
    assert_eq!(overview.top_movers[0].change, "0.00 (0.00%)");
}

#[test]
fn market_direction_uses_percent_when_change_displays_flat() {
    let data = one_index_and_mover("0.004", "0.25", "-0.004", "-0.25");
    let overview = waiting().with_market_data(&data, MoverTab::Gainers, card, mover);

    assert_eq!(overview.market_pulse[0].direction, FinancialDirection::Up);
    assert_eq!(overview.market_pulse[0].change, "0.00 (+0.25%)");
    assert_eq!(overview.top_movers[0].direction, FinancialDirection::Down);
    assert_eq!(overview.top_movers[0].change, "0.00 (-0.25%)");
}

#[test]
fn direction_of_a_flat_change_is_the_direction_of_its_percent() {
    let (up, down, flat) = (FinancialDirection::Up, FinancialDirection::Down, FinancialDirection::Flat);
    for pct in [up, down, flat] {
        assert_eq!(FinancialDirection::from_change(flat, pct), pct);
        assert_eq!(FinancialDirection::from_change(up, pct), up);
        assert_eq!(FinancialDirection::from_change(down, pct), down);
    }
}

#[test]
fn allocation_risk_follows_position_count() {
    assert_eq!(allocation_risk_label(0), "Concentrated");
    assert_eq!(allocation_risk_label(4), "Concentrated");
    assert_eq!(allocation_risk_label(5), "Moderate");
    assert_eq!(allocation_risk_label(11), "Moderate");
    assert_eq!(allocation_risk_label(12), "Diversified");
    let loaded = PortfolioPerformance::loaded(
        "NPR 9,700.00".to_string(),
        "+NPR 1,100.00".to_string(),
        "+12.79%".to_string(),
        2,
        FinancialDirection::Up,
    );
    assert_eq!(loaded.risk_label, "Local Portfolio");
    assert_eq!(loaded.risk_score_label, "Concentrated");
    assert!(!loaded.is_empty);
}

#[test]
fn financial_direction_icon_matches_sign() {
    assert!(matches!(financial_direction_icon(FinancialDirection::Up), IconKind::ArrowUp));
    assert!(matches!(financial_direction_icon(FinancialDirection::Down), IconKind::ArrowDown));
    assert!(matches!(financial_direction_icon(FinancialDirection::Flat), IconKind::Minus));
}

fn empty_performance() -> PortfolioPerformance {
    PortfolioPerformance {
        total_value_label: "No holdings".to_string(),
        change_label: "Portfolio inactive".to_string(),
        change_pct_label: String::new(),
        risk_label: "Awaiting holdings",
        risk_score_label: "0 positions",
        direction: FinancialDirection::Flat,
        is_empty: true,
    }
}

#[test]
fn portfolio_direction_icon_is_neutral_when_empty() {
    let empty = empty_performance();
    let positive = PortfolioPerformance { direction: FinancialDirection::Up, is_empty: false, ..empty.clone() };
    let negative = PortfolioPerformance { direction: FinancialDirection::Down, is_empty: false, ..empty.clone() };

    assert!(matches!(portfolio_direction_icon(&empty), IconKind::Info));
    assert!(matches!(portfolio_direction_icon(&positive), IconKind::ArrowUp));
    assert!(matches!(portfolio_direction_icon(&negative), IconKind::ArrowDown));
}

#[test]
fn portfolio_change_label_omits_percent_when_empty() {
    let empty = empty_performance();
    let loaded = PortfolioPerformance {
        change_label: "+NPR 10.00".to_string(),
        change_pct_label: "+1.00%".to_string(),
        is_empty: false,
        ..empty.clone()
    };

    assert_eq!(portfolio_change_label(&empty), "Portfolio inactive");
    assert_eq!(portfolio_change_label(&loaded), "+NPR 10.00 (+1.00%)");
}

#[test]
fn market_empty_icon_distinguishes_api_error() {
    let error = MarketStatus { label: "API Error", live: false };
    let waiting = MarketStatus { label: "Waiting", live: false };

    assert!(matches!(market_empty_icon(&error), IconKind::TriangleAlert));
    assert!(matches!(market_empty_icon(&waiting), IconKind::Info));
}

#[test]
fn api_key_visibility_icon_matches_current_visibility() {
    assert!(matches!(api_key_visibility_icon(true), IconKind::Eye));
    assert!(matches!(api_key_visibility_icon(false), IconKind::EyeOff));
}

#[test]
fn api_key_visibility_tooltip_matches_current_visibility() {
    assert_eq!(api_key_visibility_tooltip(true), "Hide API key");
    assert_eq!(api_key_visibility_tooltip(false), "Show API key");
}

#[test]
fn status_from_market_data_follows_is_open() {
    let mut open = closed("d", None);
    open.is_open = true;
    assert_eq!(MarketStatus::from_update(&open), MarketStatus { label: "Open", live: true });
    assert_eq!(MarketStatus::from_update(&closed("d", None)), MarketStatus { label: "Closed", live: false });
}
