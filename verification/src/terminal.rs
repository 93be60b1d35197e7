//! Decisions of the terminal window: routes, notifications, the price refresh
//! button, the messages of a price refresh, and the Overview route's state.
use vstd::prelude::*;

use crate::components::theme::{IconKind, StatusKind};
use crate::format::{decimal, decimal_string};
use crate::meroalpha_api::{MarketIndexUpdate, MarketMoverUpdate, OverviewMarketData};
use crate::overview::{
    api_error_label, bucket_for, shows_market_data, metric_label_of, request_failed_text, waiting_text, MarketMover,
    MoverTab, OverviewSnapshot, PortfolioPerformance,
};
use crate::portfolio::{configured_api_key, normalized_api_key, option_view, AppSettings};
use crate::text::{contains, join, join_strings, owned, push_str, str_contains};

verus! {

broadcast use vstd::string::group_string_axioms;

/// The kinds of notification the window shows.
#[derive(Debug, Clone, Copy, PartialEq, Eq, Structural)]
pub enum AppNotificationKind {
    Info,
    Success,
    Warning,
    Error,
}

impl AppNotificationKind {
    /// The status kind whose colours the notification takes.
    pub fn status_kind(self) -> (r: StatusKind)
        ensures
            r == match self {
                AppNotificationKind::Info => StatusKind::Info,
                AppNotificationKind::Success => StatusKind::Success,
                AppNotificationKind::Warning => StatusKind::Warning,
                AppNotificationKind::Error => StatusKind::Error,
            },
    {
        match self {
            AppNotificationKind::Info => StatusKind::Info,
            AppNotificationKind::Success => StatusKind::Success,
            AppNotificationKind::Warning => StatusKind::Warning,
            AppNotificationKind::Error => StatusKind::Error,
        }
    }

    /// The icon of the notification.
    pub fn icon(self) -> (r: IconKind)
        ensures
            r == match self {
                AppNotificationKind::Info => IconKind::Info,
                AppNotificationKind::Success => IconKind::CircleCheck,
                AppNotificationKind::Warning => IconKind::TriangleAlert,
                AppNotificationKind::Error => IconKind::CircleX,
            },
    {
        match self {
            AppNotificationKind::Info => IconKind::Info,
            AppNotificationKind::Success => IconKind::CircleCheck,
            AppNotificationKind::Warning => IconKind::TriangleAlert,
            AppNotificationKind::Error => IconKind::CircleX,
        }
    }
}

/// The pages of the terminal.
#[derive(Debug, Clone, Copy, PartialEq, Eq, Structural)]
pub enum AppRoute {
    Overview,
    Portfolio,
}

impl AppRoute {
    /// The key that identifies the route's sidebar entry.
    pub fn key(self) -> (r: &'static str)
        ensures
            r@ == match self {
                AppRoute::Overview => "overview"@,
                AppRoute::Portfolio => "portfolio"@,
            },
    {
        match self {
            AppRoute::Overview => "overview",
            AppRoute::Portfolio => "portfolio",
        }
    }

    /// The routes the sidebar lists, in order.
    pub fn sidebar_routes() -> (r: Vec<AppRoute>)
        ensures
            r@ == seq![AppRoute::Overview, AppRoute::Portfolio],
    {
        let v = vec![AppRoute::Overview, AppRoute::Portfolio];
        assert(v@ =~= seq![AppRoute::Overview, AppRoute::Portfolio]);
        v
    }
}

/// The parts of the summary of a successful price refresh.
pub open spec fn refresh_status_parts(updated: nat, unavailable: nat, local_floor_count: nat) -> Seq<Seq<char>> {
    let first = if updated > 0 {
        "Updated "@ + decimal(updated) + " prices from MeroAlpha."@
    } else {
        "No upstream prices updated."@
    };
    let kept: Seq<Seq<char>> = if unavailable > 0 {
        seq!["Kept local valuation for "@ + decimal(unavailable) + " unavailable symbols."@]
    } else {
        seq![]
    };
    let floor: Seq<Seq<char>> = if local_floor_count > 0 {
        seq!["Applied NPR 1.00 local floor to "@ + decimal(local_floor_count) + " symbols."@]
    } else {
        seq![]
    };
    seq![first] + kept + floor
}

/// The summary of a price refresh: how many prices were updated, how many symbols
/// kept their local valuation, and how many got the local price floor.
pub open spec fn refresh_status_text(updated: nat, unavailable: nat, local_floor_count: nat) -> Seq<char> {
    join(refresh_status_parts(updated, unavailable, local_floor_count), seq![' '])
}

fn count_sentence(before: &str, n: usize, after: &str) -> (r: String)
    ensures
        r@ == before@ + decimal(n as nat) + after@,
{
    let mut out = owned(before);
    let digits = decimal_string(n);
    push_str(&mut out, digits.as_str());
    push_str(&mut out, after);
    out
}

/// The summary of a price refresh.
pub fn price_refresh_status(updated: usize, unavailable: usize, local_floor_count: usize) -> (r: String)
    ensures
        r@ == refresh_status_text(updated as nat, unavailable as nat, local_floor_count as nat),
{
    let mut parts: Vec<String> = Vec::new();
    if updated > 0 {
        parts.push(count_sentence("Updated ", updated, " prices from MeroAlpha."));
    } else {
        parts.push(owned("No upstream prices updated."));
    }
    if unavailable > 0 {
        parts.push(count_sentence("Kept local valuation for ", unavailable, " unavailable symbols."));
    }
    if local_floor_count > 0 {
        parts.push(count_sentence("Applied NPR 1.00 local floor to ", local_floor_count, " symbols."));
    }
    assert(parts@.map_values(|p: String| p@) =~= refresh_status_parts(
        updated as nat,
        unavailable as nat,
        local_floor_count as nat,
    ));
    proof {
        reveal_strlit(" ");
        assert(" "@ =~= seq![' ']);
    }
    join_strings(&parts, " ")
}

/// Whether a price refresh summary calls for a warning: no upstream price was
/// updated, or some symbols kept their local valuation.
pub open spec fn is_warning_status(message: Seq<char>) -> bool {
    contains(message, "No upstream"@) || contains(message, "Kept local valuation"@)
}

/// The status kind of a price refresh summary: a warning when no upstream price
/// was updated or some symbols kept their local valuation, a success otherwise.
pub fn price_refresh_status_kind(message: &str) -> (r: StatusKind)
    ensures
        r == if is_warning_status(message@) {
            StatusKind::Warning
        } else {
            StatusKind::Success
        },
{
    if str_contains(message, "No upstream") || str_contains(message, "Kept local valuation") {
        StatusKind::Warning
    } else {
        StatusKind::Success
    }
}

/// The notification kind of a price refresh summary.
pub fn notification_kind_for_status(message: &str) -> (r: AppNotificationKind)
    ensures
        r == if is_warning_status(message@) {
            AppNotificationKind::Warning
        } else {
            AppNotificationKind::Success
        },
{
    if price_refresh_status_kind(message) == StatusKind::Warning {
        AppNotificationKind::Warning
    } else {
        AppNotificationKind::Success
    }
}

/// Whether the price refresh button is disabled: without an API key, or while refreshing.
pub fn price_refresh_disabled(api_key_configured: bool, refreshing: bool) -> (r: bool)
    ensures
        r == (!api_key_configured || refreshing),
{
    !api_key_configured || refreshing
}

/// The tooltip of the price refresh button.
pub fn price_refresh_tooltip(api_key_configured: bool, refreshing: bool) -> (r: &'static str)
    ensures
        r@ == if !api_key_configured {
            "Set API key to refresh prices"@
        } else if refreshing {
            "Refreshing prices"@
        } else {
            "Refresh Prices"@
        },
{
    if !api_key_configured {
        "Set API key to refresh prices"
    } else if refreshing {
        "Refreshing prices"
    } else {
        "Refresh Prices"
    }
}

/// What a click on the price refresh button leads to.
#[derive(Debug, Clone, PartialEq)]
pub enum PriceRefreshPlan {
    /// Nothing is requested; the message says why.
    Blocked(&'static str),
    /// The prices of `symbols` are requested with `api_key`; `status` is shown
    /// while they load and `notice` is announced.
    Start { api_key: String, symbols: Vec<String>, status: String, notice: String },
}

/// What a click on the price refresh button leads to: nothing without an API key
/// or without holdings, else a refresh of every held symbol with the trimmed key.
pub fn plan_price_refresh(settings: &AppSettings, symbols: Vec<String>) -> (r: PriceRefreshPlan)
    ensures
        match normalized_api_key(option_view(settings.meroalpha_api_key)) {
            None => r matches PriceRefreshPlan::Blocked(m) && m@ == "Set your MeroAlpha API key first."@,
            Some(key) => if symbols@.len() == 0 {
                r matches PriceRefreshPlan::Blocked(m) && m@ == "Import holdings before refreshing prices."@
            } else {
                r matches PriceRefreshPlan::Start { api_key, symbols: s, status, notice } && api_key@
                    == key && s == symbols && status@ == "Refreshing "@ + decimal(symbols@.len())
                    + " prices..."@ && notice@ == "Fetching latest prices for "@ + decimal(
                    symbols@.len(),
                ) + " holdings."@
            },
        },
{
    let api_key = match configured_api_key(settings) {
        Some(k) => k,
        None => {
            return PriceRefreshPlan::Blocked("Set your MeroAlpha API key first.");
        },
    };
    if symbols.len() == 0 {
        return PriceRefreshPlan::Blocked("Import holdings before refreshing prices.");
    }
    let count = symbols.len();
    let status = count_sentence("Refreshing ", count, " prices...");
    let notice = count_sentence("Fetching latest prices for ", count, " holdings.");
    PriceRefreshPlan::Start { api_key, symbols, status, notice }
}

/// What an Overview refresh starts with: the trimmed API key, or, when no key
/// is set, the message shown instead.
pub fn plan_overview_refresh(settings: &AppSettings) -> (r: Result<String, &'static str>)
    ensures
        match normalized_api_key(option_view(settings.meroalpha_api_key)) {
            None => r matches Err(m) && m@ == "Set your MeroAlpha API key first."@,
            Some(k) => r matches Ok(s) && s@ == k,
        },
{
    match configured_api_key(settings) {
        Some(k) => Ok(k),
        None => Err("Set your MeroAlpha API key first."),
    }
}

/// The status and the error shown after a price refresh.
#[derive(Debug, Clone, PartialEq)]
pub struct PriceRefreshMessages {
    pub status: Option<String>,
    pub error: Option<String>,
}

pub open spec fn opt(o: Option<String>) -> Option<Seq<char>> {
    option_view(o)
}

/// The messages after a price refresh, from the storage errors, the number of
/// updated prices, of unavailable symbols, of symbols given the local floor, and of
/// symbols that failed otherwise (with the description of the first of those).
/// Storage errors win; a refresh that updated nothing and found nothing
/// unavailable is an error; without other failures the summary is shown; with
/// some, a count of each, and the error shown before stays.
pub open spec fn refresh_messages_of(
    storage_errors: Seq<Seq<char>>,
    updated: nat,
    unavailable: nat,
    local_floor_count: nat,
    failed: nat,
    first_failure: Option<Seq<char>>,
    previous_error: Option<Seq<char>>,
) -> (Option<Seq<char>>, Option<Seq<char>>) {
    if storage_errors.len() > 0 {
        (None, Some(join(storage_errors, "; "@)))
    } else if updated == 0 && unavailable == 0 {
        (
            None,
            Some(
                "No prices updated. "@ + match first_failure {
                    Some(f) => f,
                    None => "No response data."@,
                },
            ),
        )
    } else if failed == 0 {
        (Some(refresh_status_text(updated, unavailable, local_floor_count)), None)
    } else {
        (
            Some(
                "Updated "@ + decimal(updated) + " prices; kept local valuation for "@ + decimal(
                    unavailable,
                ) + " unavailable symbols; "@ + decimal(failed) + " symbols failed."@,
            ),
            previous_error,
        )
    }
}

/// A refresh without storage errors or hard failures that kept at least one
/// symbol at its local valuation is no error: its status is the summary, also
/// when no upstream price was updated. When nothing was updated and nothing was
/// unavailable, the refresh is an error and shows no status.
pub proof fn law_unavailable_symbols_are_no_error(
    updated: nat,
    unavailable: nat,
    local_floor_count: nat,
    first_failure: Option<Seq<char>>,
    previous_error: Option<Seq<char>>,
)
    ensures
        unavailable > 0 ==> refresh_messages_of(seq![], updated, unavailable, local_floor_count, 0, first_failure, previous_error)
            == (Some(refresh_status_text(updated, unavailable, local_floor_count)), None::<Seq<char>>),
        unavailable > 0 && updated == 0 && local_floor_count == 0 ==> refresh_messages_of(seq![], 0, unavailable, 0, 0, first_failure, previous_error)
            == (Some("No upstream prices updated."@ + " "@ + ("Kept local valuation for "@ + decimal(unavailable) + " unavailable symbols."@)), None::<Seq<char>>),
        updated == 0 && unavailable == 0 ==> refresh_messages_of(seq![], 0, 0, local_floor_count, 0, first_failure, previous_error).0 is None
            && refresh_messages_of(seq![], 0, 0, local_floor_count, 0, first_failure, previous_error).1 is Some,
{
    if unavailable > 0 && updated == 0 && local_floor_count == 0 {
        let parts = refresh_status_parts(0, unavailable, 0);
        assert(parts =~= seq!["No upstream prices updated."@, "Kept local valuation for "@ + decimal(unavailable) + " unavailable symbols."@]);
        assert(parts.drop_last() =~= seq!["No upstream prices updated."@]);
        assert(join(parts.drop_last(), seq![' ']) == "No upstream prices updated."@);
        assert(join(parts, seq![' ']) == join(parts.drop_last(), seq![' ']) + seq![' '] + parts.last());
        assert(seq![' '] =~= " "@) by {
            reveal_strlit(" ");
        }
    }
}

/// The messages after a price refresh.
pub fn price_refresh_messages(
    storage_errors: &Vec<String>,
    updated: usize,
    unavailable: usize,
    local_floor_count: usize,
    failed: usize,
    first_failure: Option<String>,
    previous_error: Option<String>,
) -> (r: PriceRefreshMessages)
    ensures
        (opt(r.status), opt(r.error)) == refresh_messages_of(
            storage_errors@.map_values(|p: String| p@),
            updated as nat,
            unavailable as nat,
            local_floor_count as nat,
            failed as nat,
            opt(first_failure),
            opt(previous_error),
        ),
{
    if storage_errors.len() > 0 {
        PriceRefreshMessages { status: None, error: Some(join_strings(storage_errors, "; ")) }
    } else if updated == 0 && unavailable == 0 {
        let mut error = owned("No prices updated. ");
        match first_failure {
            Some(f) => push_str(&mut error, f.as_str()),
            None => push_str(&mut error, "No response data."),
        }
        PriceRefreshMessages { status: None, error: Some(error) }
    } else if failed == 0 {
        PriceRefreshMessages {
            status: Some(price_refresh_status(updated, unavailable, local_floor_count)),
            error: None,
        }
    } else {
        let mut status = count_sentence("Updated ", updated, " prices; kept local valuation for ");
        let rest = count_sentence("", unavailable, " unavailable symbols; ");
        push_str(&mut status, rest.as_str());
        let tail = count_sentence("", failed, " symbols failed.");
        push_str(&mut status, tail.as_str());
        proof {
            assert(""@ =~= Seq::<char>::empty()) by {
                reveal_strlit("");
            }
            assert(status@ =~= "Updated "@ + decimal(updated as nat) + " prices; kept local valuation for "@
                + decimal(unavailable as nat) + " unavailable symbols; "@ + decimal(failed as nat)
                + " symbols failed."@);
        }
        PriceRefreshMessages { status: Some(status), error: previous_error }
    }
}

/// The Overview route: the page for the portfolio with the selected tab, showing
/// the failure when the last refresh failed, else the market data when there is
/// some, else waiting for data.
pub fn overview_snapshot_for_route<C, F, G>(
    portfolio: PortfolioPerformance,
    market_data: Option<&OverviewMarketData>,
    refresh_failed: bool,
    selected_tab: MoverTab,
    card: F,
    mover: G,
) -> (r: OverviewSnapshot<C>) where
    F: Fn(&MarketIndexUpdate) -> C,
    G: Fn(&MarketMoverUpdate, MoverTab) -> MarketMover,

    requires
        market_data matches Some(d) ==> (forall|i: int| 0 <= i < d.indices@.len() ==> card.requires((&d.indices@[i],))),
        market_data matches Some(d) ==> (forall|i: int| 0 <= i < bucket_for(*d, selected_tab).len() ==> mover.requires((&bucket_for(*d, selected_tab)[i], selected_tab))),
    ensures
        r.selected_mover_tab == selected_tab,
        r.mover_metric_label@ == metric_label_of(selected_tab),
        r.portfolio == portfolio,
        refresh_failed ==> r.market_status.label@ == api_error_label() && r.last_updated@ == request_failed_text(),
        !refresh_failed && market_data is None ==> r.market_status.label@ == "Waiting"@ && r.last_updated@ == waiting_text(),
        refresh_failed || market_data is None ==> r.market_pulse@.len() == 0 && r.top_movers@.len() == 0 && !r.market_status.live,
        !refresh_failed ==> (market_data matches Some(d) ==> shows_market_data(r, portfolio, *d, selected_tab, card, mover)),
{
    let overview = OverviewSnapshot::from_portfolio(portfolio).with_selected_mover_tab(selected_tab);
    if refresh_failed {
        overview.with_market_error()
    } else {
        match market_data {
            Some(d) => overview.with_market_data(d, selected_tab, card, mover),
            None => overview,
        }
    }
}

} // verus!
