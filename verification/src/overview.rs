//! The Overview page's state: market status, selected mover tab, portfolio
//! performance labels, and the texts shown when there is no data.
//!
//! Market pulse cards and mover rows are rendered from market data by functions
//! the caller supplies; the snapshot decides which data is rendered and where it
//! goes.
use vstd::prelude::*;

use crate::meroalpha_api::{MarketIndexUpdate, MarketMoverUpdate, MarketStatusUpdate, OverviewMarketData};
use crate::text::{owned, push_str, str_eq};

verus! {

broadcast use vstd::string::group_string_axioms;

/// The mover lists of the Overview page.
#[derive(Debug, Clone, Copy, PartialEq, Eq, Structural)]
pub enum MoverTab {
    Gainers,
    Losers,
    Turnover,
}

pub open spec fn metric_label_of(tab: MoverTab) -> Seq<char> {
    match tab {
        MoverTab::Turnover => "TURNOVER (NPR)"@,
        _ => "VOLUME"@,
    }
}

pub open spec fn empty_message_of(tab: MoverTab) -> Seq<char> {
    match tab {
        MoverTab::Gainers => "No gainers returned."@,
        MoverTab::Losers => "No losers returned."@,
        MoverTab::Turnover => "No turnover leaders returned."@,
    }
}

impl MoverTab {
    pub fn label(self) -> (r: &'static str)
        ensures
            r@ == match self {
                MoverTab::Gainers => "Gainers"@,
                MoverTab::Losers => "Losers"@,
                MoverTab::Turnover => "Turnover"@,
            },
    {
        match self {
            MoverTab::Gainers => "Gainers",
            MoverTab::Losers => "Losers",
            MoverTab::Turnover => "Turnover",
        }
    }

    /// The heading of the metric column: turnover for the turnover leaders, volume otherwise.
    pub fn metric_label(self) -> (r: &'static str)
        ensures
            r@ == metric_label_of(self),
    {
        match self {
            MoverTab::Turnover => "TURNOVER (NPR)",
            MoverTab::Gainers | MoverTab::Losers => "VOLUME",
        }
    }

    pub fn description(self) -> (r: &'static str)
        ensures
            r@ == match self {
                MoverTab::Gainers => "Highest positive price moves"@,
                MoverTab::Losers => "Largest negative price moves"@,
                MoverTab::Turnover => "Highest traded value"@,
            },
    {
        match self {
            MoverTab::Gainers => "Highest positive price moves",
            MoverTab::Losers => "Largest negative price moves",
            MoverTab::Turnover => "Highest traded value",
        }
    }

    pub fn empty_message(self) -> (r: &'static str)
        ensures
            r@ == empty_message_of(self),
    {
        match self {
            MoverTab::Gainers => "No gainers returned.",
            MoverTab::Losers => "No losers returned.",
            MoverTab::Turnover => "No turnover leaders returned.",
        }
    }
}

/// Which way a value moved, as displayed.
#[derive(Debug, Clone, Copy, PartialEq, Eq, Structural)]
pub enum FinancialDirection {
    Up,
    Down,
    Flat,
}

impl FinancialDirection {
    /// The direction of a market move: the direction of the change, unless the
    /// change displays as zero, in which case the direction of the percent change.
    pub fn from_change(change: FinancialDirection, change_pct: FinancialDirection) -> (r: FinancialDirection)
        ensures
            change != FinancialDirection::Flat ==> r == change,
            change == FinancialDirection::Flat ==> r == change_pct,
    {
        match change {
            FinancialDirection::Flat => change_pct,
            direction => direction,
        }
    }
}

/// The market status badge.
#[derive(Debug, Clone, PartialEq)]
pub struct MarketStatus {
    pub label: &'static str,
    pub live: bool,
}

pub open spec fn api_error_label() -> Seq<char> {
    "API Error"@
}

impl MarketStatus {
    /// Whether the status reports a failed request.
    pub fn is_error(&self) -> (b: bool)
        ensures
            b == (self.label@ == api_error_label()),
    {
        str_eq(self.label, "API Error")
    }

    /// The badge text: `Market Open` or `Market Closed` for the market states, the label otherwise.
    pub fn badge_label(&self) -> (r: &'static str)
        ensures
            r@ == if self.label@ == "Open"@ {
                "Market Open"@
            } else if self.label@ == "Closed"@ {
                "Market Closed"@
            } else {
                self.label@
            },
    {
        if str_eq(self.label, "Open") {
            "Market Open"
        } else if str_eq(self.label, "Closed") {
            "Market Closed"
        } else if str_eq(self.label, "API Error") {
            "API Error"
        } else {
            self.label
        }
    }

    pub fn empty_title(&self) -> (r: &'static str)
        ensures
            r@ == if self.label@ == api_error_label() {
                "Market data unavailable"@
            } else {
                "No market API data loaded"@
            },
    {
        if self.is_error() {
            "Market data unavailable"
        } else {
            "No market API data loaded"
        }
    }

    pub fn empty_detail(&self) -> (r: &'static str)
        ensures
            r@ == if self.label@ == api_error_label() {
                "Refresh again, or check your API key and connection."@
            } else {
                "Set an API key in Profile & API, then refresh Overview."@
            },
    {
        if self.is_error() {
            "Refresh again, or check your API key and connection."
        } else {
            "Set an API key in Profile & API, then refresh Overview."
        }
    }

    /// The status before any market data was requested.
    pub fn waiting() -> (r: MarketStatus)
        ensures
            r.label@ == "Waiting"@,
            !r.live,
    {
        MarketStatus { label: "Waiting", live: false }
    }

    /// The status that market data reports: open and live, or closed.
    pub fn from_update(update: &MarketStatusUpdate) -> (r: MarketStatus)
        ensures
            r.label@ == if update.is_open {
                "Open"@
            } else {
                "Closed"@
            },
            r.live == update.is_open,
    {
        MarketStatus {
            label: if update.is_open {
                "Open"
            } else {
                "Closed"
            },
            live: update.is_open,
        }
    }

    /// The status after a failed request.
    pub fn api_error() -> (r: MarketStatus)
        ensures
            r.label@ == api_error_label(),
            !r.live,
    {
        MarketStatus { label: "API Error", live: false }
    }
}

/// The portfolio panel of the Overview page.
#[derive(Debug, Clone, PartialEq)]
pub struct PortfolioPerformance {
    pub total_value_label: String,
    pub change_label: String,
    pub change_pct_label: String,
    pub risk_label: &'static str,
    pub risk_score_label: &'static str,
    pub direction: FinancialDirection,
    pub is_empty: bool,
}

/// How concentrated a portfolio of this many positions is.
pub open spec fn allocation_risk_of(position_count: int) -> Seq<char> {
    if position_count >= 12 {
        "Diversified"@
    } else if position_count >= 5 {
        "Moderate"@
    } else {
        "Concentrated"@
    }
}

/// How concentrated a portfolio of this many positions is.
pub fn allocation_risk_label(position_count: usize) -> (r: &'static str)
    ensures
        r@ == allocation_risk_of(position_count as int),
{
    if position_count >= 12 {
        "Diversified"
    } else if position_count >= 5 {
        "Moderate"
    } else {
        "Concentrated"
    }
}

impl PortfolioPerformance {
    /// The panel when no holdings are imported.
    pub fn empty() -> (r: PortfolioPerformance)
        ensures
            r.total_value_label@ == "No holdings"@,
            r.change_label@ == "Portfolio inactive"@,
            r.change_pct_label@.len() == 0,
            r.risk_label@ == "Awaiting holdings"@,
            r.risk_score_label@ == "0 positions"@,
            r.direction == FinancialDirection::Flat,
            r.is_empty,
    {
        PortfolioPerformance {
            total_value_label: owned("No holdings"),
            change_label: owned("Portfolio inactive"),
            change_pct_label: String::new(),
            risk_label: "Awaiting holdings",
            risk_score_label: "0 positions",
            direction: FinancialDirection::Flat,
            is_empty: true,
        }
    }

    /// The panel for imported holdings, from the displayed value, change and
    /// percent change, the number of positions and the direction of the change.
    pub fn loaded(
        total_value_label: String,
        change_label: String,
        change_pct_label: String,
        position_count: usize,
        direction: FinancialDirection,
    ) -> (r: PortfolioPerformance)
        ensures
            r.total_value_label == total_value_label,
            r.change_label == change_label,
            r.change_pct_label == change_pct_label,
            r.risk_label@ == "Local Portfolio"@,
            r.risk_score_label@ == allocation_risk_of(position_count as int),
            r.direction == direction,
            !r.is_empty,
    {
        PortfolioPerformance {
            total_value_label,
            change_label,
            change_pct_label,
            risk_label: "Local Portfolio",
            risk_score_label: allocation_risk_label(position_count),
            direction,
            is_empty: false,
        }
    }
}

/// One row of the top movers table.
#[derive(Debug, Clone, PartialEq)]
pub struct MarketMover {
    pub symbol: String,
    pub ltp: String,
    pub change: String,
    pub volume: String,
    pub direction: FinancialDirection,
}

/// The Overview page. `C` is the type of the market pulse cards.
#[derive(Debug, Clone, PartialEq)]
pub struct OverviewSnapshot<C> {
    pub market_pulse: Vec<C>,
    pub portfolio: PortfolioPerformance,
    pub top_movers: Vec<MarketMover>,
    pub selected_mover_tab: MoverTab,
    pub mover_metric_label: &'static str,
    pub market_status: MarketStatus,
    pub last_updated: String,
}

pub open spec fn waiting_text() -> Seq<char> {
    "Waiting for API"@
}

pub open spec fn request_failed_text() -> Seq<char> {
    "Request failed"@
}

/// The mover list a tab shows.
pub open spec fn bucket_for(data: OverviewMarketData, tab: MoverTab) -> Seq<MarketMoverUpdate> {
    match tab {
        MoverTab::Gainers => data.gainers@,
        MoverTab::Losers => data.losers@,
        MoverTab::Turnover => data.turnover@,
    }
}

/// The recency text: the last traded date, or the waiting or failure text as it is.
pub open spec fn recency_of(status_label: Seq<char>, last_updated: Seq<char>) -> Seq<char> {
    if status_label == api_error_label() || last_updated == waiting_text() {
        last_updated
    } else {
        "Last traded "@ + last_updated
    }
}

/// The text of an empty movers table.
pub open spec fn movers_empty_of(status_label: Seq<char>, last_updated: Seq<char>, tab: MoverTab) -> Seq<char> {
    if status_label == api_error_label() {
        "Market data unavailable."@
    } else if last_updated == waiting_text() {
        "No market API data loaded."@
    } else {
        empty_message_of(tab)
    }
}

fn render_all<T, U, F: Fn(&T) -> U>(items: &Vec<T>, render: &F) -> (r: Vec<U>)
    requires
        forall|i: int| 0 <= i < items@.len() ==> render.requires((&items@[i],)),
    ensures
        r@.len() == items@.len(),
        forall|i: int| 0 <= i < items@.len() ==> render.ensures((&items@[i],), #[trigger] r@[i]),
{
    let mut out: Vec<U> = Vec::new();
    let mut i: usize = 0;
    while i < items.len()
        invariant
            i <= items@.len(),
            out@.len() == i,
            forall|k: int| 0 <= k < items@.len() ==> render.requires((&items@[k],)),
            forall|k: int| 0 <= k < i ==> render.ensures((&items@[k],), #[trigger] out@[k]),
        decreases items@.len() - i,
    {
        let item = render(&items[i]);
        out.push(item);
        i = i + 1;
    }
    out
}

/// A rendered mover row with the symbol set to `symbol`.
pub open spec fn with_symbol(row: MarketMover, symbol: String) -> MarketMover {
    MarketMover { symbol, ..row }
}

/// `row` is what `mover` renders from `item` with `tab` selected, carrying the
/// item's symbol.
pub open spec fn renders_row<G: Fn(&MarketMoverUpdate, MoverTab) -> MarketMover>(
    mover: G,
    item: MarketMoverUpdate,
    tab: MoverTab,
    row: MarketMover,
) -> bool {
    exists|m: MarketMover| #[trigger] mover.ensures((&item, tab), m) && row == with_symbol(m, item.symbol)
}

fn render_movers<F: Fn(&MarketMoverUpdate, MoverTab) -> MarketMover>(items: &Vec<MarketMoverUpdate>, tab: MoverTab, render: &F) -> (r: Vec<MarketMover>)
    requires
        forall|i: int| 0 <= i < items@.len() ==> render.requires((&items@[i], tab)),
    ensures
        r@.len() == items@.len(),
        forall|i: int| 0 <= i < items@.len() ==> #[trigger] renders_row(*render, items@[i], tab, r@[i]),
{
    let mut out: Vec<MarketMover> = Vec::new();
    let mut i: usize = 0;
    while i < items.len()
        invariant
            i <= items@.len(),
            out@.len() == i,
            forall|k: int| 0 <= k < items@.len() ==> render.requires((&items@[k], tab)),
            forall|k: int| 0 <= k < i ==> #[trigger] renders_row(*render, items@[k], tab, out@[k]),
        decreases items@.len() - i,
    {
        let row = render(&items[i], tab);
        let symbol = items[i].symbol.clone();
        let ghost rendered = row;
        let ghost before = out@;
        let shown = MarketMover { symbol, ..row };
        assert(shown == with_symbol(rendered, items@[i as int].symbol));
        out.push(shown);
        assert forall|k: int| 0 <= k < i + 1 implies #[trigger] renders_row(*render, items@[k], tab, out@[k]) by {
            if k == i {
                assert(render.ensures((&items@[k], tab), rendered) && out@[k] == with_symbol(rendered, items@[k].symbol));
            } else {
                assert(out@[k] == before[k]);
                assert(renders_row(*render, items@[k], tab, before[k]));
            }
        }
        i = i + 1;
    }
    out
}

/// The page `r` shows the market data `d` beside the portfolio panel
/// `portfolio`, with `tab` selected: a card rendered from each index, in order;
/// for each mover of the tab's list, in order, a row rendered from it that
/// carries its symbol; the tab and its metric heading; the Open or Closed badge;
/// and the last traded date.
pub open spec fn shows_market_data<C, F: Fn(&MarketIndexUpdate) -> C, G: Fn(&MarketMoverUpdate, MoverTab) -> MarketMover>(
    r: OverviewSnapshot<C>,
    portfolio: PortfolioPerformance,
    d: OverviewMarketData,
    tab: MoverTab,
    card: F,
    mover: G,
) -> bool {
    &&& r.market_pulse@.len() == d.indices@.len()
    &&& forall|i: int| 0 <= i < d.indices@.len() ==> card.ensures((&d.indices@[i],), #[trigger] r.market_pulse@[i])
    &&& r.top_movers@.len() == bucket_for(d, tab).len()
    &&& forall|i: int| 0 <= i < bucket_for(d, tab).len() ==> #[trigger] renders_row(mover, bucket_for(d, tab)[i], tab, r.top_movers@[i])
    &&& r.portfolio == portfolio
    &&& r.selected_mover_tab == tab
    &&& r.mover_metric_label@ == metric_label_of(tab)
    &&& r.market_status.label@ == if d.market_status.is_open { "Open"@ } else { "Closed"@ }
    &&& r.market_status.live == d.market_status.is_open
    &&& r.last_updated@ == d.market_status.last_traded_date@
}

/// Two pages that show the same market data for the same portfolio and tab are
/// the same page, field by field, when the card and row renderers give one
/// result for each input.
pub proof fn law_market_pages_agree<C, F: Fn(&MarketIndexUpdate) -> C, G: Fn(&MarketMoverUpdate, MoverTab) -> MarketMover>(
    a: OverviewSnapshot<C>,
    b: OverviewSnapshot<C>,
    portfolio: PortfolioPerformance,
    d: OverviewMarketData,
    tab: MoverTab,
    card: F,
    mover: G,
)
    requires
        shows_market_data(a, portfolio, d, tab, card, mover),
        shows_market_data(b, portfolio, d, tab, card, mover),
        forall|x: &MarketIndexUpdate, c1: C, c2: C| card.ensures((x,), c1) && card.ensures((x,), c2) ==> c1 == c2,
        forall|x: &MarketMoverUpdate, t: MoverTab, m1: MarketMover, m2: MarketMover| mover.ensures((x, t), m1) && mover.ensures((x, t), m2) ==> m1 == m2,
    ensures
        a.market_pulse@ == b.market_pulse@,
        a.top_movers@ == b.top_movers@,
        a.portfolio == b.portfolio,
        a.selected_mover_tab == b.selected_mover_tab,
        a.mover_metric_label@ == b.mover_metric_label@,
        a.market_status.label@ == b.market_status.label@,
        a.market_status.live == b.market_status.live,
        a.last_updated@ == b.last_updated@,
{
    assert forall|i: int| 0 <= i < a.market_pulse@.len() implies a.market_pulse@[i] == b.market_pulse@[i] by {
        assert(card.ensures((&d.indices@[i],), a.market_pulse@[i]));
        assert(card.ensures((&d.indices@[i],), b.market_pulse@[i]));
    }
    assert(a.market_pulse@ =~= b.market_pulse@);
    assert forall|i: int| 0 <= i < a.top_movers@.len() implies a.top_movers@[i] == b.top_movers@[i] by {
        let x = bucket_for(d, tab)[i];
        assert(renders_row(mover, x, tab, a.top_movers@[i]));
        assert(renders_row(mover, x, tab, b.top_movers@[i]));
        let ma = choose|m: MarketMover| #[trigger] mover.ensures((&x, tab), m) && a.top_movers@[i] == with_symbol(m, x.symbol);
        let mb = choose|m: MarketMover| #[trigger] mover.ensures((&x, tab), m) && b.top_movers@[i] == with_symbol(m, x.symbol);
        assert(ma == mb);
    }
    assert(a.top_movers@ =~= b.top_movers@);
}

impl<C> OverviewSnapshot<C> {
    /// The page before any market data: the portfolio panel, no cards or movers,
    /// the gainers tab, and the waiting status.
    pub fn from_portfolio(portfolio: PortfolioPerformance) -> (r: Self)
        ensures
            r.market_pulse@.len() == 0,
            r.portfolio == portfolio,
            r.top_movers@.len() == 0,
            r.selected_mover_tab == MoverTab::Gainers,
            r.mover_metric_label@ == metric_label_of(MoverTab::Gainers),
            r.market_status.label@ == "Waiting"@,
            !r.market_status.live,
            r.last_updated@ == waiting_text(),
    {
        OverviewSnapshot {
            market_pulse: Vec::new(),
            portfolio,
            top_movers: Vec::new(),
            selected_mover_tab: MoverTab::Gainers,
            mover_metric_label: MoverTab::Gainers.metric_label(),
            market_status: MarketStatus::waiting(),
            last_updated: owned("Waiting for API"),
        }
    }

    /// The page showing market data: a card rendered from each index, a row
    /// rendered from each mover of the selected tab's list that carries the
    /// mover's symbol, the market status, and the last traded date.
    pub fn with_market_data<F, G>(self, market_data: &OverviewMarketData, selected_tab: MoverTab, card: F, mover: G) -> (r: Self) where
        F: Fn(&MarketIndexUpdate) -> C,
        G: Fn(&MarketMoverUpdate, MoverTab) -> MarketMover,

        requires
            forall|i: int| 0 <= i < market_data.indices@.len() ==> card.requires((&market_data.indices@[i],)),
            forall|i: int| 0 <= i < bucket_for(*market_data, selected_tab).len() ==> mover.requires((&bucket_for(*market_data, selected_tab)[i], selected_tab)),
        ensures
            shows_market_data(r, self.portfolio, *market_data, selected_tab, card, mover),
    {
        let market_pulse = render_all(&market_data.indices, &card);
        let bucket = match selected_tab {
            MoverTab::Gainers => &market_data.gainers,
            MoverTab::Losers => &market_data.losers,
            MoverTab::Turnover => &market_data.turnover,
        };
        assert(bucket@ == bucket_for(*market_data, selected_tab));
        let top_movers = render_movers(bucket, selected_tab, &mover);
        OverviewSnapshot {
            market_pulse,
            portfolio: self.portfolio,
            top_movers,
            selected_mover_tab: selected_tab,
            mover_metric_label: selected_tab.metric_label(),
            market_status: MarketStatus::from_update(&market_data.market_status),
            last_updated: market_data.market_status.last_traded_date.clone(),
        }
    }

    /// The page with another mover tab selected.
    pub fn with_selected_mover_tab(self, selected_tab: MoverTab) -> (r: Self)
        ensures
            r.selected_mover_tab == selected_tab,
            r.mover_metric_label@ == metric_label_of(selected_tab),
            r.market_pulse == self.market_pulse,
            r.portfolio == self.portfolio,
            r.top_movers == self.top_movers,
            r.market_status == self.market_status,
            r.last_updated == self.last_updated,
    {
        OverviewSnapshot {
            selected_mover_tab: selected_tab,
            mover_metric_label: selected_tab.metric_label(),
            ..self
        }
    }

    /// The page after a failed market-data request.
    pub fn with_market_error(self) -> (r: Self)
        ensures
            r.market_status.label@ == api_error_label(),
            !r.market_status.live,
            r.last_updated@ == request_failed_text(),
            r.market_pulse == self.market_pulse,
            r.portfolio == self.portfolio,
            r.top_movers == self.top_movers,
            r.selected_mover_tab == self.selected_mover_tab,
            r.mover_metric_label == self.mover_metric_label,
    {
        OverviewSnapshot {
            market_status: MarketStatus::api_error(),
            last_updated: owned("Request failed"),
            ..self
        }
    }

    /// When the shown market data is from: the last traded date, or the waiting
    /// or failure text as it is.
    pub fn market_recency_label(&self) -> (r: String)
        ensures
            r@ == recency_of(self.market_status.label@, self.last_updated@),
    {
        if self.market_status.is_error() || str_eq(self.last_updated.as_str(), "Waiting for API") {
            self.last_updated.clone()
        } else {
            let mut out = owned("Last traded ");
            push_str(&mut out, self.last_updated.as_str());
            out
        }
    }

    /// The text of an empty movers table.
    pub fn top_movers_empty_message(&self) -> (r: &'static str)
        ensures
            r@ == movers_empty_of(self.market_status.label@, self.last_updated@, self.selected_mover_tab),
    {
        if self.market_status.is_error() {
            "Market data unavailable."
        } else if str_eq(self.last_updated.as_str(), "Waiting for API") {
            "No market API data loaded."
        } else {
            self.selected_mover_tab.empty_message()
        }
    }
}

} // verus!
