//! The request sequences of the market-data refreshes, as state machines.
//!
//! The caller performs each requested GET and hands back the response body (or
//! the error of the request); the machine decides what to
//! request next and what the refresh yields.
//!
//! A price refresh asks for the market status, then for each symbol the daily
//! price on the last traded date; when the daily route rejects a symbol with
//! status 400, it asks for the symbol's mutual-fund NAV instead. The overview
//! refresh asks for the market status, the indices (the sub-indices when there are
//! no indices), and the market movers of the last traded date.
use vstd::prelude::*;

use crate::json::{body_json, Json};
use crate::meroalpha_api::{
    daily_price_path, daily_price_path_of, index_records, latest_number_of,
    latest_price_from_daily_response, latest_price_from_nav_response, market_indices_from_response,
    market_indices_of, market_movers_from_response, market_movers_of, market_movers_path,
    market_movers_path_of, market_status_from_response, market_status_of, mover_records,
    mutual_fund_nav_path, mutual_fund_nav_path_of, nav_fields, price_fields, ApiFailure,
    BucketsRecord, IndexRecord, MarketIndexUpdate, MarketStatusUpdate, MeroAlphaApiError,
    MoverRecord, OverviewMarketData, PriceFailure, PriceUpdate, StatusRecord,
};
use crate::numeric::NumericText;
use crate::portfolio::normalize_symbol;
use crate::text::{to_upper, trim};

verus! {

broadcast use vstd::string::group_string_axioms;

/// A reply as the machines see it: the response body, or the failure of the request.
pub type Reply = Result<String, MeroAlphaApiError>;

/// The document a reply holds: the parsed body, `InvalidJson` for a body that is
/// not JSON, or the failure of the request.
pub open spec fn reply_view(r: Reply) -> Result<Json, ApiFailure> {
    match r {
        Ok(b) => body_json(b@),
        Err(e) => Err(e@),
    }
}

/// The market-status request.
pub open spec fn market_status_path_of() -> Seq<char> {
    "/v1/market/status"@
}

/// What a refresh wants done next.
pub enum RefreshStep<T> {
    /// Perform a GET of this path and hand back the reply.
    Request(String),
    /// The refresh is over and yields this.
    Finished(T),
}

// ---------------------------------------------------------------------------
// Prices

/// The result of refreshing one symbol.
pub enum PriceOutcome {
    Updated { symbol: Seq<char>, ltp: Seq<char> },
    Failed { symbol: Seq<char>, error: ApiFailure },
}

pub open spec fn outcome_of(r: Result<PriceUpdate, PriceFailure>) -> PriceOutcome {
    match r {
        Ok(u) => PriceOutcome::Updated { symbol: u.symbol@, ltp: u.ltp@ },
        Err(f) => PriceOutcome::Failed { symbol: f.symbol@, error: f.error@ },
    }
}

pub open spec fn outcomes_of(v: Seq<Result<PriceUpdate, PriceFailure>>) -> Seq<PriceOutcome> {
    v.map_values(|r: Result<PriceUpdate, PriceFailure>| outcome_of(r))
}

/// The outcome for `symbol` of a price lookup that gave `price`.
pub open spec fn outcome_for(symbol: Seq<char>, price: Result<Seq<char>, ApiFailure>) -> PriceOutcome {
    match price {
        Ok(ltp) => PriceOutcome::Updated { symbol, ltp },
        Err(error) => PriceOutcome::Failed { symbol, error },
    }
}

pub open spec fn outcome_symbol(o: PriceOutcome) -> Seq<char> {
    match o {
        PriceOutcome::Updated { symbol, .. } => symbol,
        PriceOutcome::Failed { symbol, .. } => symbol,
    }
}

/// The price a daily-price reply gives.
pub open spec fn daily_price_of(reply: Result<Json, ApiFailure>) -> Result<Seq<char>, ApiFailure> {
    match reply {
        Ok(j) => latest_number_of(j, price_fields()),
        Err(f) => Err(f),
    }
}

/// The price a NAV reply gives.
pub open spec fn nav_price_of(reply: Result<Json, ApiFailure>) -> Result<Seq<char>, ApiFailure> {
    match reply {
        Ok(j) => latest_number_of(j, nav_fields()),
        Err(f) => Err(f),
    }
}

/// Whether a daily-price reply sends the lookup on to the NAV route: the daily
/// route rejected the symbol with status 400.
pub open spec fn falls_back_to_nav(reply: Result<Json, ApiFailure>) -> bool {
    match reply {
        Err(ApiFailure::HttpStatus { status, .. }) => status == 400,
        _ => false,
    }
}

/// The market status a reply gives.
pub open spec fn status_of_reply(reply: Result<Json, ApiFailure>) -> Result<StatusRecord, ApiFailure> {
    match reply {
        Ok(j) => market_status_of(j),
        Err(f) => Err(f),
    }
}

/// A symbol's lookup goes on to the NAV route exactly when the daily route
/// rejected it with status 400, on whatever route the rejection names.
pub proof fn law_nav_fallback_only_after_400(reply: Result<Json, ApiFailure>)
    ensures
        falls_back_to_nav(reply) <==> (reply is Err && reply->Err_0 is HttpStatus && reply->Err_0->status == 400),
{
}

/// Where a price refresh stands.
#[derive(Debug, Clone, Copy, PartialEq, Eq, Structural)]
pub enum PriceStage {
    AwaitingStatus,
    AwaitingDaily,
    AwaitingNav,
    Done,
}

/// A price refresh of some symbols.
pub struct PriceRefresh {
    symbols: Vec<String>,
    date: String,
    index: usize,
    stage: PriceStage,
    results: Vec<Result<PriceUpdate, PriceFailure>>,
}

pub struct PriceRefreshState {
    pub symbols: Seq<Seq<char>>,
    pub date: Seq<char>,
    pub index: int,
    pub stage: PriceStage,
    pub results: Seq<PriceOutcome>,
}

impl View for PriceRefresh {
    type V = PriceRefreshState;

    closed spec fn view(&self) -> PriceRefreshState {
        PriceRefreshState {
            symbols: self.symbols@.map_values(|s: String| s@),
            date: self.date@,
            index: self.index as int,
            stage: self.stage,
            results: outcomes_of(self.results@),
        }
    }
}

/// Every symbol refreshed so far has exactly one result, in order, and the symbol
/// being looked up is one of the symbols.
pub open spec fn price_refresh_wf(s: PriceRefreshState) -> bool {
    &&& 0 <= s.index <= s.symbols.len()
    &&& s.results.len() == s.index
    &&& forall|k: int| 0 <= k < s.index ==> outcome_symbol(#[trigger] s.results[k]) == s.symbols[k]
    &&& (s.stage == PriceStage::AwaitingDaily || s.stage == PriceStage::AwaitingNav) ==> s.index
        < s.symbols.len()
    &&& s.stage == PriceStage::AwaitingStatus ==> s.index == 0
}

/// The failure of every symbol, with the same error.
pub open spec fn all_failed(symbols: Seq<Seq<char>>, error: ApiFailure) -> Seq<PriceOutcome> {
    symbols.map_values(|s: Seq<char>| PriceOutcome::Failed { symbol: s, error })
}

pub open spec fn step_path<T>(step: RefreshStep<T>) -> Option<Seq<char>> {
    match step {
        RefreshStep::Request(p) => Some(p@),
        RefreshStep::Finished(_) => None,
    }
}

impl PriceRefresh {
    /// Starts a price refresh of `symbols`, each trimmed and put in upper case; the
    /// first request is the market status.
    pub fn start(symbols: &[String]) -> (r: (PriceRefresh, String))
        ensures
            r.0@.symbols == symbols@.map_values(|s: String| to_upper(trim(s@))),
            r.0@.stage == PriceStage::AwaitingStatus,
            r.0@.index == 0,
            r.0@.results.len() == 0,
            price_refresh_wf(r.0@),
            r.1@ == market_status_path_of(),
    {
        let mut normalized: Vec<String> = Vec::new();
        let mut i: usize = 0;
        while i < symbols.len()
            invariant
                i <= symbols@.len(),
                normalized@.len() == i,
                forall|k: int| 0 <= k < i ==> (#[trigger] normalized@[k])@ == to_upper(trim(symbols@[k]@)),
            decreases symbols@.len() - i,
        {
            normalized.push(normalize_symbol(symbols[i].as_str()));
            i = i + 1;
        }
        let state = PriceRefresh {
            symbols: normalized,
            date: String::new(),
            index: 0,
            stage: PriceStage::AwaitingStatus,
            results: Vec::new(),
        };
        proof {
            assert(state@.symbols =~= symbols@.map_values(|s: String| to_upper(trim(s@))));
            assert(state@.results =~= Seq::<PriceOutcome>::empty());
        }
        (state, crate::text::owned("/v1/market/status"))
    }

    /// Where the refresh stands.
    pub fn stage(&self) -> (r: PriceStage)
        ensures
            r == self@.stage,
    {
        self.stage
    }

    fn finish(&mut self) -> (r: Vec<Result<PriceUpdate, PriceFailure>>)
        ensures
            final(self)@.stage == PriceStage::Done,
            final(self)@.symbols == old(self)@.symbols,
            final(self)@.index == old(self)@.index,
            final(self)@.date == old(self)@.date,
            final(self)@.results.len() == 0,
            outcomes_of(r@) == old(self)@.results,
    {
        let mut out: Vec<Result<PriceUpdate, PriceFailure>> = Vec::new();
        std::mem::swap(&mut out, &mut self.results);
        self.stage = PriceStage::Done;
        proof {
            assert(outcomes_of(self.results@) =~= Seq::<PriceOutcome>::empty());
        }
        out
    }

    /// Records the outcome for the current symbol and moves to the next one.
    fn record(&mut self, price: Result<NumericText, MeroAlphaApiError>) -> (r: RefreshStep<Vec<Result<PriceUpdate, PriceFailure>>>)
        requires
            price_refresh_wf(old(self)@),
            old(self)@.stage == PriceStage::AwaitingDaily || old(self)@.stage == PriceStage::AwaitingNav,
        ensures
            ({
                let done = old(self)@.results.push(outcome_for(
                    old(self)@.symbols[old(self)@.index],
                    crate::meroalpha_api::number_result(price),
                ));
                let next = old(self)@.index + 1;
                if next == old(self)@.symbols.len() {
                    &&& r matches RefreshStep::Finished(v) && outcomes_of(v@) == done
                    &&& final(self)@.stage == PriceStage::Done
                    &&& final(self)@.index == next
                } else {
                    &&& step_path(r) == Some(daily_price_path_of(old(self)@.symbols[next], old(self)@.date))
                    &&& final(self)@.stage == PriceStage::AwaitingDaily
                    &&& final(self)@.index == next
                    &&& final(self)@.results == done
                    &&& price_refresh_wf(final(self)@)
                }
            }),
            final(self)@.symbols == old(self)@.symbols,
            final(self)@.date == old(self)@.date,
    {
        let ghost before = self@;
        assert(self.symbols@.map_values(|s: String| s@).len() == self.symbols@.len());
        assert(self.index < self.symbols@.len());
        let count = self.symbols.len();
        let symbol = self.symbols[self.index].clone();
        assert(symbol@ == before.symbols[before.index]);
        let outcome = match price {
            Ok(ltp) => Ok(PriceUpdate { symbol, ltp }),
            Err(error) => Err(PriceFailure { symbol, error }),
        };
        self.results.push(outcome);
        self.index = self.index + 1;
        proof {
            assert(outcomes_of(self.results@) =~= before.results.push(outcome_of(outcome)));
            assert(self@.symbols == before.symbols);
        }
        if self.index == self.symbols.len() {
            RefreshStep::Finished(self.finish())
        } else {
            self.stage = PriceStage::AwaitingDaily;
            proof {
                assert forall|k: int| 0 <= k < self@.index implies outcome_symbol(#[trigger] self@.results[k]) == self@.symbols[k] by {
                    if k < before.index {
                        assert(self@.results[k] == before.results[k]);
                    }
                }
            }
            RefreshStep::Request(daily_price_path(self.symbols[self.index].as_str(), self.date.as_str()))
        }
    }

    /// Takes the reply to the last request and says what comes next.
    ///
    /// After the market status: every symbol fails with the error when the status
    /// cannot be had; otherwise the daily price of the first symbol on the last
    /// traded date is requested (or the refresh ends, when there are no symbols).
    /// After a daily price: a 400 rejection sends the lookup to the NAV route;
    /// anything else is the symbol's outcome. After a NAV price: the reply is the
    /// symbol's outcome. Once every symbol has its outcome, the refresh yields the
    /// outcomes, one per symbol, in order.
    pub fn advance(&mut self, reply: Reply) -> (r: RefreshStep<Vec<Result<PriceUpdate, PriceFailure>>>)
        requires
            price_refresh_wf(old(self)@),
        ensures
            final(self)@.symbols == old(self)@.symbols,
            final(self)@.stage != PriceStage::Done ==> price_refresh_wf(final(self)@),
            r matches RefreshStep::Finished(v) ==> final(self)@.stage == PriceStage::Done && (
            old(self)@.stage == PriceStage::Done || (outcomes_of(v@).len()
                == old(self)@.symbols.len() && forall|k: int|
                0 <= k < old(self)@.symbols.len() ==> outcome_symbol(#[trigger] outcomes_of(v@)[k])
                == old(self)@.symbols[k])),
            match old(self)@.stage {
                PriceStage::AwaitingStatus => match status_of_reply(reply_view(reply)) {
                    Err(f) => r matches RefreshStep::Finished(v) && outcomes_of(v@) == all_failed(
                        old(self)@.symbols,
                        f,
                    ),
                    Ok(st) => if old(self)@.symbols.len() == 0 {
                        r matches RefreshStep::Finished(v) && v@.len() == 0
                    } else {
                        &&& final(self)@.stage == PriceStage::AwaitingDaily
                        &&& final(self)@.date == st.last_traded_date
                        &&& final(self)@.index == 0
                        &&& step_path(r) == Some(daily_price_path_of(old(self)@.symbols[0], st.last_traded_date))
                    },
                },
                PriceStage::AwaitingDaily => if falls_back_to_nav(reply_view(reply)) {
                    &&& final(self)@.stage == PriceStage::AwaitingNav
                    &&& final(self)@.index == old(self)@.index
                    &&& final(self)@.results == old(self)@.results
                    &&& step_path(r) == Some(mutual_fund_nav_path_of(old(self)@.symbols[old(self)@.index]))
                } else {
                    let done = old(self)@.results.push(outcome_for(
                        old(self)@.symbols[old(self)@.index],
                        daily_price_of(reply_view(reply)),
                    ));
                    advanced(old(self)@, final(self)@, r, done)
                },
                PriceStage::AwaitingNav => {
                    let done = old(self)@.results.push(outcome_for(
                        old(self)@.symbols[old(self)@.index],
                        nav_price_of(reply_view(reply)),
                    ));
                    advanced(old(self)@, final(self)@, r, done)
                },
                PriceStage::Done => r matches RefreshStep::Finished(v) && v@.len() == 0,
            },
    {
        match self.stage {
            PriceStage::AwaitingStatus => {
                let status = match reply {
                    Ok(body) => market_status_from_response(body.as_str()),
                    Err(e) => Err(e),
                };
                match status {
                    Err(error) => {
                        let mut out: Vec<Result<PriceUpdate, PriceFailure>> = Vec::new();
                        let mut i: usize = 0;
                        while i < self.symbols.len()
                            invariant
                                i <= self.symbols@.len(),
                                out@.len() == i,
                                forall|k: int| 0 <= k < i ==> outcome_of(#[trigger] out@[k]) == (PriceOutcome::Failed {
                                    symbol: self.symbols@[k]@,
                                    error: error@,
                                }),
                            decreases self.symbols@.len() - i,
                        {
                            out.push(Err(PriceFailure { symbol: self.symbols[i].clone(), error: error.clone() }));
                            i = i + 1;
                        }
                        self.stage = PriceStage::Done;
                        proof {
                            assert(outcomes_of(out@) =~= all_failed(self@.symbols, error@));
                        }
                        RefreshStep::Finished(out)
                    },
                    Ok(st) => {
                        self.date = st.last_traded_date;
                        if self.symbols.len() == 0 {
                            self.stage = PriceStage::Done;
                            RefreshStep::Finished(Vec::new())
                        } else {
                            self.stage = PriceStage::AwaitingDaily;
                            RefreshStep::Request(daily_price_path(self.symbols[0].as_str(), self.date.as_str()))
                        }
                    },
                }
            },
            PriceStage::AwaitingDaily => {
                let fallback = match &reply {
                    Err(MeroAlphaApiError::HttpStatus { status, .. }) => *status == 400,
                    _ => false,
                };
                if fallback {
                    self.stage = PriceStage::AwaitingNav;
                    return RefreshStep::Request(mutual_fund_nav_path(self.symbols[self.index].as_str()));
                }
                let price = match reply {
                    Ok(body) => latest_price_from_daily_response(body.as_str()),
                    Err(e) => Err(e),
                };
                self.record(price)
            },
            PriceStage::AwaitingNav => {
                let price = match reply {
                    Ok(body) => latest_price_from_nav_response(body.as_str()),
                    Err(e) => Err(e),
                };
                self.record(price)
            },
            PriceStage::Done => RefreshStep::Finished(Vec::new()),
        }
    }
}

/// The refresh moved past the current symbol with the outcomes `done`: it ends
/// with them when that was the last symbol, else it asks for the next symbol's
/// daily price.
pub open spec fn advanced(
    before: PriceRefreshState,
    after: PriceRefreshState,
    r: RefreshStep<Vec<Result<PriceUpdate, PriceFailure>>>,
    done: Seq<PriceOutcome>,
) -> bool {
    let next = before.index + 1;
    if next == before.symbols.len() {
        &&& r matches RefreshStep::Finished(v) && outcomes_of(v@) == done
        &&& after.stage == PriceStage::Done
    } else {
        &&& step_path(r) == Some(daily_price_path_of(before.symbols[next], before.date))
        &&& after.stage == PriceStage::AwaitingDaily
        &&& after.index == next
        &&& after.results == done
        &&& after.date == before.date
    }
}

// ---------------------------------------------------------------------------
// Overview

/// The indices request.
pub open spec fn indices_path_of() -> Seq<char> {
    "/v1/indices?limit=10"@
}

/// The sub-indices request, made when there are no indices.
pub open spec fn sub_indices_path_of() -> Seq<char> {
    "/v1/sub-indices?limit=10"@
}

/// The number of indices the Overview page shows.
pub open spec fn shown_indices(v: Seq<IndexRecord>) -> Seq<IndexRecord> {
    if v.len() > 4 {
        v.take(4)
    } else {
        v
    }
}

/// The Overview keeps the first four indices, in order, or all of them when
/// there are fewer.
pub proof fn law_at_most_four_indices(v: Seq<IndexRecord>)
    ensures
        shown_indices(v).len() == if v.len() < 4 { v.len() } else { 4 },
        forall|i: int| 0 <= i < shown_indices(v).len() ==> #[trigger] shown_indices(v)[i] == v[i],
{
}

pub open spec fn indices_of_reply(reply: Result<Json, ApiFailure>) -> Result<Seq<IndexRecord>, ApiFailure> {
    match reply {
        Ok(j) => market_indices_of(j),
        Err(f) => Err(f),
    }
}

pub open spec fn movers_of_reply(reply: Result<Json, ApiFailure>) -> Result<BucketsRecord, ApiFailure> {
    match reply {
        Ok(j) => market_movers_of(j),
        Err(f) => Err(f),
    }
}

/// Where an overview refresh stands.
#[derive(Debug, Clone, Copy, PartialEq, Eq, Structural)]
pub enum OverviewStage {
    AwaitingStatus,
    AwaitingIndices,
    AwaitingSubIndices,
    AwaitingMovers,
    Done,
}

/// An overview refresh.
pub struct OverviewRefresh {
    stage: OverviewStage,
    status: Option<MarketStatusUpdate>,
    indices: Vec<MarketIndexUpdate>,
}

pub struct OverviewRefreshState {
    pub stage: OverviewStage,
    pub status: Option<StatusRecord>,
    pub indices: Seq<IndexRecord>,
}

pub open spec fn status_option(s: Option<MarketStatusUpdate>) -> Option<StatusRecord> {
    match s {
        Some(u) => Some(u@),
        None => None,
    }
}

impl View for OverviewRefresh {
    type V = OverviewRefreshState;

    closed spec fn view(&self) -> OverviewRefreshState {
        OverviewRefreshState {
            stage: self.stage,
            status: status_option(self.status),
            indices: index_records(self.indices@),
        }
    }
}

/// Past the status request, the market status is known.
pub open spec fn overview_refresh_wf(s: OverviewRefreshState) -> bool {
    s.stage == OverviewStage::AwaitingIndices || s.stage == OverviewStage::AwaitingSubIndices
        || s.stage == OverviewStage::AwaitingMovers ==> s.status is Some
}

pub struct OverviewRecord {
    pub market_status: StatusRecord,
    pub indices: Seq<IndexRecord>,
    pub gainers: Seq<MoverRecord>,
    pub losers: Seq<MoverRecord>,
    pub turnover: Seq<MoverRecord>,
}

impl View for OverviewMarketData {
    type V = OverviewRecord;

    open spec fn view(&self) -> OverviewRecord {
        OverviewRecord {
            market_status: self.market_status@,
            indices: index_records(self.indices@),
            gainers: mover_records(self.gainers@),
            losers: mover_records(self.losers@),
            turnover: mover_records(self.turnover@),
        }
    }
}

impl OverviewRefresh {
    /// Starts an overview refresh; the first request is the market status.
    pub fn start() -> (r: (OverviewRefresh, String))
        ensures
            r.0@.stage == OverviewStage::AwaitingStatus,
            overview_refresh_wf(r.0@),
            r.1@ == market_status_path_of(),
    {
        (
            OverviewRefresh { stage: OverviewStage::AwaitingStatus, status: None, indices: Vec::new() },
            crate::text::owned("/v1/market/status"),
        )
    }

    /// Where the refresh stands.
    pub fn stage(&self) -> (r: OverviewStage)
        ensures
            r == self@.stage,
    {
        self.stage
    }

    fn movers_request(&self) -> (r: String)
        requires
            self@.status is Some,
        ensures
            r@ == market_movers_path_of(self@.status->Some_0.last_traded_date, 10),
    {
        match &self.status {
            Some(st) => market_movers_path(st.last_traded_date.as_str(), 10),
            None => {
                assert(false);
                String::new()
            },
        }
    }

    /// Takes the reply to the last request and says what comes next. Any failure
    /// ends the refresh with that failure. After the status come the indices;
    /// when there are none, the sub-indices; at most four are kept. Then come the
    /// movers of the last traded date, and the refresh yields the market data.
    pub fn advance(&mut self, reply: Reply) -> (r: RefreshStep<Result<OverviewMarketData, MeroAlphaApiError>>)
        requires
            overview_refresh_wf(old(self)@),
            old(self)@.stage != OverviewStage::Done,
        ensures
            overview_refresh_wf(final(self)@),
            r is Finished <==> final(self)@.stage == OverviewStage::Done,
            match old(self)@.stage {
                OverviewStage::AwaitingStatus => match status_of_reply(reply_view(reply)) {
                    Err(f) => r matches RefreshStep::Finished(Err(e)) && e@ == f,
                    Ok(st) => {
                        &&& final(self)@.stage == OverviewStage::AwaitingIndices
                        &&& final(self)@.status == Some(st)
                        &&& step_path(r) == Some(indices_path_of())
                    },
                },
                OverviewStage::AwaitingIndices => match indices_of_reply(reply_view(reply)) {
                    Err(f) => r matches RefreshStep::Finished(Err(e)) && e@ == f,
                    Ok(v) => if v.len() == 0 {
                        &&& final(self)@.stage == OverviewStage::AwaitingSubIndices
                        &&& final(self)@.status == old(self)@.status
                        &&& step_path(r) == Some(sub_indices_path_of())
                    } else {
                        &&& final(self)@.stage == OverviewStage::AwaitingMovers
                        &&& final(self)@.status == old(self)@.status
                        &&& final(self)@.indices == shown_indices(v)
                        &&& step_path(r) == Some(market_movers_path_of(old(self)@.status->Some_0.last_traded_date, 10))
                    },
                },
                OverviewStage::AwaitingSubIndices => match indices_of_reply(reply_view(reply)) {
                    Err(f) => r matches RefreshStep::Finished(Err(e)) && e@ == f,
                    Ok(v) => {
                        &&& final(self)@.stage == OverviewStage::AwaitingMovers
                        &&& final(self)@.status == old(self)@.status
                        &&& final(self)@.indices == shown_indices(v)
                        &&& step_path(r) == Some(market_movers_path_of(old(self)@.status->Some_0.last_traded_date, 10))
                    },
                },
                OverviewStage::AwaitingMovers => match movers_of_reply(reply_view(reply)) {
                    Err(f) => r matches RefreshStep::Finished(Err(e)) && e@ == f,
                    Ok(b) => r matches RefreshStep::Finished(Ok(d)) && d@ == (OverviewRecord {
                        market_status: old(self)@.status->Some_0,
                        indices: old(self)@.indices,
                        gainers: b.gainers,
                        losers: b.losers,
                        turnover: b.turnover,
                    }),
                },
                OverviewStage::Done => true,
            },
    {
        match self.stage {
            OverviewStage::AwaitingStatus => {
                let status = match reply {
                    Ok(body) => market_status_from_response(body.as_str()),
                    Err(e) => Err(e),
                };
                match status {
                    Err(e) => {
                        self.stage = OverviewStage::Done;
                        RefreshStep::Finished(Err(e))
                    },
                    Ok(st) => {
                        self.status = Some(st);
                        self.stage = OverviewStage::AwaitingIndices;
                        RefreshStep::Request(crate::text::owned("/v1/indices?limit=10"))
                    },
                }
            },
            OverviewStage::AwaitingIndices | OverviewStage::AwaitingSubIndices => {
                let primary = self.stage == OverviewStage::AwaitingIndices;
                let indices = match reply {
                    Ok(body) => market_indices_from_response(body.as_str()),
                    Err(e) => Err(e),
                };
                match indices {
                    Err(e) => {
                        self.stage = OverviewStage::Done;
                        RefreshStep::Finished(Err(e))
                    },
                    Ok(mut v) => {
                        if primary && v.len() == 0 {
                            self.stage = OverviewStage::AwaitingSubIndices;
                            return RefreshStep::Request(crate::text::owned("/v1/sub-indices?limit=10"));
                        }
                        let ghost all = index_records(v@);
                        v.truncate(4);
                        proof {
                            assert(index_records(v@) =~= shown_indices(all));
                        }
                        self.indices = v;
                        self.stage = OverviewStage::AwaitingMovers;
                        RefreshStep::Request(self.movers_request())
                    },
                }
            },
            OverviewStage::AwaitingMovers => {
                let movers = match reply {
                    Ok(body) => market_movers_from_response(body.as_str()),
                    Err(e) => Err(e),
                };
                match movers {
                    Err(e) => {
                        self.stage = OverviewStage::Done;
                        RefreshStep::Finished(Err(e))
                    },
                    Ok(b) => {
                        let status = self.status.take();
                        let mut indices: Vec<MarketIndexUpdate> = Vec::new();
                        std::mem::swap(&mut indices, &mut self.indices);
                        self.stage = OverviewStage::Done;
                        match status {
                            Some(market_status) => RefreshStep::Finished(
                                Ok(
                                    OverviewMarketData {
                                        market_status,
                                        indices,
                                        gainers: b.gainers,
                                        losers: b.losers,
                                        turnover: b.turnover,
                                    },
                                ),
                            ),
                            None => {
                                assert(false);
                                RefreshStep::Finished(Err(MeroAlphaApiError::MissingPrice))
                            },
                        }
                    },
                }
            },
            OverviewStage::Done => {
                assert(false);
                RefreshStep::Finished(Err(MeroAlphaApiError::MissingPrice))
            },
        }
    }
}

} // verus!
