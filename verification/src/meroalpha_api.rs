//! Reading the MeroAlpha Data API: request paths, error classification and the
//! readers that take market data out of JSON responses.
//!
//! Numbers stay in the decimal text the response gave ([`NumericText`]). Where
//! the API leaves a number out and the terminal derives it by arithmetic (a
//! mover's change from its previous close), the reader hands over the inputs of
//! that arithmetic.
use vstd::prelude::*;

use crate::json::{
    body_json, number_of, parse_json, first_number, first_number_of, first_string, first_text_of, get, option_number, option_text,
    str_views, Json,
};
use crate::numeric::NumericText;
use crate::text::{chars_of, push_chars, push_str, string_of, to_upper, to_upper_chars, trim, trim_chars};

verus! {

broadcast use vstd::string::group_string_axioms;

/// A failed request or an unusable response.
#[derive(Debug, PartialEq)]
pub enum MeroAlphaApiError {
    MissingPrice,
    InvalidJson(String),
    HttpStatus { route: String, status: u16 },
    Http(String),
}

/// A request failure, with its texts as character sequences.
pub enum ApiFailure {
    MissingPrice,
    InvalidJson(Seq<char>),
    HttpStatus { route: Seq<char>, status: int },
    Http(Seq<char>),
}

impl View for MeroAlphaApiError {
    type V = ApiFailure;

    open spec fn view(&self) -> ApiFailure {
        match self {
            MeroAlphaApiError::MissingPrice => ApiFailure::MissingPrice,
            MeroAlphaApiError::InvalidJson(m) => ApiFailure::InvalidJson(m@),
            MeroAlphaApiError::HttpStatus { route, status } => ApiFailure::HttpStatus {
                route: route@,
                status: *status as int,
            },
            MeroAlphaApiError::Http(m) => ApiFailure::Http(m@),
        }
    }
}

impl Clone for MeroAlphaApiError {
    fn clone(&self) -> (r: Self)
        ensures
            r@ == self@,
    {
        match self {
            MeroAlphaApiError::MissingPrice => MeroAlphaApiError::MissingPrice,
            MeroAlphaApiError::InvalidJson(m) => MeroAlphaApiError::InvalidJson(m.clone()),
            MeroAlphaApiError::HttpStatus { route, status } => MeroAlphaApiError::HttpStatus {
                route: route.clone(),
                status: *status,
            },
            MeroAlphaApiError::Http(m) => MeroAlphaApiError::Http(m.clone()),
        }
    }
}

/// The route of the mutual-fund NAV endpoint.
pub open spec fn nav_route() -> Seq<char> {
    "/v1/mutual-funds/nav"@
}

/// Whether a failure means that no upstream price exists for the symbol: the
/// response had no price, the symbol was rejected or not found (400, 404), or the
/// NAV endpoint refused it (403).
pub open spec fn is_unavailable(f: ApiFailure) -> bool {
    match f {
        ApiFailure::MissingPrice => true,
        ApiFailure::HttpStatus { route, status } => status == 400 || status == 404 || (status
            == 403 && route == nav_route()),
        _ => false,
    }
}

impl MeroAlphaApiError {
    /// Whether this failure means that no upstream price exists for the symbol.
    pub fn is_unavailable_price(&self) -> (b: bool)
        ensures
            b == is_unavailable(self@),
    {
        match self {
            MeroAlphaApiError::MissingPrice => true,
            MeroAlphaApiError::HttpStatus { route, status } => {
                *status == 400 || *status == 404 || (*status == 403 && crate::text::str_eq(
                    route.as_str(),
                    "/v1/mutual-funds/nav",
                ))
            },
            MeroAlphaApiError::InvalidJson(_) | MeroAlphaApiError::Http(_) => false,
        }
    }
}

/// A new price for a held symbol.
#[derive(Debug, Clone, PartialEq)]
pub struct PriceUpdate {
    pub symbol: String,
    pub ltp: NumericText,
}

/// A symbol whose price could not be refreshed, and why.
#[derive(Debug, Clone, PartialEq)]
pub struct PriceFailure {
    pub symbol: String,
    pub error: MeroAlphaApiError,
}

/// One market index.
#[derive(Debug, Clone, PartialEq)]
pub struct MarketIndexUpdate {
    pub label: String,
    pub value: NumericText,
    pub change: NumericText,
    pub change_pct: NumericText,
}

/// One market mover as the response gives it. `change` and `change_pct` are
/// absent when the response leaves them out; `previous_close` is what they are
/// then derived from.
#[derive(Debug, Clone, PartialEq)]
pub struct MarketMoverUpdate {
    pub symbol: String,
    pub ltp: NumericText,
    pub change: Option<NumericText>,
    pub change_pct: Option<NumericText>,
    pub previous_close: Option<NumericText>,
    pub volume: NumericText,
    pub turnover: NumericText,
}

/// The three mover lists of the market-movers response.
#[derive(Debug, Clone, PartialEq)]
pub struct MarketMoverBuckets {
    pub gainers: Vec<MarketMoverUpdate>,
    pub losers: Vec<MarketMoverUpdate>,
    pub turnover: Vec<MarketMoverUpdate>,
}

/// The state of the market.
#[derive(Debug, Clone, PartialEq)]
pub struct MarketStatusUpdate {
    pub status: String,
    pub is_open: bool,
    pub as_of: Option<String>,
    pub last_traded_date: String,
}

/// What the Overview page shows of the market.
#[derive(Debug, Clone, PartialEq)]
pub struct OverviewMarketData {
    pub market_status: MarketStatusUpdate,
    pub indices: Vec<MarketIndexUpdate>,
    pub gainers: Vec<MarketMoverUpdate>,
    pub losers: Vec<MarketMoverUpdate>,
    pub turnover: Vec<MarketMoverUpdate>,
}

// ---------------------------------------------------------------------------
// Views of the records

pub struct IndexRecord {
    pub label: Seq<char>,
    pub value: Seq<char>,
    pub change: Seq<char>,
    pub change_pct: Seq<char>,
}

impl View for MarketIndexUpdate {
    type V = IndexRecord;

    open spec fn view(&self) -> IndexRecord {
        IndexRecord {
            label: self.label@,
            value: self.value@,
            change: self.change@,
            change_pct: self.change_pct@,
        }
    }
}

pub struct MoverRecord {
    pub symbol: Seq<char>,
    pub ltp: Seq<char>,
    pub change: Option<Seq<char>>,
    pub change_pct: Option<Seq<char>>,
    pub previous_close: Option<Seq<char>>,
    pub volume: Seq<char>,
    pub turnover: Seq<char>,
}

impl View for MarketMoverUpdate {
    type V = MoverRecord;

    open spec fn view(&self) -> MoverRecord {
        MoverRecord {
            symbol: self.symbol@,
            ltp: self.ltp@,
            change: option_number(self.change),
            change_pct: option_number(self.change_pct),
            previous_close: option_number(self.previous_close),
            volume: self.volume@,
            turnover: self.turnover@,
        }
    }
}

pub struct StatusRecord {
    pub status: Seq<char>,
    pub is_open: bool,
    pub as_of: Option<Seq<char>>,
    pub last_traded_date: Seq<char>,
}

impl View for MarketStatusUpdate {
    type V = StatusRecord;

    open spec fn view(&self) -> StatusRecord {
        StatusRecord {
            status: self.status@,
            is_open: self.is_open,
            as_of: option_text(self.as_of),
            last_traded_date: self.last_traded_date@,
        }
    }
}

pub open spec fn index_records(v: Seq<MarketIndexUpdate>) -> Seq<IndexRecord> {
    v.map_values(|x: MarketIndexUpdate| x@)
}

pub open spec fn mover_records(v: Seq<MarketMoverUpdate>) -> Seq<MoverRecord> {
    v.map_values(|x: MarketMoverUpdate| x@)
}

pub open spec fn text_records(v: Seq<String>) -> Seq<Seq<char>> {
    v.map_values(|x: String| x@)
}

// ---------------------------------------------------------------------------
// Field names

pub open spec fn price_fields() -> Seq<Seq<char>> {
    seq!["ltp"@, "close"@, "closing_price"@, "last_traded_price"@, "last_transaction_price"@]
}

pub open spec fn nav_fields() -> Seq<Seq<char>> {
    seq!["nav"@, "nav_per_unit"@, "net_asset_value"@, "latest_nav"@, "close"@, "ltp"@]
}

pub open spec fn index_label_fields() -> Seq<Seq<char>> {
    seq!["name"@, "index_name"@, "sector"@, "sector_name"@, "symbol"@, "sub_index"@]
}

pub open spec fn index_value_fields() -> Seq<Seq<char>> {
    seq!["value"@, "current_value"@, "index_value"@, "close"@, "ltp"@, "last_value"@]
}

pub open spec fn index_change_fields() -> Seq<Seq<char>> {
    seq!["change"@, "change_value"@, "point_change"@, "absolute_change"@, "net_change"@]
}

pub open spec fn percent_fields() -> Seq<Seq<char>> {
    seq!["percent_change"@, "change_percent"@, "change_pct"@, "pct_change"@, "percentage_change"@]
}

pub open spec fn mover_change_fields() -> Seq<Seq<char>> {
    seq!["change"@, "change_value"@, "price_change"@, "net_change"@, "absolute_change"@]
}

pub open spec fn previous_close_fields() -> Seq<Seq<char>> {
    seq!["previous_close"@, "prev_close"@, "previous_ltp"@]
}

pub open spec fn volume_fields() -> Seq<Seq<char>> {
    seq!["volume"@, "vol"@, "traded_quantity"@]
}

pub open spec fn turnover_fields() -> Seq<Seq<char>> {
    seq!["turnover"@, "amount"@, "traded_value"@]
}

pub open spec fn company_symbol_fields() -> Seq<Seq<char>> {
    seq!["symbol"@, "ticker"@, "scrip"@]
}

// ---------------------------------------------------------------------------
// Response rows

/// The rows of a response: the `data` array, the response itself when it is an
/// array, or the response as the one row when it is an object.
pub open spec fn rows_of(json: Json) -> Result<Seq<Json>, ApiFailure> {
    match get(json, "data"@) {
        Some(Json::Array(rows)) => Ok(rows@),
        _ => match json {
            Json::Array(rows) => Ok(rows@),
            Json::Object(_) => Ok(seq![json]),
            _ => Err(ApiFailure::MissingPrice),
        },
    }
}

pub open spec fn refs_view(v: Seq<&Json>) -> Seq<Json> {
    v.map_values(|x: &Json| *x)
}

fn refs_of(rows: &Vec<Json>) -> (r: Vec<&Json>)
    ensures
        refs_view(r@) == rows@,
{
    let mut out: Vec<&Json> = Vec::new();
    let mut i: usize = 0;
    while i < rows.len()
        invariant
            i <= rows@.len(),
            out@.len() == i,
            forall|k: int| 0 <= k < i ==> *(#[trigger] out@[k]) == rows@[k],
        decreases rows@.len() - i,
    {
        out.push(&rows[i]);
        i = i + 1;
    }
    assert(refs_view(out@) =~= rows@);
    out
}

/// The rows of a response.
pub fn response_rows(json: &Json) -> (r: Result<Vec<&Json>, MeroAlphaApiError>)
    ensures
        match rows_of(*json) {
            Ok(rows) => r matches Ok(v) && refs_view(v@) == rows,
            Err(f) => r matches Err(e) && e@ == f,
        },
{
    match json.get("data") {
        Some(Json::Array(rows)) => {
            return Ok(refs_of(rows));
        },
        _ => {},
    }
    match json {
        Json::Array(rows) => Ok(refs_of(rows)),
        Json::Object(_) => {
            let mut v: Vec<&Json> = Vec::new();
            v.push(json);
            assert(refs_view(v@) =~= seq![*json]);
            Ok(v)
        },
        _ => Err(MeroAlphaApiError::MissingPrice),
    }
}

// ---------------------------------------------------------------------------
// Prices

/// The price in the first row of a response: the first of `fields` that holds a number.
pub open spec fn latest_number_of(json: Json, fields: Seq<Seq<char>>) -> Result<Seq<char>, ApiFailure> {
    match rows_of(json) {
        Err(f) => Err(f),
        Ok(rows) => if rows.len() == 0 {
            Err(ApiFailure::MissingPrice)
        } else {
            match first_number_of(rows[0], fields) {
                Some(n) => Ok(n),
                None => Err(ApiFailure::MissingPrice),
            }
        },
    }
}

pub open spec fn number_result(r: Result<NumericText, MeroAlphaApiError>) -> Result<Seq<char>, ApiFailure> {
    match r {
        Ok(n) => Ok(n@),
        Err(e) => Err(e@),
    }
}

fn latest_number_from_response(json: &Json, fields: &[&str]) -> (r: Result<NumericText, MeroAlphaApiError>)
    ensures
        number_result(r) == latest_number_of(*json, str_views(fields@)),
{
    let rows = response_rows(json)?;
    if rows.len() == 0 {
        return Err(MeroAlphaApiError::MissingPrice);
    }
    match first_number(rows[0], fields) {
        Some(n) => Ok(n),
        None => Err(MeroAlphaApiError::MissingPrice),
    }
}

/// The latest price in a daily-price response.
pub fn latest_price_from_daily_json(json: &Json) -> (r: Result<NumericText, MeroAlphaApiError>)
    ensures
        number_result(r) == latest_number_of(*json, price_fields()),
{
    let fields: [&str; 5] = [
        "ltp",
        "close",
        "closing_price",
        "last_traded_price",
        "last_transaction_price",
    ];
    assert(str_views(fields@) =~= price_fields());
    latest_number_from_response(json, &fields)
}

/// The latest NAV in a mutual-fund NAV response.
pub fn latest_price_from_nav_json(json: &Json) -> (r: Result<NumericText, MeroAlphaApiError>)
    ensures
        number_result(r) == latest_number_of(*json, nav_fields()),
{
    let fields: [&str; 6] = ["nav", "nav_per_unit", "net_asset_value", "latest_nav", "close", "ltp"];
    assert(str_views(fields@) =~= nav_fields());
    latest_number_from_response(json, &fields)
}

// ---------------------------------------------------------------------------
// Market status

/// The object that holds the market status: the `data` object, or the response itself.
pub open spec fn status_row(json: Json) -> Json {
    match get(json, "data"@) {
        Some(d) => if d is Object {
            d
        } else {
            json
        },
        None => json,
    }
}

/// The market status of a response; it needs a last traded date.
pub open spec fn market_status_of(json: Json) -> Result<StatusRecord, ApiFailure> {
    let row = status_row(json);
    match first_text_of(row, seq!["last_traded_date"@]) {
        None => Err(ApiFailure::MissingPrice),
        Some(last_traded_date) => Ok(
            StatusRecord {
                status: match first_text_of(row, seq!["status"@]) {
                    Some(s) => s,
                    None => "UNKNOWN"@,
                },
                is_open: match get(row, "is_open"@) {
                    Some(Json::Bool(b)) => b,
                    _ => false,
                },
                as_of: first_text_of(row, seq!["as_of"@]),
                last_traded_date,
            },
        ),
    }
}

fn text_field(row: &Json, field: &'static str) -> (r: Option<String>)
    ensures
        option_text(r) == first_text_of(*row, seq![field@]),
{
    let fields: [&str; 1] = [field];
    assert(str_views(fields@) =~= seq![field@]);
    first_string(row, &fields)
}

/// The market status of a response.
pub fn market_status_from_json(json: &Json) -> (r: Result<MarketStatusUpdate, MeroAlphaApiError>)
    ensures
        match market_status_of(*json) {
            Ok(s) => r matches Ok(u) && u@ == s,
            Err(f) => r matches Err(e) && e@ == f,
        },
{
    let row: &Json = match json.get("data") {
        Some(d) => if d.is_object() {
            d
        } else {
            json
        },
        None => json,
    };
    let last_traded_date = match text_field(row, "last_traded_date") {
        Some(d) => d,
        None => {
            return Err(MeroAlphaApiError::MissingPrice);
        },
    };
    let status = match text_field(row, "status") {
        Some(s) => s,
        None => "UNKNOWN".to_string(),
    };
    let is_open = match row.get("is_open") {
        Some(v) => match v.as_bool() {
            Some(b) => b,
            None => false,
        },
        None => false,
    };
    let as_of = text_field(row, "as_of");
    Ok(MarketStatusUpdate { status, is_open, as_of, last_traded_date })
}

// ---------------------------------------------------------------------------
// Market indices

/// The index a row describes; rows without a label or a value describe none.
/// A missing change or percent change is zero.
pub open spec fn index_of_row(row: Json) -> Option<IndexRecord> {
    match first_text_of(row, index_label_fields()) {
        None => None,
        Some(label) => match first_number_of(row, index_value_fields()) {
            None => None,
            Some(value) => Some(
                IndexRecord {
                    label,
                    value,
                    change: match first_number_of(row, index_change_fields()) {
                        Some(c) => c,
                        None => seq!['0'],
                    },
                    change_pct: match first_number_of(row, percent_fields()) {
                        Some(c) => c,
                        None => seq!['0'],
                    },
                },
            ),
        },
    }
}

/// The indices of `rows`, in order.
pub open spec fn indices_of_rows(rows: Seq<Json>) -> Seq<IndexRecord>
    decreases rows.len(),
{
    if rows.len() == 0 {
        seq![]
    } else {
        match index_of_row(rows[0]) {
            Some(i) => seq![i] + indices_of_rows(rows.drop_first()),
            None => indices_of_rows(rows.drop_first()),
        }
    }
}

pub open spec fn market_indices_of(json: Json) -> Result<Seq<IndexRecord>, ApiFailure> {
    match rows_of(json) {
        Err(f) => Err(f),
        Ok(rows) => Ok(indices_of_rows(rows)),
    }
}

fn number_or_zero(n: Option<NumericText>) -> (r: NumericText)
    ensures
        r@ == match option_number(n) {
            Some(t) => t,
            None => seq!['0'],
        },
{
    match n {
        Some(t) => t,
        None => NumericText::zero(),
    }
}

fn index_from_row(row: &Json) -> (r: Option<MarketIndexUpdate>)
    ensures
        match index_of_row(*row) {
            Some(i) => r matches Some(u) && u@ == i,
            None => r is None,
        },
{
    let label_fields: [&str; 6] = ["name", "index_name", "sector", "sector_name", "symbol", "sub_index"];
    assert(str_views(label_fields@) =~= index_label_fields());
    let value_fields: [&str; 6] = ["value", "current_value", "index_value", "close", "ltp", "last_value"];
    assert(str_views(value_fields@) =~= index_value_fields());
    let change_fields: [&str; 5] = ["change", "change_value", "point_change", "absolute_change", "net_change"];
    assert(str_views(change_fields@) =~= index_change_fields());
    let pct_fields: [&str; 5] = ["percent_change", "change_percent", "change_pct", "pct_change", "percentage_change"];
    assert(str_views(pct_fields@) =~= percent_fields());
    let label = match first_string(row, &label_fields) {
        Some(l) => l,
        None => {
            return None;
        },
    };
    let value = match first_number(row, &value_fields) {
        Some(v) => v,
        None => {
            return None;
        },
    };
    let change = number_or_zero(first_number(row, &change_fields));
    let change_pct = number_or_zero(first_number(row, &pct_fields));
    Some(MarketIndexUpdate { label, value, change, change_pct })
}

/// The market indices of a response, in order; rows without a label or a value are left out.
pub fn market_indices_from_json(json: &Json) -> (r: Result<Vec<MarketIndexUpdate>, MeroAlphaApiError>)
    ensures
        match market_indices_of(*json) {
            Ok(v) => r matches Ok(u) && index_records(u@) == v,
            Err(f) => r matches Err(e) && e@ == f,
        },
{
    let rows = response_rows(json)?;
    let ghost rs = refs_view(rows@);
    let mut out: Vec<MarketIndexUpdate> = Vec::new();
    let mut i: usize = 0;
    assert(rs.skip(0) =~= rs);
    assert(index_records(out@) + indices_of_rows(rs.skip(0)) =~= indices_of_rows(rs));
    while i < rows.len()
        invariant
            rs == refs_view(rows@),
            i <= rows@.len(),
            indices_of_rows(rs) == index_records(out@) + indices_of_rows(rs.skip(i as int)),
        decreases rows@.len() - i,
    {
        let ghost rest = rs.skip(i as int);
        assert(rest[0] == *rows@[i as int]);
        assert(rest.drop_first() =~= rs.skip(i + 1));
        let ghost before = index_records(out@);
        match index_from_row(rows[i]) {
            Some(u) => {
                out.push(u);
                assert(index_records(out@) =~= before.push(u@));
                assert(before + (seq![u@] + indices_of_rows(rs.skip(i + 1))) =~= before.push(u@) + indices_of_rows(rs.skip(i + 1)));
            },
            None => {},
        }
        i = i + 1;
    }
    assert(rs.skip(i as int) =~= Seq::<Json>::empty());
    assert(index_records(out@) + Seq::<IndexRecord>::empty() =~= index_records(out@));
    Ok(out)
}

// ---------------------------------------------------------------------------
// Market movers

/// The mover a row describes; it needs a price. The symbol is the row's own, or
/// `fallback` trimmed and in upper case; volume and turnover are zero when missing.
pub open spec fn mover_of_row(fallback: Seq<char>, row: Json) -> Result<MoverRecord, ApiFailure> {
    match first_number_of(row, price_fields()) {
        None => Err(ApiFailure::MissingPrice),
        Some(ltp) => Ok(
            MoverRecord {
                symbol: match first_text_of(row, seq!["symbol"@]) {
                    Some(s) => s,
                    None => to_upper(trim(fallback)),
                },
                ltp,
                change: first_number_of(row, mover_change_fields()),
                change_pct: first_number_of(row, percent_fields()),
                previous_close: first_number_of(row, previous_close_fields()),
                volume: match first_number_of(row, volume_fields()) {
                    Some(v) => v,
                    None => seq!['0'],
                },
                turnover: match first_number_of(row, turnover_fields()) {
                    Some(v) => v,
                    None => seq!['0'],
                },
            },
        ),
    }
}

/// The movers of `rows`, in order; the first row without a price fails them all.
pub open spec fn movers_of_rows(rows: Seq<Json>) -> Result<Seq<MoverRecord>, ApiFailure>
    decreases rows.len(),
{
    if rows.len() == 0 {
        Ok(seq![])
    } else {
        match mover_of_row(seq![], rows[0]) {
            Err(f) => Err(f),
            Ok(m) => match movers_of_rows(rows.drop_first()) {
                Err(f) => Err(f),
                Ok(ms) => Ok(seq![m] + ms),
            },
        }
    }
}

/// The movers of the list `field` of `data`; none when there is no such list.
pub open spec fn bucket_of(data: Json, field: Seq<char>) -> Result<Seq<MoverRecord>, ApiFailure> {
    match get(data, field) {
        Some(Json::Array(rows)) => movers_of_rows(rows@),
        _ => Ok(seq![]),
    }
}

pub struct BucketsRecord {
    pub gainers: Seq<MoverRecord>,
    pub losers: Seq<MoverRecord>,
    pub turnover: Seq<MoverRecord>,
}

impl View for MarketMoverBuckets {
    type V = BucketsRecord;

    open spec fn view(&self) -> BucketsRecord {
        BucketsRecord {
            gainers: mover_records(self.gainers@),
            losers: mover_records(self.losers@),
            turnover: mover_records(self.turnover@),
        }
    }
}

/// The gainers, losers and turnover leaders of a market-movers response.
pub open spec fn market_movers_of(json: Json) -> Result<BucketsRecord, ApiFailure> {
    let data = match get(json, "data"@) {
        Some(d) => d,
        None => json,
    };
    match bucket_of(data, "top_gainers"@) {
        Err(f) => Err(f),
        Ok(gainers) => match bucket_of(data, "top_losers"@) {
            Err(f) => Err(f),
            Ok(losers) => match bucket_of(data, "top_turnover"@) {
                Err(f) => Err(f),
                Ok(turnover) => Ok(BucketsRecord { gainers, losers, turnover }),
            },
        },
    }
}

fn numeric_field(row: &Json, fields: &[&str]) -> (r: NumericText)
    ensures
        r@ == match first_number_of(*row, str_views(fields@)) {
            Some(t) => t,
            None => seq!['0'],
        },
{
    number_or_zero(first_number(row, fields))
}

/// The mover a row describes.
pub fn market_mover_from_row(symbol: &str, row: &Json) -> (r: Result<MarketMoverUpdate, MeroAlphaApiError>)
    ensures
        match mover_of_row(symbol@, *row) {
            Ok(m) => r matches Ok(u) && u@ == m,
            Err(f) => r matches Err(e) && e@ == f,
        },
{
    let ltp_fields: [&str; 5] = ["ltp", "close", "closing_price", "last_traded_price", "last_transaction_price"];
    assert(str_views(ltp_fields@) =~= price_fields());
    let change_fields: [&str; 5] = ["change", "change_value", "price_change", "net_change", "absolute_change"];
    assert(str_views(change_fields@) =~= mover_change_fields());
    let pct_fields: [&str; 5] = ["percent_change", "change_percent", "change_pct", "pct_change", "percentage_change"];
    assert(str_views(pct_fields@) =~= percent_fields());
    let prev_fields: [&str; 3] = ["previous_close", "prev_close", "previous_ltp"];
    assert(str_views(prev_fields@) =~= previous_close_fields());
    let vol_fields: [&str; 3] = ["volume", "vol", "traded_quantity"];
    assert(str_views(vol_fields@) =~= volume_fields());
    let turnover_names: [&str; 3] = ["turnover", "amount", "traded_value"];
    assert(str_views(turnover_names@) =~= turnover_fields());
    let ltp = match first_number(row, &ltp_fields) {
        Some(n) => n,
        None => {
            return Err(MeroAlphaApiError::MissingPrice);
        },
    };
    let change = first_number(row, &change_fields);
    let change_pct = first_number(row, &pct_fields);
    let previous_close = first_number(row, &prev_fields);
    let volume = numeric_field(row, &vol_fields);
    let turnover = numeric_field(row, &turnover_names);
    let symbol = match text_field(row, "symbol") {
        Some(s) => s,
        None => {
            let chars = chars_of(symbol);
            let trimmed = trim_chars(chars.as_slice());
            let upper = to_upper_chars(trimmed.as_slice());
            string_of(upper.as_slice())
        },
    };
    Ok(MarketMoverUpdate { symbol, ltp, change, change_pct, previous_close, volume, turnover })
}

fn market_mover_bucket(data: &Json, field: &str) -> (r: Result<Vec<MarketMoverUpdate>, MeroAlphaApiError>)
    ensures
        match bucket_of(*data, field@) {
            Ok(v) => r matches Ok(u) && mover_records(u@) == v,
            Err(f) => r matches Err(e) && e@ == f,
        },
{
    let rows = match data.get(field) {
        Some(Json::Array(rows)) => rows,
        _ => {
            return Ok(Vec::new());
        },
    };
    let mut out: Vec<MarketMoverUpdate> = Vec::new();
    let mut i: usize = 0;
    assert(rows@.skip(0) =~= rows@);
    assert(movers_of_rows(rows@) == match movers_of_rows(rows@.skip(0)) {
        Ok(x) => Ok(mover_records(out@) + x),
        Err(f) => Err(f),
    }) by {
        match movers_of_rows(rows@) {
            Ok(x) => { assert(mover_records(out@) + x =~= x); },
            Err(_) => {},
        }
    }
    while i < rows.len()
        invariant
            i <= rows@.len(),
            bucket_of(*data, field@) == movers_of_rows(rows@),
            movers_of_rows(rows@) == match movers_of_rows(rows@.skip(i as int)) {
                Ok(x) => Ok(mover_records(out@) + x),
                Err(f) => Err::<Seq<MoverRecord>, ApiFailure>(f),
            },
        decreases rows@.len() - i,
    {
        let ghost rest = rows@.skip(i as int);
        assert(rest[0] == rows@[i as int]);
        assert(rest.drop_first() =~= rows@.skip(i + 1));
        assert(Seq::<char>::empty() == ""@) by {
            assert(""@.len() == 0) by {
                reveal_strlit("");
            }
        }
        let m = market_mover_from_row("", &rows[i])?;
        let ghost before = mover_records(out@);
        out.push(m);
        proof {
            assert(mover_records(out@) =~= before.push(m@));
            match movers_of_rows(rows@.skip(i + 1)) {
                Ok(x) => {
                    assert(before + (seq![m@] + x) =~= before.push(m@) + x);
                },
                Err(_) => {},
            }
        }
        i = i + 1;
    }
    assert(rows@.skip(i as int) =~= Seq::<Json>::empty());
    assert(mover_records(out@) + Seq::<MoverRecord>::empty() =~= mover_records(out@));
    Ok(out)
}

/// The gainers, losers and turnover leaders of a market-movers response.
pub fn market_movers_from_json(json: &Json) -> (r: Result<MarketMoverBuckets, MeroAlphaApiError>)
    ensures
        match market_movers_of(*json) {
            Ok(b) => r matches Ok(u) && u@ == b,
            Err(f) => r matches Err(e) && e@ == f,
        },
{
    let data: &Json = match json.get("data") {
        Some(d) => d,
        None => json,
    };
    let gainers = market_mover_bucket(data, "top_gainers")?;
    let losers = market_mover_bucket(data, "top_losers")?;
    let turnover = market_mover_bucket(data, "top_turnover")?;
    Ok(MarketMoverBuckets { gainers, losers, turnover })
}

// ---------------------------------------------------------------------------
// Company symbols

/// The symbols of a company-list response, trimmed and in upper case, in order.
pub open spec fn symbols_of_rows(rows: Seq<Json>) -> Seq<Seq<char>>
    decreases rows.len(),
{
    if rows.len() == 0 {
        seq![]
    } else {
        match first_text_of(rows[0], company_symbol_fields()) {
            Some(s) => if to_upper(trim(s)).len() > 0 {
                seq![to_upper(trim(s))] + symbols_of_rows(rows.drop_first())
            } else {
                symbols_of_rows(rows.drop_first())
            },
            None => symbols_of_rows(rows.drop_first()),
        }
    }
}

pub open spec fn company_symbols_of(json: Json) -> Result<Seq<Seq<char>>, ApiFailure> {
    match rows_of(json) {
        Err(f) => Err(f),
        Ok(rows) => Ok(symbols_of_rows(rows)),
    }
}

/// The company symbols of a company-list response.
pub fn company_symbols_from_json(json: &Json) -> (r: Result<Vec<String>, MeroAlphaApiError>)
    ensures
        match company_symbols_of(*json) {
            Ok(v) => r matches Ok(u) && text_records(u@) == v,
            Err(f) => r matches Err(e) && e@ == f,
        },
{
    let fields: [&str; 3] = ["symbol", "ticker", "scrip"];
    assert(str_views(fields@) =~= company_symbol_fields());
    let rows = response_rows(json)?;
    let ghost rs = refs_view(rows@);
    let mut out: Vec<String> = Vec::new();
    let mut i: usize = 0;
    assert(rs.skip(0) =~= rs);
    assert(text_records(out@) + symbols_of_rows(rs.skip(0)) =~= symbols_of_rows(rs));
    while i < rows.len()
        invariant
            rs == refs_view(rows@),
            str_views(fields@) == company_symbol_fields(),
            i <= rows@.len(),
            symbols_of_rows(rs) == text_records(out@) + symbols_of_rows(rs.skip(i as int)),
        decreases rows@.len() - i,
    {
        let ghost rest = rs.skip(i as int);
        assert(rest[0] == *rows@[i as int]);
        assert(rest.drop_first() =~= rs.skip(i + 1));
        let ghost before = text_records(out@);
        match first_string(rows[i], &fields) {
            Some(s) => {
                let chars = chars_of(s.as_str());
                let trimmed = trim_chars(chars.as_slice());
                let upper = to_upper_chars(trimmed.as_slice());
                if upper.len() > 0 {
                    let sym = string_of(upper.as_slice());
                    out.push(sym);
                    assert(text_records(out@) =~= before.push(sym@));
                    assert(before + (seq![sym@] + symbols_of_rows(rs.skip(i + 1))) =~= before.push(sym@) + symbols_of_rows(rs.skip(i + 1)));
                }
            },
            None => {},
        }
        i = i + 1;
    }
    assert(rs.skip(i as int) =~= Seq::<Json>::empty());
    assert(text_records(out@) + Seq::<Seq<char>>::empty() =~= text_records(out@));
    Ok(out)
}

// ---------------------------------------------------------------------------
// Request paths

/// The daily-price request for a symbol on a trading date.
pub open spec fn daily_price_path_of(symbol: Seq<char>, date: Seq<char>) -> Seq<char> {
    "/v1/prices/daily?symbol="@ + to_upper(trim(symbol)) + "&date="@ + trim(date)
        + "&adjusted=false&limit=1"@
}

/// The market-movers request for a trading date.
pub open spec fn market_movers_path_of(date: Seq<char>, limit: nat) -> Seq<char> {
    "/v1/market/movers?date="@ + trim(date) + "&limit="@ + crate::format::decimal(limit)
}

/// The mutual-fund NAV request for a symbol.
pub open spec fn mutual_fund_nav_path_of(symbol: Seq<char>) -> Seq<char> {
    "/v1/mutual-funds/nav?symbol="@ + to_upper(trim(symbol)) + "&period=range&limit=1"@
}

fn upper_trimmed(s: &str) -> (r: Vec<char>)
    ensures
        r@ == to_upper(trim(s@)),
{
    let chars = chars_of(s);
    let t = trim_chars(chars.as_slice());
    to_upper_chars(t.as_slice())
}

/// The daily-price request for a symbol on a trading date.
pub fn daily_price_path(symbol: &str, date: &str) -> (r: String)
    ensures
        r@ == daily_price_path_of(symbol@, date@),
{
    let mut out = String::new();
    push_str(&mut out, "/v1/prices/daily?symbol=");
    let sym = upper_trimmed(symbol);
    push_chars(&mut out, sym.as_slice());
    push_str(&mut out, "&date=");
    let d = chars_of(date);
    let dt = trim_chars(d.as_slice());
    push_chars(&mut out, dt.as_slice());
    push_str(&mut out, "&adjusted=false&limit=1");
    assert(out@ =~= daily_price_path_of(symbol@, date@));
    out
}

/// The market-movers request for a trading date.
pub fn market_movers_path(date: &str, limit: usize) -> (r: String)
    ensures
        r@ == market_movers_path_of(date@, limit as nat),
{
    let mut out = String::new();
    push_str(&mut out, "/v1/market/movers?date=");
    let d = chars_of(date);
    let dt = trim_chars(d.as_slice());
    push_chars(&mut out, dt.as_slice());
    push_str(&mut out, "&limit=");
    let n = crate::format::decimal_string(limit);
    push_str(&mut out, n.as_str());
    assert(out@ =~= market_movers_path_of(date@, limit as nat));
    out
}

/// The mutual-fund NAV request for a symbol.
pub fn mutual_fund_nav_path(symbol: &str) -> (r: String)
    ensures
        r@ == mutual_fund_nav_path_of(symbol@),
{
    let mut out = String::new();
    push_str(&mut out, "/v1/mutual-funds/nav?symbol=");
    let sym = upper_trimmed(symbol);
    push_chars(&mut out, sym.as_slice());
    push_str(&mut out, "&period=range&limit=1");
    assert(out@ =~= mutual_fund_nav_path_of(symbol@));
    out
}

/// The route of a request path: the path up to its query string.
pub open spec fn route_of(path: Seq<char>) -> Seq<char> {
    if exists|i: int| 0 <= i < path.len() && path[i] == '?' {
        path.take(choose|i: int| 0 <= i < path.len() && path[i] == '?' && forall|j: int| 0 <= j < i ==> path[j] != '?')
    } else {
        path
    }
}

/// The route of a request path, as error reports name it.
pub fn request_route(path: &str) -> (r: String)
    ensures
        r@ == route_of(path@),
{
    let chars = chars_of(path);
    let n = chars.len();
    let mut i: usize = 0;
    while i < n && chars[i] != '?'
        invariant
            n == chars@.len(),
            i <= n,
            forall|j: int| 0 <= j < i ==> chars@[j] != '?',
        decreases n - i,
    {
        i = i + 1;
    }
    proof {
        if i < n {
            let k = choose|k: int| 0 <= k < chars@.len() && chars@[k] == '?' && forall|j: int| 0 <= j < k ==> chars@[j] != '?';
            assert(k == i);
        } else {
            assert(chars@.take(n as int) =~= chars@);
        }
    }
    let head = crate::text::copy_range(chars.as_slice(), 0, i);
    string_of(head.as_slice())
}

// ---------------------------------------------------------------------------
// Response snippets for diagnostics

/// The white-space separated words of `s` after the partial word `cur`.
pub open spec fn words_from(s: Seq<char>, cur: Seq<char>) -> Seq<Seq<char>>
    decreases s.len(),
{
    let done: Seq<Seq<char>> = if cur.len() > 0 {
        seq![cur]
    } else {
        seq![]
    };
    if s.len() == 0 {
        done
    } else if crate::text::is_white_space(s[0]) {
        done + words_from(s.drop_first(), seq![])
    } else {
        words_from(s.drop_first(), cur.push(s[0]))
    }
}

/// The white-space separated words of `s`, as `str::split_whitespace` yields them.
pub open spec fn words(s: Seq<char>) -> Seq<Seq<char>> {
    words_from(s, seq![])
}

/// A response body for a log line: its words joined by single spaces, cut after
/// 500 characters and then marked with `...`.
pub open spec fn snippet_of(body: Seq<char>) -> Seq<char> {
    let joined = crate::text::join(words(body), seq![' ']);
    if joined.len() > 500 {
        joined.take(500) + "..."@
    } else {
        joined
    }
}

fn split_words(s: &[char]) -> (r: Vec<Vec<char>>)
    ensures
        crate::csv::views(r@) == words(s@),
{
    let mut out: Vec<Vec<char>> = Vec::new();
    let mut cur: Vec<char> = Vec::new();
    let mut i: usize = 0;
    assert(s@.skip(0) =~= s@);
    assert(cur@ =~= Seq::<char>::empty());
    assert(crate::csv::views(out@) + words_from(s@.skip(0), cur@) =~= words(s@));
    while i < s.len()
        invariant
            i <= s@.len(),
            words(s@) == crate::csv::views(out@) + words_from(s@.skip(i as int), cur@),
        decreases s@.len() - i,
    {
        let ghost rest = s@.skip(i as int);
        assert(rest[0] == s@[i as int]);
        assert(rest.drop_first() =~= s@.skip(i + 1));
        if crate::text::is_whitespace(s[i]) {
            if cur.len() > 0 {
                let ghost before = crate::csv::views(out@);
                let ghost w = cur@;
                out.push(cur);
                assert(crate::csv::views(out@) =~= before + seq![w]);
                cur = Vec::new();
            } else {
                assert(crate::csv::views(out@) =~= crate::csv::views(out@) + Seq::<Seq<char>>::empty());
            }
            assert(cur@ =~= Seq::<char>::empty());
        } else {
            cur.push(s[i]);
        }
        i = i + 1;
    }
    assert(s@.skip(i as int) =~= Seq::<char>::empty());
    if cur.len() > 0 {
        let ghost before = crate::csv::views(out@);
        let ghost w = cur@;
        out.push(cur);
        assert(crate::csv::views(out@) =~= before + seq![w]);
    } else {
        assert(crate::csv::views(out@) =~= crate::csv::views(out@) + Seq::<Seq<char>>::empty());
    }
    out
}

/// A response body shortened for a log line.
pub fn debug_body_snippet(body: &str) -> (r: String)
    ensures
        r@ == snippet_of(body@),
{
    let chars = chars_of(body);
    let ws = split_words(chars.as_slice());
    let ghost wv = crate::csv::views(ws@);
    let mut joined: Vec<char> = Vec::new();
    let mut i: usize = 0;
    assert(wv.take(0) =~= Seq::<Seq<char>>::empty());
    while i < ws.len()
        invariant
            wv == crate::csv::views(ws@),
            i <= ws@.len(),
            joined@ == crate::text::join(wv.take(i as int), seq![' ']),
        decreases ws@.len() - i,
    {
        let ghost before = joined@;
        if i > 0 {
            joined.push(' ');
        }
        let w = &ws[i];
        let mut k: usize = 0;
        let ghost mid = joined@;
        while k < w.len()
            invariant
                k <= w@.len(),
                joined@ == mid + w@.take(k as int),
            decreases w@.len() - k,
        {
            joined.push(w[k]);
            k = k + 1;
            assert(joined@ =~= mid + w@.take(k as int));
        }
        proof {
            assert(w@.take(w@.len() as int) =~= w@);
            let t = wv.take(i + 1);
            assert(t.drop_last() =~= wv.take(i as int));
            assert(t.last() == w@);
            if i > 0 {
                assert(joined@ =~= crate::text::join(wv.take(i as int), seq![' ']) + seq![' '] + w@);
            } else {
                assert(joined@ =~= w@);
            }
        }
        i = i + 1;
    }
    assert(wv.take(ws@.len() as int) =~= wv);
    if joined.len() > 500 {
        let cut = crate::text::copy_range(joined.as_slice(), 0, 500);
        let mut out = string_of(cut.as_slice());
        push_str(&mut out, "...");
        out
    } else {
        string_of(joined.as_slice())
    }
}

// ---------------------------------------------------------------------------
// Laws of the readers

/// A lookup of candidate fields takes the first field when it holds a number.
proof fn lemma_first_field_wins(row: Json, fields: Seq<Seq<char>>, n: Seq<char>)
    requires
        fields.len() > 0,
        get(row, fields[0]) matches Some(v) && number_of(v) == Some(n),
    ensures
        first_number_of(row, fields) == Some(n),
{
}

/// A failed price lookup is unavailable (the symbol keeps its local valuation)
/// exactly when the response had no price, any route rejected the symbol with
/// 400 or did not find it (404), or the NAV route refused it with 403; request
/// and parse failures are hard failures.
pub proof fn law_unavailable_prices(route: Seq<char>, status: int, message: Seq<char>)
    ensures
        is_unavailable(ApiFailure::MissingPrice),
        status == 400 || status == 404 ==> is_unavailable(ApiFailure::HttpStatus { route, status }),
        is_unavailable(ApiFailure::HttpStatus { route, status: 403 }) <==> route == "/v1/mutual-funds/nav"@,
        status != 400 && status != 404 && status != 403 ==> !is_unavailable(ApiFailure::HttpStatus { route, status }),
        !is_unavailable(ApiFailure::InvalidJson(message)),
        !is_unavailable(ApiFailure::Http(message)),
{
}

/// The price of a daily-price response is the first row's `ltp` when that holds
/// a number, whatever else the row holds.
pub proof fn law_daily_price_is_ltp(json: Json, v: Json, n: Seq<char>)
    requires
        rows_of(json) is Ok,
        rows_of(json)->Ok_0.len() > 0,
        get(rows_of(json)->Ok_0[0], "ltp"@) == Some(v),
        number_of(v) == Some(n),
    ensures
        latest_number_of(json, price_fields()) == Ok::<Seq<char>, ApiFailure>(n),
{
    lemma_first_field_wins(rows_of(json)->Ok_0[0], price_fields(), n);
}

/// The price of a NAV response is the first row's `nav` when that holds a
/// number, whatever else the row holds.
pub proof fn law_nav_price_is_nav(json: Json, v: Json, n: Seq<char>)
    requires
        rows_of(json) is Ok,
        rows_of(json)->Ok_0.len() > 0,
        get(rows_of(json)->Ok_0[0], "nav"@) == Some(v),
        number_of(v) == Some(n),
    ensures
        latest_number_of(json, nav_fields()) == Ok::<Seq<char>, ApiFailure>(n),
{
    lemma_first_field_wins(rows_of(json)->Ok_0[0], nav_fields(), n);
}

/// A mover row whose `ltp` holds a number is read, with that number as its price.
pub proof fn law_mover_price_is_ltp(fallback: Seq<char>, row: Json, v: Json, n: Seq<char>)
    requires
        get(row, "ltp"@) == Some(v),
        number_of(v) == Some(n),
    ensures
        mover_of_row(fallback, row) is Ok,
        mover_of_row(fallback, row)->Ok_0.ltp == n,
{
    lemma_first_field_wins(row, price_fields(), n);
}

/// Of a mover row that has a price: a number under `change` is its change, a
/// number under `percent_change` its percent change, and a number under
/// `previous_close` the previous close handed over for the derived change.
pub proof fn law_mover_change_fields(fallback: Seq<char>, row: Json, field: Seq<char>, v: Json, n: Seq<char>)
    requires
        first_number_of(row, price_fields()) is Some,
        field == "change"@ || field == "percent_change"@ || field == "previous_close"@,
        get(row, field) == Some(v),
        number_of(v) == Some(n),
    ensures
        mover_of_row(fallback, row) is Ok,
        field == "change"@ ==> mover_of_row(fallback, row)->Ok_0.change == Some(n),
        field == "percent_change"@ ==> mover_of_row(fallback, row)->Ok_0.change_pct == Some(n),
        field == "previous_close"@ ==> mover_of_row(fallback, row)->Ok_0.previous_close == Some(n),
{
    if field == "change"@ {
        lemma_first_field_wins(row, mover_change_fields(), n);
    }
    if field == "percent_change"@ {
        lemma_first_field_wins(row, percent_fields(), n);
    }
    if field == "previous_close"@ {
        lemma_first_field_wins(row, previous_close_fields(), n);
    }
}

/// An index row with a non-blank `name` and a number under `value` is shown,
/// labelled with the trimmed name and valued at that number; a row without any
/// value field holding a number is left out.
pub proof fn law_index_rows(row: Json, name: String, v: Json, n: Seq<char>)
    ensures
        (get(row, "name"@) == Some(Json::String(name)) && trim(name@).len() > 0 && get(row, "value"@) == Some(v)
            && number_of(v) == Some(n)) ==> (index_of_row(row) is Some && index_of_row(row)->Some_0.label == trim(
            name@,
        ) && index_of_row(row)->Some_0.value == n),
        first_number_of(row, index_value_fields()) is None ==> index_of_row(row) is None,
{
    if get(row, "name"@) == Some(Json::String(name)) && trim(name@).len() > 0 && get(row, "value"@) == Some(v)
        && number_of(v) == Some(n) {
        assert(first_text_of(row, index_label_fields()) == Some(trim(name@)));
        lemma_first_field_wins(row, index_value_fields(), n);
    }
}

/// The market status is read from the `data` object when there is one, else from
/// the response itself; its last traded date is the trimmed `last_traded_date`,
/// and a blank or missing one is a missing price. The market is open only when
/// `is_open` is `true`.
pub proof fn law_market_status(json: Json, date: String)
    ensures
        (get(json, "data"@) matches Some(d) && d is Object) ==> status_row(json) == get(json, "data"@)->Some_0,
        get(json, "data"@) is None ==> status_row(json) == json,
        get(status_row(json), "last_traded_date"@) == Some(Json::String(date)) && trim(date@).len() > 0
            ==> market_status_of(json) is Ok && market_status_of(json)->Ok_0.last_traded_date == trim(date@),
        get(status_row(json), "last_traded_date"@) == Some(Json::String(date)) && trim(date@).len() == 0
            ==> market_status_of(json) == Err::<StatusRecord, ApiFailure>(ApiFailure::MissingPrice),
        market_status_of(json) is Ok ==> (market_status_of(json)->Ok_0.is_open <==> get(status_row(json), "is_open"@)
            == Some(Json::Bool(true))),
{
    let fields = seq!["last_traded_date"@];
    assert(fields.drop_first() =~= Seq::<Seq<char>>::empty());
    assert(first_text_of(status_row(json), fields.drop_first()) is None);
}

// ---------------------------------------------------------------------------
// Response bodies

/// The latest price in a daily-price response body: `InvalidJson` for a body
/// that is not JSON, else the price read from the document.
pub fn latest_price_from_daily_response(body: &str) -> (r: Result<NumericText, MeroAlphaApiError>)
    ensures
        number_result(r) == match body_json(body@) {
            Ok(j) => latest_number_of(j, price_fields()),
            Err(f) => Err(f),
        },
{
    let json = match parse_json(body) {
        Ok(j) => j,
        Err(e) => {
            return Err(e);
        },
    };
    latest_price_from_daily_json(&json)
}

/// The latest NAV in a mutual-fund NAV response body: `InvalidJson` for a body
/// that is not JSON, else the NAV read from the document.
pub fn latest_price_from_nav_response(body: &str) -> (r: Result<NumericText, MeroAlphaApiError>)
    ensures
        number_result(r) == match body_json(body@) {
            Ok(j) => latest_number_of(j, nav_fields()),
            Err(f) => Err(f),
        },
{
    let json = match parse_json(body) {
        Ok(j) => j,
        Err(e) => {
            return Err(e);
        },
    };
    latest_price_from_nav_json(&json)
}

/// The market status in a market-status response body.
pub fn market_status_from_response(body: &str) -> (r: Result<MarketStatusUpdate, MeroAlphaApiError>)
    ensures
        match body_json(body@) {
            Ok(j) => match market_status_of(j) {
                Ok(s) => r matches Ok(u) && u@ == s,
                Err(f) => r matches Err(e) && e@ == f,
            },
            Err(f) => r matches Err(e) && e@ == f,
        },
{
    let json = match parse_json(body) {
        Ok(j) => j,
        Err(e) => {
            return Err(e);
        },
    };
    market_status_from_json(&json)
}

/// The market indices in an indices response body.
pub fn market_indices_from_response(body: &str) -> (r: Result<Vec<MarketIndexUpdate>, MeroAlphaApiError>)
    ensures
        match body_json(body@) {
            Ok(j) => match market_indices_of(j) {
                Ok(v) => r matches Ok(u) && index_records(u@) == v,
                Err(f) => r matches Err(e) && e@ == f,
            },
            Err(f) => r matches Err(e) && e@ == f,
        },
{
    let json = match parse_json(body) {
        Ok(j) => j,
        Err(e) => {
            return Err(e);
        },
    };
    market_indices_from_json(&json)
}

/// The gainers, losers and turnover leaders in a market-movers response body.
pub fn market_movers_from_response(body: &str) -> (r: Result<MarketMoverBuckets, MeroAlphaApiError>)
    ensures
        match body_json(body@) {
            Ok(j) => match market_movers_of(j) {
                Ok(b) => r matches Ok(u) && u@ == b,
                Err(f) => r matches Err(e) && e@ == f,
            },
            Err(f) => r matches Err(e) && e@ == f,
        },
{
    let json = match parse_json(body) {
        Ok(j) => j,
        Err(e) => {
            return Err(e);
        },
    };
    market_movers_from_json(&json)
}

/// The company symbols in a company-list response body.
pub fn company_symbols_from_response(body: &str) -> (r: Result<Vec<String>, MeroAlphaApiError>)
    ensures
        match body_json(body@) {
            Ok(j) => match company_symbols_of(j) {
                Ok(v) => r matches Ok(u) && text_records(u@) == v,
                Err(f) => r matches Err(e) && e@ == f,
            },
            Err(f) => r matches Err(e) && e@ == f,
        },
{
    let json = match parse_json(body) {
        Ok(j) => j,
        Err(e) => {
            return Err(e);
        },
    };
    company_symbols_from_json(&json)
}

// ---------------------------------------------------------------------------
// The client

/// Where requests go and the key they carry.
pub struct MeroAlphaClient {
    base_url: String,
    api_key: String,
}

pub struct ClientRecord {
    pub base_url: Seq<char>,
    pub api_key: Seq<char>,
}

impl View for MeroAlphaClient {
    type V = ClientRecord;

    closed spec fn view(&self) -> ClientRecord {
        ClientRecord { base_url: self.base_url@, api_key: self.api_key@ }
    }
}

/// The address of the MeroAlpha Data API.
pub open spec fn meroalpha_base_url() -> Seq<char> {
    "https://api.meroalpha.com"@
}

impl MeroAlphaClient {
    /// A client of the MeroAlpha Data API that sends `api_key`.
    pub fn new(api_key: String) -> (r: Self)
        ensures
            r@.base_url == meroalpha_base_url(),
            r@.api_key == api_key@,
    {
        MeroAlphaClient { base_url: "https://api.meroalpha.com".to_string(), api_key }
    }

    /// The address requests go to.
    pub fn base_url(&self) -> (r: &str)
        ensures
            r@ == self@.base_url,
    {
        self.base_url.as_str()
    }

    /// The full address of a request path.
    pub fn request_url(&self, path: &str) -> (r: String)
        ensures
            r@ == self@.base_url + path@,
    {
        let mut out = crate::text::owned(self.base_url.as_str());
        push_str(&mut out, path);
        out
    }

    /// The `Authorization` header value: the API key as a bearer token.
    pub fn authorization(&self) -> (r: String)
        ensures
            r@ == "Bearer "@ + self@.api_key,
    {
        let mut out = crate::text::owned("Bearer ");
        push_str(&mut out, self.api_key.as_str());
        out
    }
}

} // verus!
