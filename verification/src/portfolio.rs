//! Holdings import from CSV and the local settings of the terminal.
//!
//! A holdings CSV has a header line naming the columns `symbol`, `quantity`,
//! `avg_cost` and `ltp` (or the MeroShare export names `Scrip`, `Current Balance`,
//! `Last Closing Price` and `Last Transaction Price (LTP)`), in any order and
//! case. Every further non-blank line is one holding. Numbers are kept as the
//! decimal text that was read, so that their value is exactly what the `f64`
//! parser makes of it.
use vstd::prelude::*;

use crate::csv::{csv_fields, lines, non_blank, non_blank_lines, split_csv_chars, split_lines, views};
use crate::numeric::{is_float_literal, NumericText};
use crate::text::{
    chars_of, eq_ignore_case, eq_ignore_case_chars, string_of, to_upper, to_upper_chars, trim,
    trim_chars,
};

verus! {

broadcast use vstd::string::group_string_axioms;

/// One imported holding: the symbol, in upper case, and the numbers as read.
#[derive(Debug, Clone, PartialEq)]
pub struct HoldingImport {
    pub symbol: String,
    pub quantity: NumericText,
    pub avg_cost: NumericText,
    pub ltp: NumericText,
}

/// What a holding holds, as character sequences.
pub struct HoldingRecord {
    pub symbol: Seq<char>,
    pub quantity: Seq<char>,
    pub avg_cost: Seq<char>,
    pub ltp: Seq<char>,
}

impl View for HoldingImport {
    type V = HoldingRecord;

    open spec fn view(&self) -> HoldingRecord {
        HoldingRecord {
            symbol: self.symbol@,
            quantity: self.quantity@,
            avg_cost: self.avg_cost@,
            ltp: self.ltp@,
        }
    }
}

pub open spec fn holding_records(v: Seq<HoldingImport>) -> Seq<HoldingRecord> {
    v.map_values(|h: HoldingImport| h@)
}

/// The profile name and API key that the terminal keeps locally.
#[derive(Debug, Clone, PartialEq, Eq)]
pub struct AppSettings {
    pub profile_name: String,
    pub meroalpha_api_key: Option<String>,
}

/// Why an import or a storage operation failed.
#[derive(Debug, Clone, PartialEq, Eq)]
pub enum PortfolioImportError {
    EmptyCsv,
    MissingColumn(&'static str),
    InvalidColumnCount { line: usize, expected: usize, actual: usize },
    InvalidNumber { line: usize, column: &'static str, value: String },
    Storage(String),
}

/// An import error, with its texts as character sequences.
pub enum ImportFailure {
    EmptyCsv,
    MissingColumn(Seq<char>),
    InvalidColumnCount { line: int, expected: int, actual: int },
    InvalidNumber { line: int, column: Seq<char>, value: Seq<char> },
    Storage(Seq<char>),
}

impl View for PortfolioImportError {
    type V = ImportFailure;

    open spec fn view(&self) -> ImportFailure {
        match self {
            PortfolioImportError::EmptyCsv => ImportFailure::EmptyCsv,
            PortfolioImportError::MissingColumn(name) => ImportFailure::MissingColumn(name@),
            PortfolioImportError::InvalidColumnCount { line, expected, actual } => {
                ImportFailure::InvalidColumnCount {
                    line: *line as int,
                    expected: *expected as int,
                    actual: *actual as int,
                }
            },
            PortfolioImportError::InvalidNumber { line, column, value } => {
                ImportFailure::InvalidNumber { line: *line as int, column: column@, value: value@ }
            },
            PortfolioImportError::Storage(message) => ImportFailure::Storage(message@),
        }
    }
}

// ---------------------------------------------------------------------------
// Column lookup

/// Whether a header names a column, by its name or one of its aliases, ignoring ASCII case.
pub open spec fn names_column(header: Seq<char>, name: Seq<char>, aliases: Seq<Seq<char>>) -> bool {
    ||| eq_ignore_case(header, name)
    ||| exists|a: int| 0 <= a < aliases.len() && eq_ignore_case(header, #[trigger] aliases[a])
}

/// The first position, from `i` on, of a header that names the column.
pub open spec fn column_index_from(
    headers: Seq<Seq<char>>,
    name: Seq<char>,
    aliases: Seq<Seq<char>>,
    i: int,
) -> Option<int>
    decreases headers.len() - i,
{
    if i < 0 || i >= headers.len() {
        None
    } else if names_column(headers[i], name, aliases) {
        Some(i)
    } else {
        column_index_from(headers, name, aliases, i + 1)
    }
}

/// The position of the first header that names the column.
pub open spec fn column_index(headers: Seq<Seq<char>>, name: Seq<char>, aliases: Seq<Seq<char>>) -> Option<int> {
    column_index_from(headers, name, aliases, 0)
}

pub open spec fn str_views(v: Seq<&str>) -> Seq<Seq<char>> {
    v.map_values(|x: &str| x@)
}

proof fn lemma_column_index_bounds(headers: Seq<Seq<char>>, name: Seq<char>, aliases: Seq<Seq<char>>, i: int)
    ensures
        column_index_from(headers, name, aliases, i) matches Some(k) ==> 0 <= k < headers.len(),
    decreases headers.len() - i,
{
    if 0 <= i < headers.len() && !names_column(headers[i], name, aliases) {
        lemma_column_index_bounds(headers, name, aliases, i + 1);
    }
}

fn header_names_column(header: &[char], name: &[char], aliases: &[&str]) -> (b: bool)
    ensures
        b == names_column(header@, name@, str_views(aliases@)),
{
    if eq_ignore_case_chars(header, name) {
        return true;
    }
    let mut a: usize = 0;
    while a < aliases.len()
        invariant
            a <= aliases@.len(),
            forall|k: int| 0 <= k < a ==> !eq_ignore_case(header@, #[trigger] str_views(aliases@)[k]),
        decreases aliases@.len() - a,
    {
        let alias = chars_of(aliases[a]);
        if eq_ignore_case_chars(header, alias.as_slice()) {
            assert(str_views(aliases@)[a as int] == alias@);
            return true;
        }
        assert(str_views(aliases@)[a as int] == alias@);
        a = a + 1;
    }
    false
}

fn find_column_chars(headers: &Vec<Vec<char>>, name: &'static str, aliases: &[&str]) -> (r: Result<usize, PortfolioImportError>)
    ensures
        match column_index(views(headers@), name@, str_views(aliases@)) {
            Some(k) => r == Ok::<usize, PortfolioImportError>(k as usize),
            None => r matches Err(e) && e@ == ImportFailure::MissingColumn(name@),
        },
{
    let ghost hs = views(headers@);
    let name_chars = chars_of(name);
    let mut i: usize = 0;
    while i < headers.len()
        invariant
            hs == views(headers@),
            name_chars@ == name@,
            i <= headers@.len(),
            column_index(hs, name@, str_views(aliases@)) == column_index_from(
                hs,
                name@,
                str_views(aliases@),
                i as int,
            ),
        decreases headers@.len() - i,
    {
        assert(hs[i as int] == headers@[i as int]@);
        if header_names_column(headers[i].as_slice(), name_chars.as_slice(), aliases) {
            return Ok(i);
        }
        i = i + 1;
    }
    Err(PortfolioImportError::MissingColumn(name))
}

/// The position of the first header that names the column `name` or one of its `aliases`,
/// ignoring ASCII case; `MissingColumn(name)` when there is none.
pub fn find_column(headers: &[String], name: &'static str, aliases: &[&str]) -> (r: Result<usize, PortfolioImportError>)
    ensures
        match column_index(headers@.map_values(|h: String| h@), name@, str_views(aliases@)) {
            Some(k) => r == Ok::<usize, PortfolioImportError>(k as usize),
            None => r matches Err(e) && e@ == ImportFailure::MissingColumn(name@),
        },
{
    let mut hs: Vec<Vec<char>> = Vec::new();
    let mut i: usize = 0;
    while i < headers.len()
        invariant
            i <= headers@.len(),
            hs@.len() == i,
            forall|k: int| 0 <= k < i ==> (#[trigger] hs@[k])@ == headers@[k]@,
        decreases headers@.len() - i,
    {
        hs.push(chars_of(headers[i].as_str()));
        i = i + 1;
    }
    assert(views(hs@) =~= headers@.map_values(|h: String| h@));
    find_column_chars(&hs, name, aliases)
}

// ---------------------------------------------------------------------------
// Numbers

/// `s` without its underscores.
pub open spec fn without_underscores(s: Seq<char>) -> Seq<char>
    decreases s.len(),
{
    if s.len() == 0 {
        s
    } else if s.last() == '_' {
        without_underscores(s.drop_last())
    } else {
        without_underscores(s.drop_last()).push(s.last())
    }
}

/// The text handed to the number parser: trimmed, without underscores.
pub open spec fn number_text(value: Seq<char>) -> Seq<char> {
    without_underscores(trim(value))
}

/// The number in a field, or the error that names the line, the column and the field.
pub open spec fn number_field(value: Seq<char>, line: int, column: Seq<char>) -> Result<Seq<char>, ImportFailure> {
    if is_float_literal(number_text(value)) {
        Ok(number_text(value))
    } else {
        Err(ImportFailure::InvalidNumber { line, column, value })
    }
}

fn remove_underscores(s: &[char]) -> (r: Vec<char>)
    ensures
        r@ == without_underscores(s@),
{
    let mut r: Vec<char> = Vec::new();
    let mut i: usize = 0;
    while i < s.len()
        invariant
            i <= s@.len(),
            r@ == without_underscores(s@.take(i as int)),
        decreases s@.len() - i,
    {
        assert(s@.take(i + 1).drop_last() =~= s@.take(i as int));
        if s[i] != '_' {
            r.push(s[i]);
        }
        i = i + 1;
    }
    assert(s@.take(s@.len() as int) =~= s@);
    r
}

fn parse_number(value: &[char], line: usize, column: &'static str) -> (r: Result<NumericText, PortfolioImportError>)
    ensures
        match number_field(value@, line as int, column@) {
            Ok(t) => r matches Ok(n) && n@ == t,
            Err(f) => r matches Err(e) && e@ == f,
        },
{
    let trimmed = trim_chars(value);
    let cleaned = remove_underscores(trimmed.as_slice());
    match NumericText::from_chars(cleaned.as_slice()) {
        Some(n) => Ok(n),
        None => Err(PortfolioImportError::InvalidNumber { line, column, value: string_of(value) }),
    }
}

// ---------------------------------------------------------------------------
// Holdings CSV

/// The symbol cell of the MeroShare export's closing total line.
pub open spec fn total_row_symbol() -> Seq<char> {
    seq!['T', 'O', 'T', 'A', 'L', ' ', ':']
}

/// The positions of the symbol, quantity, average cost and last price columns.
pub struct ColumnPositions {
    pub symbol: int,
    pub quantity: int,
    pub avg_cost: int,
    pub ltp: int,
}

/// The holding that a line's fields describe, once the symbol is kept.
pub open spec fn holding_of(values: Seq<Seq<char>>, cols: ColumnPositions, line: int) -> Result<HoldingRecord, ImportFailure> {
    let symbol = to_upper(trim(values[cols.symbol]));
    match number_field(values[cols.quantity], line, "quantity"@) {
        Err(e) => Err(e),
        Ok(quantity) => match number_field(values[cols.avg_cost], line, "avg_cost"@) {
            Err(e) => Err(e),
            Ok(avg_cost) => match number_field(values[cols.ltp], line, "ltp"@) {
                Err(e) => Err(e),
                Ok(ltp) => Ok(HoldingRecord { symbol, quantity, avg_cost, ltp }),
            },
        },
    }
}

/// Whether a line with this upper-cased symbol is skipped: an empty symbol, or the total line.
pub open spec fn skipped_symbol(symbol: Seq<char>) -> bool {
    symbol.len() == 0 || symbol == total_row_symbol()
}

/// The holdings of the data lines `rows`, the first of which is line `line`
/// among the non-blank lines; or the error of the first line that fails.
pub open spec fn holdings_of_rows(rows: Seq<Seq<char>>, cols: ColumnPositions, width: int, line: int) -> Result<Seq<HoldingRecord>, ImportFailure>
    decreases rows.len(),
{
    if rows.len() == 0 {
        Ok(seq![])
    } else {
        let values = csv_fields(rows[0]);
        if values.len() != width {
            Err(ImportFailure::InvalidColumnCount { line, expected: width, actual: values.len() as int })
        } else if skipped_symbol(to_upper(trim(values[cols.symbol]))) {
            holdings_of_rows(rows.drop_first(), cols, width, line + 1)
        } else {
            match holding_of(values, cols, line) {
                Err(e) => Err(e),
                Ok(h) => match holdings_of_rows(rows.drop_first(), cols, width, line + 1) {
                    Err(e) => Err(e),
                    Ok(hs) => Ok(seq![h] + hs),
                },
            }
        }
    }
}

/// The holdings that a CSV text describes, or why it is refused.
pub open spec fn holdings_of_csv(input: Seq<char>) -> Result<Seq<HoldingRecord>, ImportFailure> {
    let rows = non_blank(lines(input));
    if rows.len() == 0 {
        Err(ImportFailure::EmptyCsv)
    } else {
        let headers = csv_fields(rows[0]);
        match column_index(headers, "symbol"@, seq!["scrip"@]) {
            None => Err(ImportFailure::MissingColumn("symbol"@)),
            Some(symbol) => match column_index(headers, "quantity"@, seq!["current balance"@]) {
                None => Err(ImportFailure::MissingColumn("quantity"@)),
                Some(quantity) => match column_index(headers, "avg_cost"@, seq!["last closing price"@]) {
                    None => Err(ImportFailure::MissingColumn("avg_cost"@)),
                    Some(avg_cost) => match column_index(
                        headers,
                        "ltp"@,
                        seq!["last transaction price (ltp)"@],
                    ) {
                        None => Err(ImportFailure::MissingColumn("ltp"@)),
                        Some(ltp) => holdings_of_rows(
                            rows.drop_first(),
                            ColumnPositions { symbol, quantity, avg_cost, ltp },
                            headers.len() as int,
                            2,
                        ),
                    },
                },
            },
        }
    }
}

/// `result` with `done` put in front of the holdings it holds.
pub open spec fn after(done: Seq<HoldingRecord>, result: Result<Seq<HoldingRecord>, ImportFailure>) -> Result<Seq<HoldingRecord>, ImportFailure> {
    match result {
        Ok(hs) => Ok(done + hs),
        Err(e) => Err(e),
    }
}

fn find_named_column(headers: &Vec<Vec<char>>, name: &'static str, alias: &'static str) -> (r: Result<usize, PortfolioImportError>)
    ensures
        match column_index(views(headers@), name@, seq![alias@]) {
            Some(k) => r == Ok::<usize, PortfolioImportError>(k as usize),
            None => r matches Err(e) && e@ == ImportFailure::MissingColumn(name@),
        },
{
    let aliases: [&str; 1] = [alias];
    assert(str_views(aliases@) =~= seq![alias@]);
    find_column_chars(headers, name, &aliases)
}

/// Reads the holdings of a CSV text: the first non-blank line names the columns,
/// every further non-blank line is one holding, except the lines whose symbol is
/// empty and the MeroShare total line. Symbols are trimmed and put in upper case.
/// Lines are counted among the non-blank lines, the header being line 1.
pub fn parse_holdings_csv(input: &str) -> (r: Result<Vec<HoldingImport>, PortfolioImportError>)
    ensures
        match holdings_of_csv(input@) {
            Ok(hs) => r matches Ok(v) && holding_records(v@) == hs,
            Err(f) => r matches Err(e) && e@ == f,
        },
{
    let chars = chars_of(input);
    let all_lines = split_lines(chars.as_slice());
    let rows = non_blank_lines(all_lines);
    let ghost rs = views(rows@);
    if rows.len() == 0 {
        return Err(PortfolioImportError::EmptyCsv);
    }
    assert(rs[0] == rows@[0]@);
    let headers = split_csv_chars(rows[0].as_slice());
    let ghost hs = views(headers@);
    let symbol_ix = find_named_column(&headers, "symbol", "scrip")?;
    let quantity_ix = find_named_column(&headers, "quantity", "current balance")?;
    let avg_cost_ix = find_named_column(&headers, "avg_cost", "last closing price")?;
    let ltp_ix = find_named_column(&headers, "ltp", "last transaction price (ltp)")?;
    let ghost cols = ColumnPositions {
        symbol: symbol_ix as int,
        quantity: quantity_ix as int,
        avg_cost: avg_cost_ix as int,
        ltp: ltp_ix as int,
    };
    proof {
        lemma_column_index_bounds(hs, "symbol"@, seq!["scrip"@], 0);
        lemma_column_index_bounds(hs, "quantity"@, seq!["current balance"@], 0);
        lemma_column_index_bounds(hs, "avg_cost"@, seq!["last closing price"@], 0);
        lemma_column_index_bounds(hs, "ltp"@, seq!["last transaction price (ltp)"@], 0);
    }
    let width = headers.len();
    assert(rs == non_blank(lines(input@)));
    assert(holdings_of_csv(input@) == holdings_of_rows(rs.drop_first(), cols, width as int, 2));
    let mut holdings: Vec<HoldingImport> = Vec::new();
    let n = rows.len();
    let mut r: usize = 1;
    assert(rs.skip(1) == rs.drop_first());
    assert(holding_records(holdings@) =~= Seq::<HoldingRecord>::empty());
    assert(after(Seq::<HoldingRecord>::empty(), holdings_of_rows(rs.skip(1), cols, width as int, 2)) == holdings_of_rows(rs.skip(1), cols, width as int, 2)) by {
        match holdings_of_rows(rs.skip(1), cols, width as int, 2) {
            Ok(x) => { assert(Seq::<HoldingRecord>::empty() + x =~= x); },
            Err(_) => {},
        }
    }
    while r < n
        invariant
            n == rows@.len(),
            rs == views(rows@),
            1 <= r <= n,
            width == hs.len(),
            symbol_ix < width && quantity_ix < width && avg_cost_ix < width && ltp_ix < width,
            cols == (ColumnPositions {
                symbol: symbol_ix as int,
                quantity: quantity_ix as int,
                avg_cost: avg_cost_ix as int,
                ltp: ltp_ix as int,
            }),
            holdings_of_csv(input@) == holdings_of_rows(rs.skip(1), cols, width as int, 2),
            holdings_of_rows(rs.skip(1), cols, width as int, 2) == after(
                holding_records(holdings@),
                holdings_of_rows(rs.skip(r as int), cols, width as int, r + 1),
            ),
        decreases n - r,
    {
        let ghost rest = rs.skip(r as int);
        assert(rest[0] == rows@[r as int]@);
        assert(rest.drop_first() =~= rs.skip(r + 1));
        let line_no = r + 1;
        let values = split_csv_chars(rows[r].as_slice());
        let ghost vs = views(values@);
        assert(vs == csv_fields(rest[0]));
        if values.len() != width {
            return Err(
                PortfolioImportError::InvalidColumnCount {
                    line: line_no,
                    expected: width,
                    actual: values.len(),
                },
            );
        }
        assert(vs[symbol_ix as int] == values@[symbol_ix as int]@);
        let trimmed = trim_chars(values[symbol_ix].as_slice());
        let symbol = to_upper_chars(trimmed.as_slice());
        let total: [char; 7] = ['T', 'O', 'T', 'A', 'L', ' ', ':'];
        assert(total@ =~= total_row_symbol());
        let is_total = crate::text::chars_eq(symbol.as_slice(), &total);
        if symbol.len() == 0 || is_total {
            r = r + 1;
            continue;
        }
        assert(vs[quantity_ix as int] == values@[quantity_ix as int]@);
        assert(vs[avg_cost_ix as int] == values@[avg_cost_ix as int]@);
        assert(vs[ltp_ix as int] == values@[ltp_ix as int]@);
        let quantity = parse_number(values[quantity_ix].as_slice(), line_no, "quantity")?;
        let avg_cost = parse_number(values[avg_cost_ix].as_slice(), line_no, "avg_cost")?;
        let ltp = parse_number(values[ltp_ix].as_slice(), line_no, "ltp")?;
        let holding = HoldingImport { symbol: string_of(symbol.as_slice()), quantity, avg_cost, ltp };
        let ghost before = holding_records(holdings@);
        holdings.push(holding);
        proof {
            assert(holding_records(holdings@) =~= before.push(holding@));
            match holdings_of_rows(rs.skip(r + 1), cols, width as int, r + 2) {
                Ok(x) => {
                    assert(before + (seq![holding@] + x) =~= before.push(holding@) + x);
                },
                Err(_) => {},
            }
        }
        r = r + 1;
    }
    proof {
        assert(rs.skip(n as int) =~= Seq::<Seq<char>>::empty());
        assert(holding_records(holdings@) + Seq::<HoldingRecord>::empty() =~= holding_records(holdings@));
    }
    Ok(holdings)
}

// ---------------------------------------------------------------------------
// Holdings kept in memory

/// Holdings kept in memory; an import replaces them all.
#[derive(Debug)]
pub struct InMemoryPortfolioRepository {
    holdings: Vec<HoldingImport>,
}

impl View for InMemoryPortfolioRepository {
    type V = Seq<HoldingRecord>;

    closed spec fn view(&self) -> Seq<HoldingRecord> {
        holding_records(self.holdings@)
    }
}

impl InMemoryPortfolioRepository {
    /// A repository without holdings.
    pub fn new() -> (r: Self)
        ensures
            r@.len() == 0,
    {
        let r = InMemoryPortfolioRepository { holdings: Vec::new() };
        assert(r@ =~= Seq::<HoldingRecord>::empty());
        r
    }

    /// Replaces every holding with `holdings`.
    pub fn replace_holdings(&mut self, holdings: Vec<HoldingImport>)
        ensures
            final(self)@ == holding_records(holdings@),
    {
        self.holdings = holdings;
    }

    /// The holdings, in the order they were imported.
    pub fn holdings(&self) -> (r: &Vec<HoldingImport>)
        ensures
            holding_records(r@) == self@,
    {
        &self.holdings
    }
}

// ---------------------------------------------------------------------------
// Settings

/// The profile name used when none is set.
pub open spec fn default_profile_name() -> Seq<char> {
    "NEPSE Investor"@
}

impl Default for AppSettings {
    fn default() -> (r: Self)
        ensures
            r.profile_name@ == default_profile_name(),
            r.meroalpha_api_key is None,
    {
        AppSettings { profile_name: "NEPSE Investor".to_string(), meroalpha_api_key: None }
    }
}

/// The profile name that is stored for `name`: trimmed, or the default name when blank.
pub open spec fn normalized_profile_name(name: Seq<char>) -> Seq<char> {
    if trim(name).len() == 0 {
        default_profile_name()
    } else {
        trim(name)
    }
}

/// The API key that is kept for `key`: trimmed, or none when absent or blank.
pub open spec fn normalized_api_key(key: Option<Seq<char>>) -> Option<Seq<char>> {
    match key {
        Some(k) => if trim(k).len() == 0 {
            None
        } else {
            Some(trim(k))
        },
        None => None,
    }
}

pub open spec fn option_view(o: Option<String>) -> Option<Seq<char>> {
    match o {
        Some(s) => Some(s@),
        None => None,
    }
}

pub open spec fn option_str_view(o: Option<&str>) -> Option<Seq<char>> {
    match o {
        Some(s) => Some(s@),
        None => None,
    }
}

/// The profile name to store: trimmed, or the default name when blank.
pub fn normalize_profile_name(name: &str) -> (r: String)
    ensures
        r@ == normalized_profile_name(name@),
{
    let chars = chars_of(name);
    let trimmed = trim_chars(chars.as_slice());
    if trimmed.len() == 0 {
        AppSettings::default().profile_name
    } else {
        string_of(trimmed.as_slice())
    }
}

/// The API key to keep: trimmed, or none when absent or blank.
pub fn normalize_api_key(api_key: Option<&str>) -> (r: Option<String>)
    ensures
        option_view(r) == normalized_api_key(option_str_view(api_key)),
{
    match api_key {
        Some(key) => {
            let chars = chars_of(key);
            let trimmed = trim_chars(chars.as_slice());
            if trimmed.len() == 0 {
                None
            } else {
                Some(string_of(trimmed.as_slice()))
            }
        },
        None => None,
    }
}

/// The row that saving `settings` writes: the normalized profile name and API key.
pub fn settings_row(settings: &AppSettings) -> (r: (String, Option<String>))
    ensures
        r.0@ == normalized_profile_name(settings.profile_name@),
        option_view(r.1) == normalized_api_key(option_view(settings.meroalpha_api_key)),
{
    let name = normalize_profile_name(settings.profile_name.as_str());
    let key = match &settings.meroalpha_api_key {
        Some(k) => normalize_api_key(Some(k.as_str())),
        None => normalize_api_key(None),
    };
    (name, key)
}

/// The settings that loading gives for a stored row: the default settings when no row
/// is stored, else the stored profile name and the normalized stored API key.
pub fn settings_from_row(row: Option<(String, Option<String>)>) -> (r: AppSettings)
    ensures
        match row {
            None => r.profile_name@ == default_profile_name() && r.meroalpha_api_key is None,
            Some((name, key)) => r.profile_name@ == name@ && option_view(r.meroalpha_api_key)
                == normalized_api_key(option_view(key)),
        },
{
    match row {
        None => AppSettings::default(),
        Some((profile_name, key)) => {
            let meroalpha_api_key = match &key {
                Some(k) => normalize_api_key(Some(k.as_str())),
                None => normalize_api_key(None),
            };
            AppSettings { profile_name, meroalpha_api_key }
        },
    }
}

/// The API key to use for requests: the trimmed key, when one that is not blank is set.
pub fn configured_api_key(settings: &AppSettings) -> (r: Option<String>)
    ensures
        option_view(r) == normalized_api_key(option_view(settings.meroalpha_api_key)),
{
    match &settings.meroalpha_api_key {
        Some(k) => normalize_api_key(Some(k.as_str())),
        None => normalize_api_key(None),
    }
}

/// A symbol as the repository keys it: trimmed and in ASCII upper case.
pub fn normalize_symbol(symbol: &str) -> (r: String)
    ensures
        r@ == to_upper(trim(symbol@)),
{
    let chars = chars_of(symbol);
    let trimmed = trim_chars(chars.as_slice());
    let upper = to_upper_chars(trimmed.as_slice());
    string_of(upper.as_slice())
}

// ---------------------------------------------------------------------------
// Laws

/// What every imported holding satisfies: its symbol is not empty, has no
/// surrounding white space, is in ASCII upper case and is not the MeroShare total
/// line; its numbers are accepted by the `f64` parser.
pub open spec fn well_imported(h: HoldingRecord) -> bool {
    &&& h.symbol.len() > 0
    &&& trim(h.symbol) == h.symbol
    &&& to_upper(h.symbol) == h.symbol
    &&& h.symbol != total_row_symbol()
    &&& is_float_literal(h.quantity)
    &&& is_float_literal(h.avg_cost)
    &&& is_float_literal(h.ltp)
}

proof fn lemma_symbol_shape(v: Seq<char>)
    ensures
        trim(to_upper(trim(v))) == to_upper(trim(v)),
        to_upper(to_upper(trim(v))) == to_upper(trim(v)),
{
    let t = trim(v);
    crate::text::lemma_trim_ends(v);
    crate::text::lemma_upper(t);
    let u = to_upper(t);
    if u.len() > 0 {
        assert(crate::text::is_white_space(u[0]) == crate::text::is_white_space(t[0]));
        assert(crate::text::is_white_space(u[u.len() - 1]) == crate::text::is_white_space(t[t.len() - 1]));
    }
    crate::text::lemma_trim_fixed(u);
}

proof fn lemma_rows_well_imported(rows: Seq<Seq<char>>, cols: ColumnPositions, width: int, line: int)
    requires
        0 <= cols.symbol < width,
        0 <= cols.quantity < width,
        0 <= cols.avg_cost < width,
        0 <= cols.ltp < width,
    ensures
        holdings_of_rows(rows, cols, width, line) matches Ok(hs) ==> forall|k: int|
            0 <= k < hs.len() ==> well_imported(#[trigger] hs[k]),
    decreases rows.len(),
{
    if rows.len() > 0 {
        lemma_rows_well_imported(rows.drop_first(), cols, width, line + 1);
        let values = csv_fields(rows[0]);
        if values.len() == width {
            lemma_symbol_shape(values[cols.symbol]);
            match holdings_of_rows(rows, cols, width, line) {
                Ok(hs) => {
                    if !skipped_symbol(to_upper(trim(values[cols.symbol]))) {
                        let rest = holdings_of_rows(rows.drop_first(), cols, width, line + 1);
                        assert forall|k: int| 0 <= k < hs.len() implies well_imported(#[trigger] hs[k]) by {
                            if k > 0 {
                                assert(hs[k] == rest->Ok_0[k - 1]);
                            }
                        }
                    }
                },
                Err(_) => {},
            }
        }
    }
}

/// Every holding an import yields has a non-empty, trimmed, upper-case symbol
/// other than the MeroShare total line, and numbers the `f64` parser accepts.
pub proof fn law_imported_holdings_are_well_formed(input: Seq<char>)
    ensures
        holdings_of_csv(input) matches Ok(hs) ==> forall|k: int| 0 <= k < hs.len() ==> well_imported(#[trigger] hs[k]),
{
    let rows = non_blank(lines(input));
    if rows.len() > 0 {
        let headers = csv_fields(rows[0]);
        lemma_column_index_bounds(headers, "symbol"@, seq!["scrip"@], 0);
        lemma_column_index_bounds(headers, "quantity"@, seq!["current balance"@], 0);
        lemma_column_index_bounds(headers, "avg_cost"@, seq!["last closing price"@], 0);
        lemma_column_index_bounds(headers, "ltp"@, seq!["last transaction price (ltp)"@], 0);
        match (
            column_index(headers, "symbol"@, seq!["scrip"@]),
            column_index(headers, "quantity"@, seq!["current balance"@]),
            column_index(headers, "avg_cost"@, seq!["last closing price"@]),
            column_index(headers, "ltp"@, seq!["last transaction price (ltp)"@]),
        ) {
            (Some(symbol), Some(quantity), Some(avg_cost), Some(ltp)) => {
                lemma_rows_well_imported(
                    rows.drop_first(),
                    ColumnPositions { symbol, quantity, avg_cost, ltp },
                    headers.len() as int,
                    2,
                );
            },
            _ => {},
        }
    }
}

/// Normalizing an API key twice is normalizing it once.
proof fn lemma_api_key_idempotent(key: Option<Seq<char>>)
    ensures
        normalized_api_key(normalized_api_key(key)) == normalized_api_key(key),
{
    match key {
        Some(k) => {
            crate::text::lemma_trim_idempotent(k);
        },
        None => {},
    }
}

/// Saved settings load back as they were saved, normalized: the profile name
/// trimmed (the default name when blank) and the API key trimmed (none when
/// blank). Saving what was loaded writes the same row again.
pub proof fn law_settings_round_trip(name: Seq<char>, key: Option<Seq<char>>)
    ensures
        normalized_api_key(normalized_api_key(key)) == normalized_api_key(key),
        normalized_profile_name(normalized_profile_name(name)) == normalized_profile_name(name),
{
    lemma_api_key_idempotent(key);
    crate::text::lemma_trim_idempotent(name);
    reveal_strlit("NEPSE Investor");
    let d = default_profile_name();
    assert(!crate::text::is_white_space(d[0]) && !crate::text::is_white_space(d.last()));
    crate::text::lemma_trim_fixed(d);
    if trim(name).len() > 0 {
        assert(trim(trim(name)).len() > 0);
    }
}

} // verus!
