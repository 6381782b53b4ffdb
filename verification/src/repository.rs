//! The stock-history repository: which columns a client may name, how AG Grid
//! filters and sorts become a parameterized SQL query, and how database text
//! becomes rows.

use crate::calendar::ag_grid_date_part;
use crate::calendar::ag_grid_date_text;
use crate::calendar::parse_ymd_date;
use crate::calendar::date_from_text;
use crate::calendar::CalendarDate;
use crate::text::decimal_chars;
use crate::text::decimal_text;
use crate::decimal::bigdecimal_from_text;
use crate::decimal::parse_bigdecimal;
use crate::model::RawStockHistoryRow;
use crate::model::StockHistoryRow;
use crate::ssrm::DateFilterModel;
use crate::ssrm::FilterModel;
use crate::ssrm::GetRowsRequest;
use crate::ssrm::SortModelItem;
use crate::ssrm::NumberFilterModel;
use crate::ssrm::TextFilterModel;
use crate::text::join_texts;
use crate::text::joined;
use crate::text::int_error_message;
use crate::text::parse_u64_text;
use crate::text::same_text;
use crate::text::texts_view;
use crate::text::to_lowercase_text;
use crate::text::lowercase_text;
use crate::text::u64_from_text;
use crate::text::IntTextError;
use vstd::prelude::*;

verus! {

/// A failure of the repository: from the database, or in converting what the
/// client or the database sent.
#[derive(Clone, Debug, PartialEq, Eq)]
pub enum RepositoryError {
    /// The database failed; the message is the driver's.
    Database(String),
    /// A filter or a sort of the request could not be converted.
    Conversion(String),
    /// A value stored in the database could not be converted.
    StoredValue(String),
}

/// True when `e` is a conversion error with message `msg`.
pub open spec fn conversion_error(e: RepositoryError, msg: Seq<char>) -> bool {
    e matches RepositoryError::Conversion(m) && m@ == msg
}

/// True when `e` is a stored-value error with message `msg`.
pub open spec fn stored_value_error(e: RepositoryError, msg: Seq<char>) -> bool {
    e matches RepositoryError::StoredValue(m) && m@ == msg
}

/// The text that a repository error displays.
pub open spec fn error_display(e: RepositoryError) -> Seq<char> {
    match e {
        RepositoryError::Database(m) => "database error: "@ + m@,
        RepositoryError::Conversion(m) => "conversion error: "@ + m@,
        RepositoryError::StoredValue(m) => "conversion error: "@ + m@,
    }
}

impl RepositoryError {
    /// Whether this error stems from bad client input (filters/sort) rather
    /// than from the database (a failure, or a stored value that does not
    /// convert).
    pub fn is_client_error(&self) -> (res: bool)
        ensures
            res == (self is Conversion),
    {
        match self {
            RepositoryError::Conversion(_) => true,
            RepositoryError::Database(_) => false,
            RepositoryError::StoredValue(_) => false,
        }
    }

    /// The text of the error, as it is shown to the client.
    pub fn to_message(&self) -> (res: String)
        ensures
            res@ == error_display(*self),
    {
        match self {
            RepositoryError::Database(m) => {
                let mut s = String::from_str("database error: ");
                s.append(m.as_str());
                s
            },
            RepositoryError::Conversion(m) => {
                let mut s = String::from_str("conversion error: ");
                s.append(m.as_str());
                s
            },
            RepositoryError::StoredValue(m) => {
                let mut s = String::from_str("conversion error: ");
                s.append(m.as_str());
                s
            },
        }
    }
}

/// The kind of a column, which decides the filters it takes.
#[derive(Clone, Copy, Debug, PartialEq, Eq, Structural)]
pub enum ColumnKind {
    Text,
    Number,
    Date,
}

/// A column that the client may filter and sort on: its SQL name and kind.
#[derive(Clone, Copy, Debug)]
pub struct ColumnDef {
    pub sql_name: &'static str,
    pub kind: ColumnKind,
}

/// The columns that AG Grid column ids name; any other id has none.
pub open spec fn column_for(col_id: Seq<char>) -> Option<(Seq<char>, ColumnKind)> {
    if col_id == "date"@ {
        Some(("\"DATE\""@, ColumnKind::Date))
    } else if col_id == "ticker"@ {
        Some(("TICKER"@, ColumnKind::Text))
    } else if col_id == "open"@ {
        Some(("\"OPEN\""@, ColumnKind::Number))
    } else if col_id == "high"@ {
        Some(("HIGH"@, ColumnKind::Number))
    } else if col_id == "low"@ {
        Some(("LOW"@, ColumnKind::Number))
    } else if col_id == "close"@ {
        Some(("\"CLOSE\""@, ColumnKind::Number))
    } else if col_id == "volume"@ {
        Some(("VOLUME"@, ColumnKind::Number))
    } else {
        None
    }
}

/// AG Grid colIds map 1:1 to these; anything else is rejected rather than
/// interpolated into SQL, since colId/sort/filterType all come from the client.
pub fn column_def(col_id: &str) -> (res: Option<ColumnDef>)
    ensures
        match res {
            Some(c) => column_for(col_id@) == Some((c.sql_name@, c.kind)),
            None => column_for(col_id@) is None,
        },
{
    if same_text(col_id, "date") {
        Some(ColumnDef { sql_name: "\"DATE\"", kind: ColumnKind::Date })
    } else if same_text(col_id, "ticker") {
        Some(ColumnDef { sql_name: "TICKER", kind: ColumnKind::Text })
    } else if same_text(col_id, "open") {
        Some(ColumnDef { sql_name: "\"OPEN\"", kind: ColumnKind::Number })
    } else if same_text(col_id, "high") {
        Some(ColumnDef { sql_name: "HIGH", kind: ColumnKind::Number })
    } else if same_text(col_id, "low") {
        Some(ColumnDef { sql_name: "LOW", kind: ColumnKind::Number })
    } else if same_text(col_id, "close") {
        Some(ColumnDef { sql_name: "\"CLOSE\"", kind: ColumnKind::Number })
    } else if same_text(col_id, "volume") {
        Some(ColumnDef { sql_name: "VOLUME", kind: ColumnKind::Number })
    } else {
        None
    }
}

/// A value bound to a placeholder of the query.
#[derive(Clone, Debug, PartialEq, Eq)]
pub enum BindValue {
    Text(String),
    /// A number, by its IEEE 754 bit pattern.
    Num(u64),
    Date(CalendarDate),
}

/// A bound value as the contracts see it.
pub enum BoundValue {
    Text(Seq<char>),
    Num(u64),
    Date(CalendarDate),
}

impl View for BindValue {
    type V = BoundValue;

    open spec fn view(&self) -> BoundValue {
        match self {
            BindValue::Text(s) => BoundValue::Text(s@),
            BindValue::Num(b) => BoundValue::Num(*b),
            BindValue::Date(d) => BoundValue::Date(*d),
        }
    }
}

/// The bound values of a list of binds.
pub open spec fn binds_view(binds: Seq<BindValue>) -> Seq<BoundValue> {
    binds.map_values(|b: BindValue| b@)
}

/// The placeholder of the `n`-th bound value (counting from 1): `:n`.
pub open spec fn placeholder(n: nat) -> Seq<char> {
    ":"@ + decimal_chars(n)
}

/// Appends `value` to the binds and returns its placeholder.
fn push_bind(binds: &mut Vec<BindValue>, value: BindValue) -> (res: String)
    ensures
        final(binds)@ == old(binds)@.push(value),
        binds_view(final(binds)@) == binds_view(old(binds)@).push(value@),
        res@ == placeholder(old(binds)@.len() + 1),
{
    binds.push(value);
    let mut res = String::from_str(":");
    let number = decimal_text(binds.len() as u64);
    res.append(number.as_str());
    proof {
        assert(binds_view(binds@) =~= binds_view(old(binds)@).push(value@));
    }
    res
}


/// True when an outcome computed in code is the outcome `want` of a
/// contract: the same text, or a conversion error with the same message.
pub open spec fn outcome_is(res: Result<String, RepositoryError>, want: Result<Seq<char>, Seq<char>>) -> bool {
    match res {
        Ok(s) => want == Ok::<Seq<char>, Seq<char>>(s@),
        Err(e) => match want {
            Err(m) => conversion_error(e, m),
            Ok(_) => false,
        },
    }
}

/// What an AG Grid date value reads as: the date chrono reads from its date
/// part, or a conversion error that carries chrono's message.
pub open spec fn ag_grid_date(value: Seq<char>) -> Result<CalendarDate, Seq<char>> {
    match date_from_text(ag_grid_date_text(value)) {
        Ok(ymd) => Ok(CalendarDate { year: ymd.0, month: ymd.1, day: ymd.2 }),
        Err(e) => Err("invalid date filter value: "@ + e),
    }
}

/// Reads an AG Grid date value (`YYYY-MM-DD`, possibly followed by a time).
fn parse_ag_grid_date(value: &str) -> (res: Result<CalendarDate, RepositoryError>)
    ensures
        match res {
            Ok(d) => ag_grid_date(value@) == Ok::<CalendarDate, Seq<char>>(d),
            Err(e) => match ag_grid_date(value@) {
                Err(m) => conversion_error(e, m),
                Ok(_) => false,
            },
        },
{
    let date_part = ag_grid_date_part(value);
    match parse_ymd_date(date_part) {
        Ok(ymd) => Ok(CalendarDate { year: ymd.0, month: ymd.1, day: ymd.2 }),
        Err(e) => {
            let mut msg = String::from_str("invalid date filter value: ");
            msg.append(e.as_str());
            Err(RepositoryError::Conversion(msg))
        },
    }
}

/// `col IS NULL`.
pub open spec fn is_null_sql(col: Seq<char>) -> Seq<char> {
    col + " IS NULL"@
}

/// `col IS NOT NULL`.
pub open spec fn is_not_null_sql(col: Seq<char>) -> Seq<char> {
    col + " IS NOT NULL"@
}

/// The predicate of a text filter on column `col` when `bound` values are
/// bound already, and the values it binds.
pub open spec fn text_predicate_plan(col: Seq<char>, f: TextFilterModel, bound: nat) -> (
    Result<Seq<char>, Seq<char>>,
    Seq<BoundValue>,
) {
    let op = f.filter_op@;
    if op == "blank"@ {
        (Ok(is_null_sql(col)), Seq::empty())
    } else if op == "notBlank"@ {
        (Ok(is_not_null_sql(col)), Seq::empty())
    } else {
        match f.filter {
            None => (Err("missing text filter value"@), Seq::empty()),
            Some(v) => {
                let p = placeholder(bound + 1);
                if op == "equals"@ {
                    (Ok(col + " = "@ + p), seq![BoundValue::Text(v@)])
                } else if op == "notEqual"@ {
                    (Ok(col + " <> "@ + p), seq![BoundValue::Text(v@)])
                } else if op == "contains"@ {
                    (Ok(col + " LIKE "@ + p), seq![BoundValue::Text("%"@ + v@ + "%"@)])
                } else if op == "notContains"@ {
                    (Ok(col + " NOT LIKE "@ + p), seq![BoundValue::Text("%"@ + v@ + "%"@)])
                } else if op == "startsWith"@ {
                    (Ok(col + " LIKE "@ + p), seq![BoundValue::Text(v@ + "%"@)])
                } else if op == "endsWith"@ {
                    (Ok(col + " LIKE "@ + p), seq![BoundValue::Text("%"@ + v@)])
                } else {
                    (Err("unsupported text filter type: "@ + op), Seq::empty())
                }
            },
        }
    }
}

/// `a` followed by `b`, as a new string.
fn text_concat(a: &str, b: &str) -> (res: String)
    ensures
        res@ == a@ + b@,
{
    let mut res = String::from_str(a);
    res.append(b);
    res
}

/// `a`, `b` and `c` in a row, as a new string.
fn text_concat3(a: &str, b: &str, c: &str) -> (res: String)
    ensures
        res@ == a@ + b@ + c@,
{
    let mut res = String::from_str(a);
    res.append(b);
    res.append(c);
    res
}

/// Builds the predicate of a text filter, binding its operand.
fn text_predicate(col_sql: &str, filter: &TextFilterModel, binds: &mut Vec<BindValue>) -> (res:
    Result<String, RepositoryError>)
    ensures
        ({
            let (want, added) = text_predicate_plan(col_sql@, *filter, old(binds)@.len());
            &&& outcome_is(res, want)
            &&& binds_view(final(binds)@) == binds_view(old(binds)@) + added
        }),
{
    let ghost before = binds_view(binds@);
    let op = filter.filter_op.as_str();
    if same_text(op, "blank") {
        assert(binds_view(binds@) =~= before + Seq::<BoundValue>::empty());
        return Ok(text_concat(col_sql, " IS NULL"));
    }
    if same_text(op, "notBlank") {
        assert(binds_view(binds@) =~= before + Seq::<BoundValue>::empty());
        return Ok(text_concat(col_sql, " IS NOT NULL"));
    }
    let value = match &filter.filter {
        None => {
            assert(binds_view(binds@) =~= before + Seq::<BoundValue>::empty());
            return Err(RepositoryError::Conversion(String::from_str("missing text filter value")));
        },
        Some(v) => v.clone(),
    };
    let (symbol, operand): (&str, String) = if same_text(op, "equals") {
        (" = ", value)
    } else if same_text(op, "notEqual") {
        (" <> ", value)
    } else if same_text(op, "contains") {
        (" LIKE ", text_concat3("%", value.as_str(), "%"))
    } else if same_text(op, "notContains") {
        (" NOT LIKE ", text_concat3("%", value.as_str(), "%"))
    } else if same_text(op, "startsWith") {
        (" LIKE ", text_concat(value.as_str(), "%"))
    } else if same_text(op, "endsWith") {
        (" LIKE ", text_concat("%", value.as_str()))
    } else {
        assert(binds_view(binds@) =~= before + Seq::<BoundValue>::empty());
        return Err(RepositoryError::Conversion(text_concat("unsupported text filter type: ", op)));
    };
    let ghost operand_view = operand@;
    let p = push_bind(binds, BindValue::Text(operand));
    assert(binds_view(binds@) =~= before + seq![BoundValue::Text(operand_view)]);
    Ok(text_concat3(col_sql, symbol, p.as_str()))
}


/// The comparison that a single-operand number filter operation stands for.
pub open spec fn number_comparison(op: Seq<char>) -> Option<Seq<char>> {
    if op == "equals"@ {
        Some(" = "@)
    } else if op == "notEqual"@ {
        Some(" <> "@)
    } else if op == "lessThan"@ {
        Some(" < "@)
    } else if op == "lessThanOrEqual"@ {
        Some(" <= "@)
    } else if op == "greaterThan"@ {
        Some(" > "@)
    } else if op == "greaterThanOrEqual"@ {
        Some(" >= "@)
    } else {
        None
    }
}

/// The predicate of a number filter on column `col` when `bound` values are
/// bound already, and the values it binds. A single-operand filter binds
/// its operand before its operation is checked.
pub open spec fn number_predicate_plan(col: Seq<char>, f: NumberFilterModel, bound: nat) -> (
    Result<Seq<char>, Seq<char>>,
    Seq<BoundValue>,
) {
    let op = f.filter_op@;
    if op == "blank"@ {
        (Ok(is_null_sql(col)), Seq::empty())
    } else if op == "notBlank"@ {
        (Ok(is_not_null_sql(col)), Seq::empty())
    } else if op == "inRange"@ {
        match (f.filter, f.filter_to) {
            (None, _) => (Err("missing inRange filter value"@), Seq::empty()),
            (Some(_), None) => (Err("missing inRange filterTo value"@), Seq::empty()),
            (Some(from), Some(to)) => (
                Ok(col + " BETWEEN "@ + placeholder(bound + 1) + " AND "@ + placeholder(bound + 2)),
                seq![BoundValue::Num(from), BoundValue::Num(to)],
            ),
        }
    } else {
        match f.filter {
            None => (Err("missing number filter value"@), Seq::empty()),
            Some(v) => match number_comparison(op) {
                Some(sym) => (Ok(col + sym + placeholder(bound + 1)), seq![BoundValue::Num(v)]),
                None => (Err("unsupported number filter type: "@ + op), seq![BoundValue::Num(v)]),
            },
        }
    }
}

fn number_symbol(op: &str) -> (res: Option<&'static str>)
    ensures
        match res {
            Some(sym) => number_comparison(op@) == Some(sym@),
            None => number_comparison(op@) is None,
        },
{
    if same_text(op, "equals") {
        Some(" = ")
    } else if same_text(op, "notEqual") {
        Some(" <> ")
    } else if same_text(op, "lessThan") {
        Some(" < ")
    } else if same_text(op, "lessThanOrEqual") {
        Some(" <= ")
    } else if same_text(op, "greaterThan") {
        Some(" > ")
    } else if same_text(op, "greaterThanOrEqual") {
        Some(" >= ")
    } else {
        None
    }
}

/// `col BETWEEN from AND to`.
fn between_sql(col_sql: &str, from_p: &str, to_p: &str) -> (res: String)
    ensures
        res@ == col_sql@ + " BETWEEN "@ + from_p@ + " AND "@ + to_p@,
{
    let mut res = String::from_str(col_sql);
    res.append(" BETWEEN ");
    res.append(from_p);
    res.append(" AND ");
    res.append(to_p);
    res
}

/// Builds the predicate of a number filter, binding its operands.
fn number_predicate(col_sql: &str, filter: &NumberFilterModel, binds: &mut Vec<BindValue>) -> (res:
    Result<String, RepositoryError>)
    ensures
        ({
            let (want, added) = number_predicate_plan(col_sql@, *filter, old(binds)@.len());
            &&& outcome_is(res, want)
            &&& binds_view(final(binds)@) == binds_view(old(binds)@) + added
        }),
{
    let ghost before = binds_view(binds@);
    let op = filter.filter_op.as_str();
    if same_text(op, "blank") {
        assert(binds_view(binds@) =~= before + Seq::<BoundValue>::empty());
        return Ok(text_concat(col_sql, " IS NULL"));
    }
    if same_text(op, "notBlank") {
        assert(binds_view(binds@) =~= before + Seq::<BoundValue>::empty());
        return Ok(text_concat(col_sql, " IS NOT NULL"));
    }
    if same_text(op, "inRange") {
        let from = match filter.filter {
            None => {
                assert(binds_view(binds@) =~= before + Seq::<BoundValue>::empty());
                return Err(
                    RepositoryError::Conversion(String::from_str("missing inRange filter value")),
                );
            },
            Some(v) => v,
        };
        let to = match filter.filter_to {
            None => {
                assert(binds_view(binds@) =~= before + Seq::<BoundValue>::empty());
                return Err(
                    RepositoryError::Conversion(String::from_str("missing inRange filterTo value")),
                );
            },
            Some(v) => v,
        };
        let from_p = push_bind(binds, BindValue::Num(from));
        let to_p = push_bind(binds, BindValue::Num(to));
        assert(binds_view(binds@) =~= before + seq![BoundValue::Num(from), BoundValue::Num(to)]);
        return Ok(between_sql(col_sql, from_p.as_str(), to_p.as_str()));
    }
    let value = match filter.filter {
        None => {
            assert(binds_view(binds@) =~= before + Seq::<BoundValue>::empty());
            return Err(RepositoryError::Conversion(String::from_str("missing number filter value")));
        },
        Some(v) => v,
    };
    let p = push_bind(binds, BindValue::Num(value));
    assert(binds_view(binds@) =~= before + seq![BoundValue::Num(value)]);
    match number_symbol(op) {
        Some(sym) => Ok(text_concat3(col_sql, sym, p.as_str())),
        None => Err(RepositoryError::Conversion(text_concat("unsupported number filter type: ", op))),
    }
}

/// The comparison that a single-operand date filter operation stands for.
pub open spec fn date_comparison(op: Seq<char>) -> Option<Seq<char>> {
    if op == "equals"@ {
        Some(" = "@)
    } else if op == "notEqual"@ {
        Some(" <> "@)
    } else if op == "lessThan"@ {
        Some(" < "@)
    } else if op == "greaterThan"@ {
        Some(" > "@)
    } else {
        None
    }
}

/// The predicate of a date filter on column `col` when `bound` values are
/// bound already, and the values it binds. Dates are read before anything is
/// bound; a single-operand filter binds its date before its operation is
/// checked.
pub open spec fn date_predicate_plan(col: Seq<char>, f: DateFilterModel, bound: nat) -> (
    Result<Seq<char>, Seq<char>>,
    Seq<BoundValue>,
) {
    let op = f.filter_op@;
    if op == "blank"@ {
        (Ok(is_null_sql(col)), Seq::empty())
    } else if op == "notBlank"@ {
        (Ok(is_not_null_sql(col)), Seq::empty())
    } else if op == "inRange"@ {
        match f.date_from {
            None => (Err("missing dateFrom filter value"@), Seq::empty()),
            Some(from_text) => match ag_grid_date(from_text@) {
                Err(m) => (Err(m), Seq::empty()),
                Ok(from) => match f.date_to {
                    None => (Err("missing dateTo filter value"@), Seq::empty()),
                    Some(to_text) => match ag_grid_date(to_text@) {
                        Err(m) => (Err(m), Seq::empty()),
                        Ok(to) => (
                            Ok(col + " BETWEEN "@ + placeholder(bound + 1) + " AND "@ + placeholder(
                                bound + 2,
                            )),
                            seq![BoundValue::Date(from), BoundValue::Date(to)],
                        ),
                    },
                },
            },
        }
    } else {
        match f.date_from {
            None => (Err("missing dateFrom filter value"@), Seq::empty()),
            Some(text) => match ag_grid_date(text@) {
                Err(m) => (Err(m), Seq::empty()),
                Ok(date) => match date_comparison(op) {
                    Some(sym) => (
                        Ok(col + sym + placeholder(bound + 1)),
                        seq![BoundValue::Date(date)],
                    ),
                    None => (
                        Err("unsupported date filter type: "@ + op),
                        seq![BoundValue::Date(date)],
                    ),
                },
            },
        }
    }
}

fn date_symbol(op: &str) -> (res: Option<&'static str>)
    ensures
        match res {
            Some(sym) => date_comparison(op@) == Some(sym@),
            None => date_comparison(op@) is None,
        },
{
    if same_text(op, "equals") {
        Some(" = ")
    } else if same_text(op, "notEqual") {
        Some(" <> ")
    } else if same_text(op, "lessThan") {
        Some(" < ")
    } else if same_text(op, "greaterThan") {
        Some(" > ")
    } else {
        None
    }
}

/// Reads a date operand that must be present.
fn required_date(value: &Option<String>, missing: &str) -> (res: Result<CalendarDate, RepositoryError>)
    ensures
        match value {
            None => res matches Err(e) && conversion_error(e, missing@),
            Some(text) => match (res, ag_grid_date(text@)) {
                (Ok(d), Ok(want)) => d == want,
                (Err(e), Err(m)) => conversion_error(e, m),
                _ => false,
            },
        },
{
    match value {
        None => Err(RepositoryError::Conversion(String::from_str(missing))),
        Some(text) => parse_ag_grid_date(text.as_str()),
    }
}

/// Builds the predicate of a date filter, binding its dates.
fn date_predicate(col_sql: &str, filter: &DateFilterModel, binds: &mut Vec<BindValue>) -> (res:
    Result<String, RepositoryError>)
    ensures
        ({
            let (want, added) = date_predicate_plan(col_sql@, *filter, old(binds)@.len());
            &&& outcome_is(res, want)
            &&& binds_view(final(binds)@) == binds_view(old(binds)@) + added
        }),
{
    let ghost before = binds_view(binds@);
    let op = filter.filter_op.as_str();
    if same_text(op, "blank") {
        assert(binds_view(binds@) =~= before + Seq::<BoundValue>::empty());
        return Ok(text_concat(col_sql, " IS NULL"));
    }
    if same_text(op, "notBlank") {
        assert(binds_view(binds@) =~= before + Seq::<BoundValue>::empty());
        return Ok(text_concat(col_sql, " IS NOT NULL"));
    }
    if same_text(op, "inRange") {
        let from = match required_date(&filter.date_from, "missing dateFrom filter value") {
            Err(e) => {
                assert(binds_view(binds@) =~= before + Seq::<BoundValue>::empty());
                return Err(e);
            },
            Ok(d) => d,
        };
        let to = match required_date(&filter.date_to, "missing dateTo filter value") {
            Err(e) => {
                assert(binds_view(binds@) =~= before + Seq::<BoundValue>::empty());
                return Err(e);
            },
            Ok(d) => d,
        };
        let from_p = push_bind(binds, BindValue::Date(from));
        let to_p = push_bind(binds, BindValue::Date(to));
        assert(binds_view(binds@) =~= before + seq![BoundValue::Date(from), BoundValue::Date(to)]);
        return Ok(between_sql(col_sql, from_p.as_str(), to_p.as_str()));
    }
    let date = match required_date(&filter.date_from, "missing dateFrom filter value") {
        Err(e) => {
            assert(binds_view(binds@) =~= before + Seq::<BoundValue>::empty());
            return Err(e);
        },
        Ok(d) => d,
    };
    let p = push_bind(binds, BindValue::Date(date));
    assert(binds_view(binds@) =~= before + seq![BoundValue::Date(date)]);
    match date_symbol(op) {
        Some(sym) => Ok(text_concat3(col_sql, sym, p.as_str())),
        None => Err(RepositoryError::Conversion(text_concat("unsupported date filter type: ", op))),
    }
}


/// The predicate of the filter entry `entry` (column id and filter) when
/// `bound` values are bound already, and the values it binds.
pub open spec fn filter_predicate_plan(entry: (String, FilterModel), bound: nat) -> (
    Result<Seq<char>, Seq<char>>,
    Seq<BoundValue>,
) {
    let col_id = entry.0@;
    match column_for(col_id) {
        None => (Err("unknown filter column: "@ + col_id), Seq::empty()),
        Some((sql, kind)) => match (kind, entry.1) {
            (ColumnKind::Text, FilterModel::Text(f)) => text_predicate_plan(sql, f, bound),
            (ColumnKind::Number, FilterModel::Number(f)) => number_predicate_plan(sql, f, bound),
            (ColumnKind::Date, FilterModel::Date(f)) => date_predicate_plan(sql, f, bound),
            _ => (Err("filter type does not match column: "@ + col_id), Seq::empty()),
        },
    }
}

/// The WHERE predicates of the filter entries, in order, and the values they
/// bind; or the message of the first entry that fails.
pub open spec fn where_plan(entries: Seq<(String, FilterModel)>) -> Result<
    (Seq<Seq<char>>, Seq<BoundValue>),
    Seq<char>,
>
    decreases entries.len(),
{
    if entries.len() == 0 {
        Ok((Seq::empty(), Seq::empty()))
    } else {
        match where_plan(entries.drop_last()) {
            Err(m) => Err(m),
            Ok((clauses, bound)) => {
                let (pred, added) = filter_predicate_plan(entries.last(), bound.len());
                match pred {
                    Err(m) => Err(m),
                    Ok(p) => Ok((clauses.push(p), bound + added)),
                }
            },
        }
    }
}

/// The ORDER BY term of a sort key, or the message of its failure.
pub open spec fn sort_term(item: SortModelItem) -> Result<Seq<char>, Seq<char>> {
    match column_for(item.col_id@) {
        None => Err("unknown sort column: "@ + item.col_id@),
        Some((sql, _)) => {
            let direction = lowercase_text(item.sort@);
            if direction == "asc"@ {
                Ok(sql + " "@ + "ASC"@)
            } else if direction == "desc"@ {
                Ok(sql + " "@ + "DESC"@)
            } else {
                Err("unsupported sort direction: "@ + direction)
            }
        },
    }
}

/// The ORDER BY terms of the sort keys, in order; or the message of the
/// first key that fails.
pub open spec fn order_plan(items: Seq<SortModelItem>) -> Result<Seq<Seq<char>>, Seq<char>>
    decreases items.len(),
{
    if items.len() == 0 {
        Ok(Seq::empty())
    } else {
        match order_plan(items.drop_last()) {
            Err(m) => Err(m),
            Ok(terms) => match sort_term(items.last()) {
                Err(m) => Err(m),
                Ok(t) => Ok(terms.push(t)),
            },
        }
    }
}

/// The columns that a stock-history query selects.
pub open spec fn select_columns_sql() -> Seq<char> {
    "\"DATE\", TICKER, \"OPEN\", HIGH, LOW, \"CLOSE\", VOLUME"@
}

/// The WHERE clause of the predicates (empty when there are none).
pub open spec fn where_sql(clauses: Seq<Seq<char>>) -> Seq<char> {
    if clauses.len() == 0 {
        Seq::empty()
    } else {
        " WHERE "@ + joined(clauses, " AND "@)
    }
}

/// The sort terms that follow the client's, so that pages neither skip nor
/// repeat rows.
pub open spec fn tiebreak_terms() -> Seq<Seq<char>> {
    seq!["\"DATE\" DESC"@, "TICKER ASC"@]
}

/// The ORDER BY clause of the client's sort terms and the tiebreak.
pub open spec fn order_sql(terms: Seq<Seq<char>>) -> Seq<char> {
    " ORDER BY "@ + joined(terms + tiebreak_terms(), ", "@)
}

/// The query that counts the rows that the WHERE clause `w` selects.
pub open spec fn count_sql(w: Seq<char>) -> Seq<char> {
    "SELECT COUNT(*) FROM STOCK_HISTORY"@ + w
}

/// The query that fetches `fetch` rows from row `offset` on.
pub open spec fn page_sql(w: Seq<char>, o: Seq<char>, offset: nat, fetch: nat) -> Seq<char> {
    "SELECT "@ + select_columns_sql() + " FROM STOCK_HISTORY"@ + w + o + " OFFSET "@
        + decimal_chars(offset) + " ROWS FETCH NEXT "@ + decimal_chars(fetch) + " ROWS ONLY"@
}

/// The first row of the block (`startRow`, at least 0).
pub open spec fn page_offset(request: GetRowsRequest) -> int {
    if request.start_row < 0 {
        0
    } else {
        request.start_row as int
    }
}

/// The number of rows of the block (`endRow - startRow`, at least 0).
pub open spec fn page_length(request: GetRowsRequest) -> int {
    if request.end_row - page_offset(request) < 0 {
        0
    } else {
        request.end_row - page_offset(request)
    }
}

/// The plan of a `getRows` request: the count query, the page query and the
/// values bound to both; or the message of the first failure (filters are
/// checked before sort keys).
pub open spec fn rows_query_plan(request: GetRowsRequest) -> Result<
    (Seq<char>, Seq<char>, Seq<BoundValue>),
    Seq<char>,
> {
    match where_plan(request.filter_model@) {
        Err(m) => Err(m),
        Ok((clauses, bound)) => match order_plan(request.sort_model@) {
            Err(m) => Err(m),
            Ok(terms) => {
                let w = where_sql(clauses);
                Ok(
                    (
                        count_sql(w),
                        page_sql(
                            w,
                            order_sql(terms),
                            page_offset(request) as nat,
                            page_length(request) as nat,
                        ),
                        bound,
                    ),
                )
            },
        },
    }
}

/// The queries of a `getRows` request and the values bound to their
/// placeholders (`:1`, `:2`, ... in order).
#[derive(Clone, Debug, PartialEq, Eq)]
pub struct RowsQuery {
    pub count_sql: String,
    pub page_sql: String,
    pub binds: Vec<BindValue>,
}

pub(crate) proof fn lemma_where_plan_error_extends(entries: Seq<(String, FilterModel)>, k: int)
    requires
        0 <= k <= entries.len(),
        where_plan(entries.take(k)) is Err,
    ensures
        where_plan(entries) == where_plan(entries.take(k)),
    decreases entries.len(),
{
    if k < entries.len() {
        assert(entries.drop_last().take(k) =~= entries.take(k));
        lemma_where_plan_error_extends(entries.drop_last(), k);
    } else {
        assert(entries.take(k) =~= entries);
    }
}

pub(crate) proof fn lemma_order_plan_error_extends(items: Seq<SortModelItem>, k: int)
    requires
        0 <= k <= items.len(),
        order_plan(items.take(k)) is Err,
    ensures
        order_plan(items) == order_plan(items.take(k)),
    decreases items.len(),
{
    if k < items.len() {
        assert(items.drop_last().take(k) =~= items.take(k));
        lemma_order_plan_error_extends(items.drop_last(), k);
    } else {
        assert(items.take(k) =~= items);
    }
}

/// Builds the predicate of one filter entry.
fn filter_predicate(
    col_id: &String,
    filter: &FilterModel,
    binds: &mut Vec<BindValue>,
) -> (res: Result<String, RepositoryError>)
    ensures
        ({
            let (want, added) = filter_predicate_plan((*col_id, *filter), old(binds)@.len());
            &&& outcome_is(res, want)
            &&& binds_view(final(binds)@) == binds_view(old(binds)@) + added
        }),
{
    let ghost before = binds_view(binds@);
    let col = match column_def(col_id.as_str()) {
        None => {
            assert(binds_view(binds@) =~= before + Seq::<BoundValue>::empty());
            return Err(
                RepositoryError::Conversion(text_concat("unknown filter column: ", col_id.as_str())),
            );
        },
        Some(c) => c,
    };
    match (col.kind, filter) {
        (ColumnKind::Text, FilterModel::Text(f)) => text_predicate(col.sql_name, f, binds),
        (ColumnKind::Number, FilterModel::Number(f)) => number_predicate(col.sql_name, f, binds),
        (ColumnKind::Date, FilterModel::Date(f)) => date_predicate(col.sql_name, f, binds),
        _ => {
            assert(binds_view(binds@) =~= before + Seq::<BoundValue>::empty());
            Err(
                RepositoryError::Conversion(
                    text_concat("filter type does not match column: ", col_id.as_str()),
                ),
            )
        },
    }
}

/// Builds the ORDER BY term of one sort key.
fn sort_term_text(item: &SortModelItem) -> (res: Result<String, RepositoryError>)
    ensures
        outcome_is(res, sort_term(*item)),
{
    let col = match column_def(item.col_id.as_str()) {
        None => {
            return Err(
                RepositoryError::Conversion(
                    text_concat("unknown sort column: ", item.col_id.as_str()),
                ),
            );
        },
        Some(c) => c,
    };
    let lowered = to_lowercase_text(item.sort.as_str());
    let direction = if same_text(lowered.as_str(), "asc") {
        "ASC"
    } else if same_text(lowered.as_str(), "desc") {
        "DESC"
    } else {
        return Err(
            RepositoryError::Conversion(
                text_concat("unsupported sort direction: ", lowered.as_str()),
            ),
        );
    };
    Ok(text_concat3(col.sql_name, " ", direction))
}

/// True when `endRow - max(startRow, 0)`, the length of the block before it
/// is clamped at 0, does not fit in an `i64`.
pub open spec fn page_span_overflows(request: GetRowsRequest) -> bool {
    request.end_row - page_offset(request) < i64::MIN
}

/// Builds the AG Grid Server-Side Row Model queries of a request: a
/// parameterized WHERE from the filter model, a validated ORDER BY from the
/// sort model, and OFFSET/FETCH pagination from startRow/endRow.
///
/// Filters and sort keys are checked first; a bad one gives its conversion
/// error whatever the rows requested. A valid request whose
/// `endRow - max(startRow, 0)` does not fit in an `i64` gives `Ok(None)`:
/// there is no page length to compute (the subtraction overflows).
pub fn plan_get_rows(request: &GetRowsRequest) -> (res: Result<Option<RowsQuery>, RepositoryError>)
    ensures
        match (res, rows_query_plan(*request)) {
            (Ok(Some(q)), Ok(plan)) => {
                &&& !page_span_overflows(*request)
                &&& q.count_sql@ == plan.0
                &&& q.page_sql@ == plan.1
                &&& binds_view(q.binds@) == plan.2
            },
            (Ok(None), Ok(_)) => page_span_overflows(*request),
            (Err(e), Err(m)) => conversion_error(e, m),
            _ => false,
        },
        res matches Err(e) ==> e is Conversion,
{
    let mut binds: Vec<BindValue> = Vec::new();
    let mut where_clauses: Vec<String> = Vec::new();
    let ghost entries = request.filter_model@;
    let mut i: usize = 0;
    assert(entries.take(0) =~= Seq::<(String, FilterModel)>::empty());
    assert(texts_view(where_clauses@) =~= Seq::<Seq<char>>::empty());
    assert(binds_view(binds@) =~= Seq::<BoundValue>::empty());
    while i < request.filter_model.len()
        invariant
            i <= request.filter_model.len(),
            entries == request.filter_model@,
            where_plan(entries.take(i as int)) == Ok::<(Seq<Seq<char>>, Seq<BoundValue>), Seq<char>>(
                (texts_view(where_clauses@), binds_view(binds@)),
            ),
        decreases request.filter_model.len() - i,
    {
        let entry = &request.filter_model[i];
        let ghost prev_clauses = texts_view(where_clauses@);
        let ghost prev_bound = binds_view(binds@);
        assert(entries.take(i + 1).drop_last() =~= entries.take(i as int));
        assert(entries.take(i + 1).last() == entries[i as int]);
        let predicate = filter_predicate(&entry.0, &entry.1, &mut binds);
        match predicate {
            Err(e) => {
                proof {
                    lemma_where_plan_error_extends(entries, i + 1);
                }
                return Err(e);
            },
            Ok(p) => {
                where_clauses.push(p);
                assert(texts_view(where_clauses@) =~= prev_clauses.push(p@));
            },
        }
        i += 1;
    }
    assert(entries.take(i as int) =~= entries);
    let where_text = if where_clauses.len() == 0 {
        String::new()
    } else {
        let mut w = String::from_str(" WHERE ");
        let joined_clauses = join_texts(&where_clauses, " AND ");
        w.append(joined_clauses.as_str());
        w
    };
    let mut order_terms: Vec<String> = Vec::new();
    let ghost items = request.sort_model@;
    let mut j: usize = 0;
    assert(items.take(0) =~= Seq::<SortModelItem>::empty());
    assert(texts_view(order_terms@) =~= Seq::<Seq<char>>::empty());
    while j < request.sort_model.len()
        invariant
            j <= request.sort_model.len(),
            items == request.sort_model@,
            order_plan(items.take(j as int)) == Ok::<Seq<Seq<char>>, Seq<char>>(
                texts_view(order_terms@),
            ),
            where_plan(request.filter_model@) == Ok::<(Seq<Seq<char>>, Seq<BoundValue>), Seq<char>>(
                (texts_view(where_clauses@), binds_view(binds@)),
            ),
        decreases request.sort_model.len() - j,
    {
        let ghost prev_terms = texts_view(order_terms@);
        assert(items.take(j + 1).drop_last() =~= items.take(j as int));
        assert(items.take(j + 1).last() == items[j as int]);
        match sort_term_text(&request.sort_model[j]) {
            Err(e) => {
                proof {
                    lemma_order_plan_error_extends(items, j + 1);
                }
                return Err(e);
            },
            Ok(t) => {
                order_terms.push(t);
                assert(texts_view(order_terms@) =~= prev_terms.push(t@));
            },
        }
        j += 1;
    }
    assert(items.take(j as int) =~= items);
    let ghost client_terms = texts_view(order_terms@);
    order_terms.push(String::from_str("\"DATE\" DESC"));
    order_terms.push(String::from_str("TICKER ASC"));
    assert(texts_view(order_terms@) =~= client_terms + tiebreak_terms());
    let mut order_text = String::from_str(" ORDER BY ");
    let joined_terms = join_texts(&order_terms, ", ");
    order_text.append(joined_terms.as_str());
    let mut count_text = String::from_str("SELECT COUNT(*) FROM STOCK_HISTORY");
    count_text.append(where_text.as_str());
    let start_row: i64 = if request.start_row < 0 {
        0
    } else {
        request.start_row
    };
    let span: i64 = match request.end_row.checked_sub(start_row) {
        None => {
            return Ok(None);
        },
        Some(d) => d,
    };
    let fetch_count: i64 = if span < 0 {
        0
    } else {
        span
    };
    let mut page_text = String::from_str("SELECT ");
    page_text.append("\"DATE\", TICKER, \"OPEN\", HIGH, LOW, \"CLOSE\", VOLUME");
    page_text.append(" FROM STOCK_HISTORY");
    page_text.append(where_text.as_str());
    page_text.append(order_text.as_str());
    page_text.append(" OFFSET ");
    let offset_text = decimal_text(start_row as u64);
    page_text.append(offset_text.as_str());
    page_text.append(" ROWS FETCH NEXT ");
    let fetch_text = decimal_text(fetch_count as u64);
    page_text.append(fetch_text.as_str());
    page_text.append(" ROWS ONLY");
    Ok(Some(RowsQuery { count_sql: count_text, page_sql: page_text, binds }))
}


/// The query that lists every stock-history row, newest first.
pub open spec fn list_sql() -> Seq<char> {
    "SELECT "@ + select_columns_sql() + " FROM STOCK_HISTORY ORDER BY \"DATE\" DESC"@
}

/// Builds the query that lists every stock-history row, newest first.
pub fn list_stock_history_sql() -> (res: String)
    ensures
        res@ == list_sql(),
{
    let mut sql = String::from_str("SELECT ");
    sql.append("\"DATE\", TICKER, \"OPEN\", HIGH, LOW, \"CLOSE\", VOLUME");
    sql.append(" FROM STOCK_HISTORY ORDER BY \"DATE\" DESC");
    sql
}

/// The message of a stored value that does not convert.
pub open spec fn invalid_value_message(column: Seq<char>, reason: Seq<char>) -> Seq<char> {
    "invalid "@ + column + " value: "@ + reason
}

/// The message of the first column of `raw` (open, high, low, close, volume)
/// whose text does not convert, if there is one.
pub open spec fn row_conversion_failure(raw: RawStockHistoryRow) -> Option<Seq<char>> {
    if let Err(m) = bigdecimal_from_text(raw.open@) {
        Some(invalid_value_message("open"@, m))
    } else if let Err(m) = bigdecimal_from_text(raw.high@) {
        Some(invalid_value_message("high"@, m))
    } else if let Err(m) = bigdecimal_from_text(raw.low@) {
        Some(invalid_value_message("low"@, m))
    } else if let Err(m) = bigdecimal_from_text(raw.close@) {
        Some(invalid_value_message("close"@, m))
    } else if let Err(e) = u64_from_text(raw.volume@) {
        Some(invalid_value_message("volume"@, int_error_message(e)))
    } else {
        None
    }
}

/// Reads a price column as an exact decimal.
fn decimal_column(text: &String, column: &str) -> (res: Result<String, RepositoryError>)
    ensures
        match (res, bigdecimal_from_text(text@)) {
            (Ok(shown), Ok(want)) => shown@ == want,
            (Err(e), Err(m)) => stored_value_error(e, invalid_value_message(column@, m)),
            _ => false,
        },
{
    match parse_bigdecimal(text.as_str()) {
        Ok(shown) => Ok(shown),
        Err(reason) => {
            let mut msg = String::from_str("invalid ");
            msg.append(column);
            msg.append(" value: ");
            msg.append(reason.as_str());
            Err(RepositoryError::StoredValue(msg))
        },
    }
}

/// The message that a `ParseIntError` of the given kind displays.
fn int_error_text(e: IntTextError) -> (res: &'static str)
    ensures
        res@ == int_error_message(e),
{
    match e {
        IntTextError::Empty => "cannot parse integer from empty string",
        IntTextError::InvalidDigit => "invalid digit found in string",
        IntTextError::PosOverflow => "number too large to fit in target type",
    }
}

/// Converts a row as fetched from the database into a stock-history row:
/// the prices are read as exact decimals and the volume as a `u64`. A stored
/// value that does not convert gives a `StoredValue` error.
pub fn row_to_stock_history(raw: &RawStockHistoryRow) -> (res: Result<StockHistoryRow, RepositoryError>)
    ensures
        res is Ok <==> row_conversion_failure(*raw) is None,
        match res {
            Ok(row) => {
                &&& row.date == raw.date
                &&& row.ticker@ == raw.ticker@
                &&& bigdecimal_from_text(raw.open@) == Ok::<Seq<char>, Seq<char>>(row.open@)
                &&& bigdecimal_from_text(raw.high@) == Ok::<Seq<char>, Seq<char>>(row.high@)
                &&& bigdecimal_from_text(raw.low@) == Ok::<Seq<char>, Seq<char>>(row.low@)
                &&& bigdecimal_from_text(raw.close@) == Ok::<Seq<char>, Seq<char>>(row.close@)
                &&& u64_from_text(raw.volume@) == Ok::<u64, IntTextError>(row.volume)
            },
            Err(e) => row_conversion_failure(*raw) matches Some(m) && stored_value_error(e, m),
        },
{
    let open = decimal_column(&raw.open, "open")?;
    let high = decimal_column(&raw.high, "high")?;
    let low = decimal_column(&raw.low, "low")?;
    let close = decimal_column(&raw.close, "close")?;
    let volume = match parse_u64_text(raw.volume.as_str()) {
        Ok(v) => v,
        Err(e) => {
            let mut msg = String::from_str("invalid ");
            msg.append("volume");
            msg.append(" value: ");
            msg.append(int_error_text(e));
            return Err(RepositoryError::StoredValue(msg));
        },
    };
    Ok(
        StockHistoryRow {
            date: raw.date,
            ticker: raw.ticker.clone(),
            open,
            high,
            low,
            close,
            volume,
        },
    )
}

/// The HTTP status with which the `getRows` route answers a failure: 400
/// (Bad Request) for bad client input, 500 (Internal Server Error) for a
/// database failure or a stored value that does not convert.
pub fn get_rows_error_status(err: &RepositoryError) -> (status: u16)
    ensures
        status == (if err is Conversion { 400u16 } else { 500u16 }),
{
    if err.is_client_error() {
        400
    } else {
        500
    }
}

} // verus!
