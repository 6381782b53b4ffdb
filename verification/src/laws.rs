//! Properties of the query planner that span its functions.

use crate::calendar::ag_grid_date_text;
use crate::calendar::is_plain_date;
use crate::calendar::plain_ymd;
use crate::calendar::CalendarDate;
use crate::repository::ag_grid_date;
use crate::repository::column_for;
use crate::repository::row_conversion_failure;
use crate::model::RawStockHistoryRow;
use crate::decimal::bigdecimal_from_text;
use crate::text::int_error_message;
use crate::text::u64_from_text;
use crate::repository::count_sql;
use crate::repository::is_null_sql;
use crate::repository::is_not_null_sql;
use crate::repository::lemma_order_plan_error_extends;
use crate::repository::lemma_where_plan_error_extends;
use crate::repository::order_sql;
use crate::repository::page_sql;
use crate::repository::tiebreak_terms;
use crate::repository::where_sql;
use crate::repository::ColumnKind;
use crate::repository::filter_predicate_plan;
use crate::repository::order_plan;
use crate::repository::page_length;
use crate::repository::page_offset;
use crate::repository::rows_query_plan;
use crate::repository::sort_term;
use crate::repository::where_plan;
use crate::repository::BoundValue;
use crate::ssrm::FilterModel;
use crate::ssrm::GetRowsRequest;
use crate::ssrm::SortModelItem;
use crate::text::ascii_lowercase;
use crate::text::joined;
use crate::text::lowercase_text;
use vstd::prelude::*;
use vstd::utf8::*;

verus! {

/// Only the first ten bytes of a date filter value are read: two values whose
/// UTF-8 encodings agree on their first ten bytes, with a character ending
/// there in both, read as the same date, or fail with the same message.
pub proof fn law_date_value_reads_first_ten_bytes(a: Seq<char>, b: Seq<char>)
    requires
        is_char_boundary(encode_utf8(a), 10),
        is_char_boundary(encode_utf8(b), 10),
        encode_utf8(a).take(10) == encode_utf8(b).take(10),
    ensures
        ag_grid_date(a) == ag_grid_date(b),
{
    assert(ag_grid_date_text(a) == ag_grid_date_text(b));
}

/// Two filters of the same kind with the same operation and the same
/// operands present (whatever the operands' values).
pub open spec fn same_filter_shape(f: FilterModel, g: FilterModel) -> bool {
    match (f, g) {
        (FilterModel::Text(a), FilterModel::Text(b)) => {
            &&& a.filter_op@ == b.filter_op@
            &&& a.filter.is_some() == b.filter.is_some()
        },
        (FilterModel::Number(a), FilterModel::Number(b)) => {
            &&& a.filter_op@ == b.filter_op@
            &&& a.filter.is_some() == b.filter.is_some()
            &&& a.filter_to.is_some() == b.filter_to.is_some()
        },
        (FilterModel::Date(a), FilterModel::Date(b)) => {
            &&& a.filter_op@ == b.filter_op@
            &&& a.date_from.is_some() == b.date_from.is_some()
            &&& a.date_to.is_some() == b.date_to.is_some()
        },
        _ => false,
    }
}

/// Filter entries that name the same columns with filters of the same shape.
pub open spec fn same_entries_shape(e: Seq<(String, FilterModel)>, f: Seq<(String, FilterModel)>) -> bool {
    &&& e.len() == f.len()
    &&& forall|i: int|
        0 <= i < e.len() ==> #[trigger] e[i].0@ == f[i].0@ && same_filter_shape(e[i].1, f[i].1)
}

/// Sort keys with the same column ids and directions.
pub open spec fn same_sort_keys(s: Seq<SortModelItem>, t: Seq<SortModelItem>) -> bool {
    &&& s.len() == t.len()
    &&& forall|i: int| 0 <= i < s.len() ==> #[trigger] s[i].col_id@ == t[i].col_id@ && s[i].sort@ == t[i].sort@
}

/// Two requests that differ at most in the values of their filter operands.
pub open spec fn same_request_shape(r: GetRowsRequest, s: GetRowsRequest) -> bool {
    &&& r.start_row == s.start_row
    &&& r.end_row == s.end_row
    &&& same_sort_keys(r.sort_model@, s.sort_model@)
    &&& same_entries_shape(r.filter_model@, s.filter_model@)
}

proof fn lemma_predicate_shape(e: (String, FilterModel), f: (String, FilterModel), n: nat)
    requires
        e.0@ == f.0@,
        same_filter_shape(e.1, f.1),
        filter_predicate_plan(e, n).0 is Ok,
        filter_predicate_plan(f, n).0 is Ok,
    ensures
        filter_predicate_plan(e, n).0 == filter_predicate_plan(f, n).0,
        filter_predicate_plan(e, n).1.len() == filter_predicate_plan(f, n).1.len(),
{
}

proof fn lemma_where_plan_shape(e: Seq<(String, FilterModel)>, f: Seq<(String, FilterModel)>)
    requires
        same_entries_shape(e, f),
        where_plan(e) is Ok,
        where_plan(f) is Ok,
    ensures
        where_plan(e)->Ok_0.0 == where_plan(f)->Ok_0.0,
        where_plan(e)->Ok_0.1.len() == where_plan(f)->Ok_0.1.len(),
    decreases e.len(),
{
    if e.len() > 0 {
        let k = e.len() - 1;
        assert(same_entries_shape(e.drop_last(), f.drop_last())) by {
            assert forall|i: int| 0 <= i < e.drop_last().len() implies #[trigger] e.drop_last()[i].0@
                == f.drop_last()[i].0@ && same_filter_shape(e.drop_last()[i].1, f.drop_last()[i].1) by {
                assert(e.drop_last()[i] == e[i]);
                assert(f.drop_last()[i] == f[i]);
            }
        }
        lemma_where_plan_shape(e.drop_last(), f.drop_last());
        let n = where_plan(e.drop_last())->Ok_0.1.len();
        assert(e[k].0@ == f[k].0@ && same_filter_shape(e[k].1, f[k].1));
        lemma_predicate_shape(e.last(), f.last(), n);
    }
}

proof fn lemma_order_plan_views(s: Seq<SortModelItem>, t: Seq<SortModelItem>)
    requires
        same_sort_keys(s, t),
    ensures
        order_plan(s) == order_plan(t),
    decreases s.len(),
{
    if s.len() > 0 {
        let k = s.len() - 1;
        assert(same_sort_keys(s.drop_last(), t.drop_last())) by {
            assert forall|i: int| 0 <= i < s.drop_last().len() implies #[trigger] s.drop_last()[i].col_id@
                == t.drop_last()[i].col_id@ && s.drop_last()[i].sort@ == t.drop_last()[i].sort@ by {
                assert(s.drop_last()[i] == s[i]);
                assert(t.drop_last()[i] == t[i]);
            }
        }
        lemma_order_plan_views(s.drop_last(), t.drop_last());
        assert(s[k].col_id@ == t[k].col_id@ && s[k].sort@ == t[k].sort@);
        assert(sort_term(s.last()) == sort_term(t.last()));
    }
}

/// Client text never reaches the SQL: two requests that differ only in the
/// values of their filter operands, and that both plan, get the same count
/// query and the same page query, and bind the same number of values.
pub proof fn law_sql_independent_of_filter_values(r: GetRowsRequest, s: GetRowsRequest)
    requires
        same_request_shape(r, s),
        rows_query_plan(r) is Ok,
        rows_query_plan(s) is Ok,
    ensures
        rows_query_plan(r)->Ok_0.0 == rows_query_plan(s)->Ok_0.0,
        rows_query_plan(r)->Ok_0.1 == rows_query_plan(s)->Ok_0.1,
        rows_query_plan(r)->Ok_0.2.len() == rows_query_plan(s)->Ok_0.2.len(),
{
    lemma_where_plan_shape(r.filter_model@, s.filter_model@);
    lemma_order_plan_views(r.sort_model@, s.sort_model@);
}


/// Joining one more part appends the separator and that part (or, to no
/// parts, gives that part alone).
pub proof fn law_join_appends(a: Seq<Seq<char>>, x: Seq<char>, sep: Seq<char>)
    ensures
        joined(a.push(x), sep) == (if a.len() == 0 { x } else { joined(a, sep) + sep + x }),
{
    assert(a.push(x).drop_last() =~= a);
    if a.len() == 0 {
        assert(a.push(x)[0] == x);
    }
}

/// The text that the client's sort terms put before the tiebreak terms.
pub open spec fn client_order_prefix(terms: Seq<Seq<char>>) -> Seq<char> {
    if terms.len() == 0 {
        Seq::empty()
    } else {
        joined(terms, ", "@) + ", "@
    }
}

/// The count query and the page query of a planned request filter with the
/// same WHERE clause; the page is ordered by the client's sort terms and
/// then by date (newest first) and ticker, so that pages neither skip nor
/// repeat rows; and it starts at `max(startRow, 0)` and holds
/// `max(endRow - max(startRow, 0), 0)` rows.
pub proof fn law_page_query_shape(r: GetRowsRequest)
    requires
        rows_query_plan(r) is Ok,
    ensures
        exists|w: Seq<char>, o: Seq<char>, terms: Seq<Seq<char>>|
            {
                &&& rows_query_plan(r)->Ok_0.0 == #[trigger] count_sql(w)
                &&& rows_query_plan(r)->Ok_0.1 == #[trigger] page_sql(
                    w,
                    o,
                    page_offset(r) as nat,
                    page_length(r) as nat,
                )
                &&& o == " ORDER BY "@ + #[trigger] client_order_prefix(terms) + "\"DATE\" DESC"@ + ", "@
                    + "TICKER ASC"@
            },
        page_offset(r) == (if r.start_row < 0 { 0 } else { r.start_row as int }),
        page_length(r) == (if r.end_row - page_offset(r) < 0 { 0 } else { r.end_row - page_offset(r) }),
{
    let (clauses, bound) = where_plan(r.filter_model@)->Ok_0;
    let terms = order_plan(r.sort_model@)->Ok_0;
    let w = where_sql(clauses);
    let sep = ", "@;
    let d = "\"DATE\" DESC"@;
    let t = "TICKER ASC"@;
    law_join_appends(terms, d, sep);
    law_join_appends(terms.push(d), t, sep);
    assert(terms + tiebreak_terms() =~= terms.push(d).push(t));
    let j = joined(terms + tiebreak_terms(), sep);
    assert(j =~= client_order_prefix(terms) + d + sep + t);
    let o = order_sql(terms);
    assert(o =~= " ORDER BY "@ + client_order_prefix(terms) + d + sep + t);
    assert(rows_query_plan(r)->Ok_0.0 == count_sql(w));
    assert(rows_query_plan(r)->Ok_0.1 == page_sql(w, o, page_offset(r) as nat, page_length(r) as nat));
}

/// Only known columns reach the SQL: a filter on a column id that names no
/// column makes the whole request fail.
pub proof fn law_unknown_filter_column_rejected(r: GetRowsRequest, i: int)
    requires
        0 <= i < r.filter_model@.len(),
        column_for(r.filter_model@[i].0@) is None,
    ensures
        rows_query_plan(r) is Err,
{
    let e = r.filter_model@;
    assert(e.take(i + 1).drop_last() =~= e.take(i));
    assert(e.take(i + 1).last() == e[i]);
    lemma_where_plan_error_extends(e, i + 1);
}

/// Only known columns and the two directions reach the ORDER BY: a sort key
/// whose column is unknown, or whose direction is neither `asc` nor `desc`
/// in lowercase, makes the whole request fail.
pub proof fn law_bad_sort_key_rejected(r: GetRowsRequest, j: int)
    requires
        0 <= j < r.sort_model@.len(),
        sort_term(r.sort_model@[j]) is Err,
    ensures
        rows_query_plan(r) is Err,
{
    let s = r.sort_model@;
    assert(s.take(j + 1).drop_last() =~= s.take(j));
    assert(s.take(j + 1).last() == s[j]);
    lemma_order_plan_error_extends(s, j + 1);
}

/// The operation of a filter.
pub open spec fn filter_op_of(f: FilterModel) -> Seq<char> {
    match f {
        FilterModel::Text(t) => t.filter_op@,
        FilterModel::Number(n) => n.filter_op@,
        FilterModel::Date(d) => d.filter_op@,
    }
}

/// True when the filter suits the kind of column.
pub open spec fn filter_fits(kind: ColumnKind, f: FilterModel) -> bool {
    match (kind, f) {
        (ColumnKind::Text, FilterModel::Text(_)) => true,
        (ColumnKind::Number, FilterModel::Number(_)) => true,
        (ColumnKind::Date, FilterModel::Date(_)) => true,
        _ => false,
    }
}

/// `blank` and `notBlank` filters test the column for NULL and bind no
/// value, whatever operands they carry.
pub proof fn law_blank_filters_bind_nothing(entry: (String, FilterModel), bound: nat)
    requires
        column_for(entry.0@) is Some,
        filter_fits(column_for(entry.0@)->Some_0.1, entry.1),
        filter_op_of(entry.1) == "blank"@ || filter_op_of(entry.1) == "notBlank"@,
    ensures
        ({
            let sql = column_for(entry.0@)->Some_0.0;
            let want = if filter_op_of(entry.1) == "blank"@ {
                is_null_sql(sql)
            } else {
                is_not_null_sql(sql)
            };
            filter_predicate_plan(entry, bound) == (
                Ok::<Seq<char>, Seq<char>>(want),
                Seq::<BoundValue>::empty(),
            )
        }),
{
}


/// A date value that begins with a plain `YYYY-MM-DD` (ASCII, naming a date
/// that exists), as AG Grid sends dates, possibly followed by a time, reads
/// as that date.
pub proof fn law_plain_dates_read_as_written(value: Seq<char>)
    requires
        is_ascii_chars(value),
        value.len() >= 10,
        is_plain_date(value.take(10)),
    ensures
        ag_grid_date(value) == Ok::<CalendarDate, Seq<char>>(
            CalendarDate {
                year: plain_ymd(value.take(10)).0,
                month: plain_ymd(value.take(10)).1,
                day: plain_ymd(value.take(10)).2,
            },
        ),
{
    let bytes = encode_utf8(value);
    let head = value.take(10);
    is_ascii_chars_encode_utf8(value);
    encode_utf8_valid_utf8(value);
    if value.len() == 10 {
        is_char_boundary_start_end_of_seq(bytes);
    } else {
        assert('\0' <= value[10] <= '\u{7f}');
        assert(bytes[10] == value[10] as u8);
        assert(is_leading_byte_width_1(bytes[10]));
        is_char_boundary_iff_is_leading_byte(bytes, 10);
    }
    assert(is_ascii_chars(head));
    is_ascii_chars_encode_utf8(head);
    assert(encode_utf8(head) =~= bytes.take(10));
    encode_utf8_decode_utf8(head);
    assert(ag_grid_date_text(value) == head);
}

/// Sort directions written in ASCII are read without regard to case: on a
/// known column, `asc` and `desc` in any mix of capitals order ascending and
/// descending, and any other direction is refused with its lowercase text.
pub proof fn law_ascii_sort_direction_ignores_case(item: SortModelItem)
    requires
        column_for(item.col_id@) is Some,
        is_ascii_chars(item.sort@),
    ensures
        ({
            let sql = column_for(item.col_id@)->Some_0.0;
            let lower = ascii_lowercase(item.sort@);
            sort_term(item) == if lower == "asc"@ {
                Ok::<Seq<char>, Seq<char>>(sql + " "@ + "ASC"@)
            } else if lower == "desc"@ {
                Ok::<Seq<char>, Seq<char>>(sql + " "@ + "DESC"@)
            } else {
                Err::<Seq<char>, Seq<char>>("unsupported sort direction: "@ + lower)
            }
        }),
{
    let lower = ascii_lowercase(item.sort@);
    assert(lowercase_text(item.sort@) == lower);
}


/// A stored row is refused for the first of its columns (open, high, low,
/// close, volume, in that order) whose text does not convert, with that
/// column's name and the reason; a row whose columns all convert is accepted.
pub proof fn law_row_reports_first_bad_column(raw: RawStockHistoryRow)
    ensures
        bigdecimal_from_text(raw.open@) matches Err(m) ==> row_conversion_failure(raw) == Some(
            "invalid "@ + "open"@ + " value: "@ + m,
        ),
        bigdecimal_from_text(raw.open@) is Ok ==> (bigdecimal_from_text(raw.high@) matches Err(m)
            ==> row_conversion_failure(raw) == Some("invalid "@ + "high"@ + " value: "@ + m)),
        bigdecimal_from_text(raw.open@) is Ok && bigdecimal_from_text(raw.high@) is Ok ==> (
        bigdecimal_from_text(raw.low@) matches Err(m) ==> row_conversion_failure(raw) == Some(
            "invalid "@ + "low"@ + " value: "@ + m,
        )),
        bigdecimal_from_text(raw.open@) is Ok && bigdecimal_from_text(raw.high@) is Ok
            && bigdecimal_from_text(raw.low@) is Ok ==> (bigdecimal_from_text(raw.close@) matches Err(m)
            ==> row_conversion_failure(raw) == Some("invalid "@ + "close"@ + " value: "@ + m)),
        bigdecimal_from_text(raw.open@) is Ok && bigdecimal_from_text(raw.high@) is Ok
            && bigdecimal_from_text(raw.low@) is Ok && bigdecimal_from_text(raw.close@) is Ok ==> (
        u64_from_text(raw.volume@) matches Err(e) ==> row_conversion_failure(raw) == Some(
            "invalid "@ + "volume"@ + " value: "@ + int_error_message(e),
        )),
        bigdecimal_from_text(raw.open@) is Ok && bigdecimal_from_text(raw.high@) is Ok
            && bigdecimal_from_text(raw.low@) is Ok && bigdecimal_from_text(raw.close@) is Ok
            && u64_from_text(raw.volume@) is Ok ==> row_conversion_failure(raw) is None,
{
}

} // verus!
