//! How a planned `getRows` request is made of its filters and sort keys:
//! one WHERE predicate per filter entry, in order, joined with AND and shared
//! by the count and page queries; the values bound are those of each
//! predicate in turn; one ORDER BY term per sort key, in order, before the
//! tiebreak.

use crate::laws::client_order_prefix;
use crate::repository::filter_predicate_plan;
use crate::repository::order_plan;
use crate::repository::rows_query_plan;
use crate::repository::sort_term;
use crate::repository::where_plan;
use crate::repository::BoundValue;
use crate::ssrm::FilterModel;
use crate::ssrm::GetRowsRequest;
use crate::ssrm::SortModelItem;
use crate::text::decimal_chars;
use crate::text::joined;
use vstd::prelude::*;

verus! {

/// The WHERE clause that `clauses` make: nothing when there are none, else
/// ` WHERE ` and the clauses joined with ` AND ` (every row selected satisfies
/// every filter).
pub open spec fn conjunction(clauses: Seq<Seq<char>>) -> Seq<char> {
    if clauses.len() == 0 {
        Seq::empty()
    } else {
        " WHERE "@ + joined(clauses, " AND "@)
    }
}

/// The predicates `clauses` and the bound values `binds` are those of the
/// filter entries `entries`, entry by entry: entry `i` is planned with
/// `offs[i]` values bound before it, and yields predicate `clauses[i]` and
/// the values `binds[offs[i]..offs[i + 1]]`.
pub open spec fn filters_make(
    entries: Seq<(String, FilterModel)>,
    clauses: Seq<Seq<char>>,
    binds: Seq<BoundValue>,
    offs: Seq<nat>,
) -> bool {
    &&& clauses.len() == entries.len()
    &&& offs.len() == entries.len() + 1
    &&& offs[0] == 0
    &&& offs[entries.len() as int] == binds.len()
    &&& forall|i: int|
        0 <= i < entries.len() ==> offs[i] <= #[trigger] offs[i + 1] && filter_predicate_plan(
            entries[i],
            offs[i],
        ) == (Ok::<Seq<char>, Seq<char>>(clauses[i]), binds.subrange(offs[i] as int, offs[i + 1] as int))
}

/// The ORDER BY terms `terms` are those of the sort keys `items`, one per
/// key, in order.
pub open spec fn sort_keys_make(items: Seq<SortModelItem>, terms: Seq<Seq<char>>) -> bool {
    &&& terms.len() == items.len()
    &&& forall|j: int| 0 <= j < items.len() ==> #[trigger] sort_term(items[j]) == Ok::<Seq<char>, Seq<char>>(terms[j])
}

pub(crate) proof fn lemma_where_plan_pieces(e: Seq<(String, FilterModel)>) -> (offs: Seq<nat>)
    requires
        where_plan(e) is Ok,
    ensures
        filters_make(e, where_plan(e)->Ok_0.0, where_plan(e)->Ok_0.1, offs),
        forall|i: int| 0 <= i <= e.len() ==> #[trigger] offs[i] <= where_plan(e)->Ok_0.1.len(),
    decreases e.len(),
{
    if e.len() == 0 {
        seq![0nat]
    } else {
        let prev = e.drop_last();
        let prev_offs = lemma_where_plan_pieces(prev);
        let (c0, b0) = where_plan(prev)->Ok_0;
        let (pred, added) = filter_predicate_plan(e.last(), b0.len());
        let (clauses, binds) = where_plan(e)->Ok_0;
        assert(clauses == c0.push(pred->Ok_0));
        assert(binds == b0 + added);
        let offs = prev_offs.push(b0.len() + added.len());
        assert forall|i: int|
            0 <= i < e.len() implies offs[i] <= #[trigger] offs[i + 1] && filter_predicate_plan(
                e[i],
                offs[i],
            ) == (Ok::<Seq<char>, Seq<char>>(clauses[i]), binds.subrange(
                offs[i] as int,
                offs[i + 1] as int,
            )) by {
            if i < e.len() - 1 {
                assert(prev[i] == e[i]);
                assert(prev_offs[i] <= prev_offs[i + 1]);
                assert(prev_offs[i + 1] <= b0.len());
                assert(binds.subrange(offs[i] as int, offs[i + 1] as int) =~= b0.subrange(
                    prev_offs[i] as int,
                    prev_offs[i + 1] as int,
                ));
            } else {
                assert(binds.subrange(offs[i] as int, offs[i + 1] as int) =~= added);
            }
        }
        assert forall|i: int| 0 <= i <= e.len() implies #[trigger] offs[i] <= binds.len() by {
            if i < e.len() {
                assert(prev_offs[i] <= b0.len());
            }
        }
        offs
    }
}

proof fn lemma_order_plan_pieces(items: Seq<SortModelItem>)
    requires
        order_plan(items) is Ok,
    ensures
        sort_keys_make(items, order_plan(items)->Ok_0),
    decreases items.len(),
{
    if items.len() > 0 {
        let prev = items.drop_last();
        lemma_order_plan_pieces(prev);
        let terms = order_plan(items)->Ok_0;
        assert forall|j: int| 0 <= j < items.len() implies #[trigger] sort_term(items[j]) == Ok::<
            Seq<char>,
            Seq<char>,
        >(terms[j]) by {
            if j < items.len() - 1 {
                assert(prev[j] == items[j]);
            }
        }
    }
}

/// What a planned request is made of: there are predicates, one per filter
/// entry and in order, and a partition of the bound values among them (each
/// entry planned with the values of the entries before it already bound);
/// there are ORDER BY terms, one per sort key and in order; the count query
/// is `SELECT COUNT(*) FROM STOCK_HISTORY` with the predicates joined by AND;
/// the page query selects the columns under the same WHERE clause, orders by
/// the sort terms and then the tiebreak, and fetches `max(endRow -
/// max(startRow, 0), 0)` rows from row `max(startRow, 0)`.
pub proof fn law_plan_is_made_of_filters_and_sort_keys(r: GetRowsRequest)
    requires
        rows_query_plan(r) is Ok,
    ensures
        exists|clauses: Seq<Seq<char>>, offs: Seq<nat>, terms: Seq<Seq<char>>|
            {
                let plan = rows_query_plan(r)->Ok_0;
                let w = conjunction(clauses);
                let offset: int = if r.start_row < 0 { 0 } else { r.start_row as int };
                let fetch: int = if r.end_row - offset < 0 { 0 } else { r.end_row - offset };
                &&& #[trigger] filters_make(r.filter_model@, clauses, rows_query_plan(r)->Ok_0.2, offs)
                &&& #[trigger] sort_keys_make(r.sort_model@, terms)
                &&& plan.0 == "SELECT COUNT(*) FROM STOCK_HISTORY"@ + w
                &&& plan.1 == "SELECT "@ + "\"DATE\", TICKER, \"OPEN\", HIGH, LOW, \"CLOSE\", VOLUME"@
                    + " FROM STOCK_HISTORY"@ + w + (" ORDER BY "@ + client_order_prefix(terms)
                    + "\"DATE\" DESC"@ + ", "@ + "TICKER ASC"@) + " OFFSET "@ + decimal_chars(
                    offset as nat,
                ) + " ROWS FETCH NEXT "@ + decimal_chars(fetch as nat) + " ROWS ONLY"@
            },
{
    let (clauses, binds) = where_plan(r.filter_model@)->Ok_0;
    let offs = lemma_where_plan_pieces(r.filter_model@);
    let terms = order_plan(r.sort_model@)->Ok_0;
    lemma_order_plan_pieces(r.sort_model@);
    crate::laws::law_page_query_shape(r);
    let sep = ", "@;
    let d = "\"DATE\" DESC"@;
    let t = "TICKER ASC"@;
    crate::laws::law_join_appends(terms, d, sep);
    crate::laws::law_join_appends(terms.push(d), t, sep);
    assert(terms + seq![d, t] =~= terms.push(d).push(t));
    let o = " ORDER BY "@ + joined(terms + seq![d, t], sep);
    assert(o =~= " ORDER BY "@ + client_order_prefix(terms) + d + sep + t);
    let plan = rows_query_plan(r)->Ok_0;
    assert(filters_make(r.filter_model@, clauses, plan.2, offs));
    assert(sort_keys_make(r.sort_model@, terms));
}

} // verus!
