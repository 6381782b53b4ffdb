//! Every placeholder of a planned query has its value: the count query holds
//! exactly as many placeholders (`:` followed by a number) as there are values
//! bound.

use crate::repository::filter_predicate_plan;
use crate::repository::rows_query_plan;
use crate::repository::where_plan;
use crate::repository::order_plan;
use crate::repository::sort_term;
use crate::repository::page_offset;
use crate::repository::page_length;
use crate::repository::tiebreak_terms;
use crate::laws::client_order_prefix;
use crate::ssrm::SortModelItem;
use crate::ssrm::FilterModel;
use crate::ssrm::GetRowsRequest;
use crate::text::decimal_chars;
use crate::text::digit_char;
use crate::text::joined;
use vstd::prelude::*;

verus! {

/// The number of `:` characters in a text.
pub open spec fn colon_count(s: Seq<char>) -> nat
    decreases s.len(),
{
    if s.len() == 0 {
        0
    } else {
        colon_count(s.drop_last()) + if s.last() == ':' { 1nat } else { 0nat }
    }
}

/// Counting colons adds up over concatenation.
pub broadcast proof fn lemma_colon_count_concat(a: Seq<char>, b: Seq<char>)
    ensures
        #[trigger] colon_count(a + b) == colon_count(a) + colon_count(b),
    decreases b.len(),
{
    if b.len() == 0 {
        assert(a + b =~= a);
    } else {
        assert((a + b).drop_last() =~= a + b.drop_last());
        lemma_colon_count_concat(a, b.drop_last());
    }
}

proof fn lemma_decimal_has_no_colon(n: nat)
    ensures
        colon_count(decimal_chars(n)) == 0,
    decreases n,
{
    if n >= 10 {
        lemma_decimal_has_no_colon(n / 10);
        assert(decimal_chars(n).drop_last() =~= decimal_chars(n / 10));
        assert(decimal_chars(n).last() == digit_char((n % 10) as int));
    } else {
        assert(decimal_chars(n).drop_last() =~= Seq::<char>::empty());
        assert(decimal_chars(n).last() == digit_char(n as int));
        assert(colon_count(Seq::<char>::empty()) == 0);
    }
}

proof fn lemma_placeholder_has_one_colon(n: nat)
    ensures
        colon_count(":"@ + decimal_chars(n)) == 1,
{
    broadcast use lemma_colon_count_concat;
    reveal_strlit(":");
    lemma_decimal_has_no_colon(n);
    assert(seq![':'].drop_last() =~= Seq::<char>::empty());
    assert(colon_count(Seq::<char>::empty()) == 0);
    assert(colon_count(seq![':']) == 1);
    assert(":"@ =~= seq![':']);
    lemma_colon_count_concat(":"@, decimal_chars(n));
}

/// The fixed words of the queries hold no colon.
proof fn lemma_sql_words_have_no_colon()
    ensures
        colon_count(" IS NULL"@) == 0,
        colon_count(" IS NOT NULL"@) == 0,
        colon_count(" = "@) == 0,
        colon_count(" <> "@) == 0,
        colon_count(" LIKE "@) == 0,
        colon_count(" NOT LIKE "@) == 0,
        colon_count(" < "@) == 0,
        colon_count(" <= "@) == 0,
        colon_count(" > "@) == 0,
        colon_count(" >= "@) == 0,
        colon_count(" BETWEEN "@) == 0,
        colon_count(" AND "@) == 0,
        colon_count("\"DATE\""@) == 0,
        colon_count("TICKER"@) == 0,
        colon_count("\"OPEN\""@) == 0,
        colon_count("HIGH"@) == 0,
        colon_count("LOW"@) == 0,
        colon_count("\"CLOSE\""@) == 0,
        colon_count("VOLUME"@) == 0,
        colon_count(" WHERE "@) == 0,
        colon_count("SELECT COUNT(*) FROM STOCK_HISTORY"@) == 0,
        colon_count(" "@) == 0,
        colon_count("ASC"@) == 0,
        colon_count("DESC"@) == 0,
        colon_count(", "@) == 0,
        colon_count("\"DATE\" DESC"@) == 0,
        colon_count("TICKER ASC"@) == 0,
        colon_count(" ORDER BY "@) == 0,
        colon_count("SELECT "@) == 0,
        colon_count(" FROM STOCK_HISTORY"@) == 0,
        colon_count(" OFFSET "@) == 0,
        colon_count(" ROWS FETCH NEXT "@) == 0,
        colon_count(" ROWS ONLY"@) == 0,
{
    reveal_with_fuel(colon_count, 60);
    reveal_strlit(" IS NULL");
    reveal_strlit(" IS NOT NULL");
    reveal_strlit(" = ");
    reveal_strlit(" <> ");
    reveal_strlit(" LIKE ");
    reveal_strlit(" NOT LIKE ");
    reveal_strlit(" < ");
    reveal_strlit(" <= ");
    reveal_strlit(" > ");
    reveal_strlit(" >= ");
    reveal_strlit(" BETWEEN ");
    reveal_strlit(" AND ");
    reveal_strlit("\"DATE\"");
    reveal_strlit("TICKER");
    reveal_strlit("\"OPEN\"");
    reveal_strlit("HIGH");
    reveal_strlit("LOW");
    reveal_strlit("\"CLOSE\"");
    reveal_strlit("VOLUME");
    reveal_strlit(" WHERE ");
    reveal_strlit("SELECT COUNT(*) FROM STOCK_HISTORY");
    reveal_strlit(" ");
    reveal_strlit("ASC");
    reveal_strlit("DESC");
    reveal_strlit(", ");
    reveal_strlit("\"DATE\" DESC");
    reveal_strlit("TICKER ASC");
    reveal_strlit(" ORDER BY ");
    reveal_strlit("SELECT ");
    reveal_strlit(" FROM STOCK_HISTORY");
    reveal_strlit(" OFFSET ");
    reveal_strlit(" ROWS FETCH NEXT ");
    reveal_strlit(" ROWS ONLY");
}

/// The column list of the page query holds no colon.
proof fn lemma_column_list_has_no_colon()
    ensures
        colon_count("\"DATE\", TICKER, \"OPEN\", HIGH, LOW, \"CLOSE\", VOLUME"@) == 0,
{
    broadcast use lemma_colon_count_concat;

    reveal_with_fuel(colon_count, 20);
    reveal_strlit("\"DATE\", TICKER, \"OPEN\", HIGH, LOW, \"CLOSE\", VOLUME");
    reveal_strlit("\"DATE\", TICKER, ");
    reveal_strlit("\"OPEN\", HIGH, LOW, ");
    reveal_strlit("\"CLOSE\", VOLUME");
    assert("\"DATE\", TICKER, \"OPEN\", HIGH, LOW, \"CLOSE\", VOLUME"@ =~= "\"DATE\", TICKER, "@ + "\"OPEN\", HIGH, LOW, "@ + "\"CLOSE\", VOLUME"@);
}

proof fn lemma_predicate_placeholders(entry: (String, FilterModel), n: nat)
    requires
        filter_predicate_plan(entry, n).0 is Ok,
    ensures
        colon_count(filter_predicate_plan(entry, n).0->Ok_0) == filter_predicate_plan(entry, n).1.len(),
{
    broadcast use lemma_colon_count_concat;

    lemma_sql_words_have_no_colon();
    lemma_placeholder_has_one_colon(n + 1);
    lemma_placeholder_has_one_colon(n + 2);
}

proof fn lemma_where_placeholders(e: Seq<(String, FilterModel)>)
    requires
        where_plan(e) is Ok,
    ensures
        colon_count(joined(where_plan(e)->Ok_0.0, " AND "@)) == where_plan(e)->Ok_0.1.len(),
    decreases e.len(),
{
    broadcast use lemma_colon_count_concat;

    if e.len() > 0 {
        let prev = e.drop_last();
        lemma_where_placeholders(prev);
        let (c0, b0) = where_plan(prev)->Ok_0;
        lemma_predicate_placeholders(e.last(), b0.len());
        let pred = filter_predicate_plan(e.last(), b0.len()).0->Ok_0;
        crate::laws::law_join_appends(c0, pred, " AND "@);
        lemma_sql_words_have_no_colon();
    }
}

proof fn lemma_order_terms_have_no_colon(items: Seq<SortModelItem>)
    requires
        order_plan(items) is Ok,
    ensures
        colon_count(client_order_prefix(order_plan(items)->Ok_0)) == 0,
    decreases items.len(),
{
    broadcast use lemma_colon_count_concat;

    lemma_sql_words_have_no_colon();
    if items.len() > 0 {
        let prev = items.drop_last();
        lemma_order_terms_have_no_colon(prev);
        let t0 = order_plan(prev)->Ok_0;
        let t = sort_term(items.last())->Ok_0;
        assert(colon_count(t) == 0);
        crate::laws::law_join_appends(t0, t, ", "@);
    }
}

/// Every placeholder of a planned query has its value: the count query and
/// the page query each hold exactly as many `:` (each the start of a
/// placeholder) as there are values bound.
pub proof fn law_placeholders_match_binds(r: GetRowsRequest)
    requires
        rows_query_plan(r) is Ok,
    ensures
        colon_count(rows_query_plan(r)->Ok_0.0) == rows_query_plan(r)->Ok_0.2.len(),
        colon_count(rows_query_plan(r)->Ok_0.1) == rows_query_plan(r)->Ok_0.2.len(),
{
    broadcast use lemma_colon_count_concat;

    lemma_sql_words_have_no_colon();
    lemma_column_list_has_no_colon();
    let (clauses, binds) = where_plan(r.filter_model@)->Ok_0;
    lemma_where_placeholders(r.filter_model@);
    assert(colon_count(Seq::<char>::empty()) == 0);
    let terms = order_plan(r.sort_model@)->Ok_0;
    lemma_order_terms_have_no_colon(r.sort_model@);
    lemma_decimal_has_no_colon(page_offset(r) as nat);
    lemma_decimal_has_no_colon(page_length(r) as nat);
    crate::laws::law_page_query_shape(r);
    let sep = ", "@;
    let d = "\"DATE\" DESC"@;
    let t = "TICKER ASC"@;
    crate::laws::law_join_appends(terms, d, sep);
    crate::laws::law_join_appends(terms.push(d), t, sep);
    assert(terms + tiebreak_terms() =~= terms.push(d).push(t));
    assert(joined(terms + tiebreak_terms(), sep) =~= client_order_prefix(terms) + d + sep + t);
}

} // verus!
