//! What each filter binds: every operand the client sends reaches the query
//! as a bound value, unchanged (or wrapped in the `%` wildcards its operation
//! calls for), and the predicate names it by the next placeholder.

use crate::repository::ag_grid_date;
use crate::repository::column_for;
use crate::repository::filter_predicate_plan;
use crate::repository::BoundValue;
use crate::repository::ColumnKind;
use crate::ssrm::FilterModel;
use crate::text::decimal_chars;
use vstd::prelude::*;

verus! {

/// The characters of the names of the filter operations (so that they are
/// known to differ).
proof fn lemma_operation_names_differ()
    ensures
        "blank"@ == seq!['b', 'l', 'a', 'n', 'k'],
        "notBlank"@ == seq!['n', 'o', 't', 'B', 'l', 'a', 'n', 'k'],
        "inRange"@ == seq!['i', 'n', 'R', 'a', 'n', 'g', 'e'],
        "equals"@ == seq!['e', 'q', 'u', 'a', 'l', 's'],
        "notEqual"@ == seq!['n', 'o', 't', 'E', 'q', 'u', 'a', 'l'],
        "contains"@ == seq!['c', 'o', 'n', 't', 'a', 'i', 'n', 's'],
        "notContains"@ == seq!['n', 'o', 't', 'C', 'o', 'n', 't', 'a', 'i', 'n', 's'],
        "startsWith"@ == seq!['s', 't', 'a', 'r', 't', 's', 'W', 'i', 't', 'h'],
        "endsWith"@ == seq!['e', 'n', 'd', 's', 'W', 'i', 't', 'h'],
        "lessThan"@ == seq!['l', 'e', 's', 's', 'T', 'h', 'a', 'n'],
        "lessThanOrEqual"@ == seq!['l', 'e', 's', 's', 'T', 'h', 'a', 'n', 'O', 'r', 'E', 'q', 'u', 'a', 'l'],
        "greaterThan"@ == seq!['g', 'r', 'e', 'a', 't', 'e', 'r', 'T', 'h', 'a', 'n'],
        "greaterThanOrEqual"@ == seq!['g', 'r', 'e', 'a', 't', 'e', 'r', 'T', 'h', 'a', 'n', 'O', 'r', 'E', 'q', 'u', 'a', 'l'],
{
    reveal_strlit("blank");
    reveal_strlit("notBlank");
    reveal_strlit("inRange");
    reveal_strlit("equals");
    reveal_strlit("notEqual");
    reveal_strlit("contains");
    reveal_strlit("notContains");
    reveal_strlit("startsWith");
    reveal_strlit("endsWith");
    reveal_strlit("lessThan");
    reveal_strlit("lessThanOrEqual");
    reveal_strlit("greaterThan");
    reveal_strlit("greaterThanOrEqual");
}

/// A text filter on a text column binds the client's operand, character for
/// character: `equals` and `notEqual` bind it as it is, `contains` and
/// `notContains` between two `%`, `startsWith` followed by `%`, `endsWith`
/// preceded by `%`; the predicate compares the column with placeholder
/// `:(bound + 1)`.
pub proof fn law_text_filter_binds_operand(entry: (String, FilterModel), bound: nat)
    requires
        column_for(entry.0@) matches Some((_, kind)) && kind == ColumnKind::Text,
        entry.1 matches FilterModel::Text(f) && f.filter is Some,
    ensures
        ({
            let sql = column_for(entry.0@)->Some_0.0;
            let f = entry.1->Text_0;
            let v = f.filter->Some_0@;
            let op = f.filter_op@;
            let p = ":"@ + decimal_chars(bound + 1);
            let (pred, added) = filter_predicate_plan(entry, bound);
            &&& op == "equals"@ ==> pred == Ok::<Seq<char>, Seq<char>>(sql + " = "@ + p)
                && added == seq![BoundValue::Text(v)]
            &&& op == "notEqual"@ ==> pred == Ok::<Seq<char>, Seq<char>>(sql + " <> "@ + p)
                && added == seq![BoundValue::Text(v)]
            &&& op == "contains"@ ==> pred == Ok::<Seq<char>, Seq<char>>(sql + " LIKE "@ + p)
                && added == seq![BoundValue::Text("%"@ + v + "%"@)]
            &&& op == "notContains"@ ==> pred == Ok::<Seq<char>, Seq<char>>(sql + " NOT LIKE "@ + p)
                && added == seq![BoundValue::Text("%"@ + v + "%"@)]
            &&& op == "startsWith"@ ==> pred == Ok::<Seq<char>, Seq<char>>(sql + " LIKE "@ + p)
                && added == seq![BoundValue::Text(v + "%"@)]
            &&& op == "endsWith"@ ==> pred == Ok::<Seq<char>, Seq<char>>(sql + " LIKE "@ + p)
                && added == seq![BoundValue::Text("%"@ + v)]
        }),
{
    lemma_operation_names_differ();
}

/// A single-operand number filter on a number column binds exactly the
/// client's operand, bit for bit, whatever its operation (an unsupported
/// operation binds it too before it is refused); each supported comparison
/// compares the column with placeholder `:(bound + 1)`.
pub proof fn law_number_filter_binds_operand(entry: (String, FilterModel), bound: nat)
    requires
        column_for(entry.0@) matches Some((_, kind)) && kind == ColumnKind::Number,
        entry.1 matches FilterModel::Number(f) && f.filter is Some,
        entry.1->Number_0.filter_op@ != "blank"@,
        entry.1->Number_0.filter_op@ != "notBlank"@,
        entry.1->Number_0.filter_op@ != "inRange"@,
    ensures
        ({
            let sql = column_for(entry.0@)->Some_0.0;
            let f = entry.1->Number_0;
            let op = f.filter_op@;
            let p = ":"@ + decimal_chars(bound + 1);
            let (pred, added) = filter_predicate_plan(entry, bound);
            &&& added == seq![BoundValue::Num(f.filter->Some_0)]
            &&& op == "equals"@ ==> pred == Ok::<Seq<char>, Seq<char>>(sql + " = "@ + p)
            &&& op == "notEqual"@ ==> pred == Ok::<Seq<char>, Seq<char>>(sql + " <> "@ + p)
            &&& op == "lessThan"@ ==> pred == Ok::<Seq<char>, Seq<char>>(sql + " < "@ + p)
            &&& op == "lessThanOrEqual"@ ==> pred == Ok::<Seq<char>, Seq<char>>(sql + " <= "@ + p)
            &&& op == "greaterThan"@ ==> pred == Ok::<Seq<char>, Seq<char>>(sql + " > "@ + p)
            &&& op == "greaterThanOrEqual"@ ==> pred == Ok::<Seq<char>, Seq<char>>(
                sql + " >= "@ + p,
            )
        }),
{
    lemma_operation_names_differ();
}

/// A number range on a number column binds both ends, bit for bit, in order,
/// and tests the column BETWEEN placeholders `:(bound + 1)` and `:(bound + 2)`.
pub proof fn law_number_range_binds_both_ends(entry: (String, FilterModel), bound: nat)
    requires
        column_for(entry.0@) matches Some((_, kind)) && kind == ColumnKind::Number,
        entry.1 matches FilterModel::Number(f) && f.filter is Some && f.filter_to is Some,
        entry.1->Number_0.filter_op@ == "inRange"@,
    ensures
        ({
            let sql = column_for(entry.0@)->Some_0.0;
            let f = entry.1->Number_0;
            filter_predicate_plan(entry, bound) == (
                Ok::<Seq<char>, Seq<char>>(
                    sql + " BETWEEN "@ + (":"@ + decimal_chars(bound + 1)) + " AND "@ + (":"@
                        + decimal_chars(bound + 2)),
                ),
                seq![BoundValue::Num(f.filter->Some_0), BoundValue::Num(f.filter_to->Some_0)],
            )
        }),
{
    lemma_operation_names_differ();
}

/// A single-operand date filter on the date column whose `dateFrom` reads as
/// a date binds exactly that one date, whatever its operation (an
/// unsupported operation binds it too before it is refused); each supported
/// comparison compares the column with placeholder `:(bound + 1)`.
pub proof fn law_date_filter_binds_read_date(entry: (String, FilterModel), bound: nat)
    requires
        column_for(entry.0@) matches Some((_, kind)) && kind == ColumnKind::Date,
        entry.1 matches FilterModel::Date(f) && f.date_from is Some,
        ag_grid_date(entry.1->Date_0.date_from->Some_0@) is Ok,
        entry.1->Date_0.filter_op@ != "blank"@,
        entry.1->Date_0.filter_op@ != "notBlank"@,
        entry.1->Date_0.filter_op@ != "inRange"@,
    ensures
        ({
            let sql = column_for(entry.0@)->Some_0.0;
            let f = entry.1->Date_0;
            let d = ag_grid_date(f.date_from->Some_0@)->Ok_0;
            let op = f.filter_op@;
            let p = ":"@ + decimal_chars(bound + 1);
            let (pred, added) = filter_predicate_plan(entry, bound);
            &&& added == seq![BoundValue::Date(d)]
            &&& op == "equals"@ ==> pred == Ok::<Seq<char>, Seq<char>>(sql + " = "@ + p)
            &&& op == "notEqual"@ ==> pred == Ok::<Seq<char>, Seq<char>>(sql + " <> "@ + p)
            &&& op == "lessThan"@ ==> pred == Ok::<Seq<char>, Seq<char>>(sql + " < "@ + p)
            &&& op == "greaterThan"@ ==> pred == Ok::<Seq<char>, Seq<char>>(sql + " > "@ + p)
        }),
{
    lemma_operation_names_differ();
}

/// A date range on the date column whose two ends read as dates binds both
/// dates, in order, and tests the column BETWEEN placeholders `:(bound + 1)`
/// and `:(bound + 2)`.
pub proof fn law_date_range_binds_both_dates(entry: (String, FilterModel), bound: nat)
    requires
        column_for(entry.0@) matches Some((_, kind)) && kind == ColumnKind::Date,
        entry.1 matches FilterModel::Date(f) && f.date_from is Some && f.date_to is Some,
        ag_grid_date(entry.1->Date_0.date_from->Some_0@) is Ok,
        ag_grid_date(entry.1->Date_0.date_to->Some_0@) is Ok,
        entry.1->Date_0.filter_op@ == "inRange"@,
    ensures
        ({
            let sql = column_for(entry.0@)->Some_0.0;
            let f = entry.1->Date_0;
            filter_predicate_plan(entry, bound) == (
                Ok::<Seq<char>, Seq<char>>(
                    sql + " BETWEEN "@ + (":"@ + decimal_chars(bound + 1)) + " AND "@ + (":"@
                        + decimal_chars(bound + 2)),
                ),
                seq![
                    BoundValue::Date(ag_grid_date(f.date_from->Some_0@)->Ok_0),
                    BoundValue::Date(ag_grid_date(f.date_to->Some_0@)->Ok_0),
                ],
            )
        }),
{
    lemma_operation_names_differ();
}

} // verus!
