//! AG Grid Server-Side Row Model request and response types.

use vstd::prelude::*;

verus! {

/// A `getRows` request: the block of rows wanted, the sort model and the
/// filter model.
#[derive(Clone, Debug, PartialEq, Eq)]
pub struct GetRowsRequest {
    pub start_row: i64,
    pub end_row: i64,
    pub sort_model: Vec<SortModelItem>,
    /// The filter model's entries, column id and filter, in the order in which
    /// the map that carried them was walked (so each column id occurs once;
    /// the planner does not rely on it).
    pub filter_model: Vec<(String, FilterModel)>,
}

/// One sort key: a column id and a direction (`asc` or `desc`, in any case).
#[derive(Clone, Debug, PartialEq, Eq)]
pub struct SortModelItem {
    pub col_id: String,
    pub sort: String,
}

/// The filter on one column, by the kind of the column.
#[derive(Clone, Debug, PartialEq, Eq)]
pub enum FilterModel {
    Text(TextFilterModel),
    Number(NumberFilterModel),
    Date(DateFilterModel),
}

/// A text filter: the operation (`equals`, `contains`, ...) and its operand.
#[derive(Clone, Debug, PartialEq, Eq)]
pub struct TextFilterModel {
    pub filter_op: String,
    pub filter: Option<String>,
}

/// A number filter. The operands are IEEE 754 double-precision numbers, held
/// by their bit patterns (`f64::to_bits`).
#[derive(Clone, Debug, PartialEq, Eq)]
pub struct NumberFilterModel {
    pub filter_op: String,
    pub filter: Option<u64>,
    pub filter_to: Option<u64>,
}

/// A date filter: the operation and the AG Grid date values
/// (`YYYY-MM-DD`, possibly followed by a time).
#[derive(Clone, Debug, PartialEq, Eq)]
pub struct DateFilterModel {
    pub filter_op: String,
    pub date_from: Option<String>,
    pub date_to: Option<String>,
}

/// A `getRows` answer: the rows of the block and the number of rows that the
/// filters select in all.
#[derive(Clone, Debug, PartialEq, Eq)]
pub struct GetRowsResponse<T> {
    pub row_data: Vec<T>,
    pub row_count: i64,
}

} // verus!
