//! The row that MySQL's `information_schema.columns` returns for a column.

use vstd::prelude::*;

verus! {

/// The raw text of one column's description.
#[derive(Clone, Debug, PartialEq, Eq)]
pub struct ColumnQueryResult {
    pub column_name: String,
    pub column_type: String,
    pub column_key: String,
    pub column_default: Option<String>,
    pub extra: String,
    pub column_comment: String,
}

} // verus!
