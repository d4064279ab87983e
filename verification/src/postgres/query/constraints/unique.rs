//! Rows of `information_schema.key_column_usage` for unique constraints.

use vstd::prelude::*;

verus! {

/// One row of a unique constraint: one of its columns.
#[derive(Clone, Debug, Default, PartialEq)]
pub struct UniqueQueryResult {
    pub constraint_schema: String,
    pub constraint_name: String,
    pub table_name: String,
    pub column_name: String,
    /// The position of the column within the constraint, counted from one
    pub ordinal_position: i32,
}

/// The mathematical model of a [`UniqueQueryResult`].
pub struct UniqueRow {
    pub constraint_schema: Seq<char>,
    pub constraint_name: Seq<char>,
    pub table_name: Seq<char>,
    pub column_name: Seq<char>,
    pub ordinal_position: i32,
}

impl View for UniqueQueryResult {
    type V = UniqueRow;

    open spec fn view(&self) -> UniqueRow {
        UniqueRow {
            constraint_schema: self.constraint_schema@,
            constraint_name: self.constraint_name@,
            table_name: self.table_name@,
            column_name: self.column_name@,
            ordinal_position: self.ordinal_position,
        }
    }
}

} // verus!
