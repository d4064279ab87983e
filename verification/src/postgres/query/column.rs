//! Rows of `information_schema.columns`.

use vstd::prelude::*;
use crate::text::opt_view;

verus! {

/// One row of the column catalog: one column of one table.
#[derive(Clone, Debug, Default, PartialEq)]
pub struct ColumnQueryResult {
    pub column_name: String,
    pub column_type: String,
    pub column_default: Option<String>,
    pub column_generated: Option<String>,
    pub is_nullable: String,
    pub numeric_precision: Option<i32>,
    pub numeric_precision_radix: Option<i32>,
    pub numeric_scale: Option<i32>,
}

/// The mathematical model of a [`ColumnQueryResult`].
pub struct ColumnRow {
    pub column_name: Seq<char>,
    pub column_type: Seq<char>,
    pub column_default: Option<Seq<char>>,
    pub column_generated: Option<Seq<char>>,
    pub is_nullable: Seq<char>,
    pub numeric_precision: Option<i32>,
    pub numeric_precision_radix: Option<i32>,
    pub numeric_scale: Option<i32>,
}

impl View for ColumnQueryResult {
    type V = ColumnRow;

    open spec fn view(&self) -> ColumnRow {
        ColumnRow {
            column_name: self.column_name@,
            column_type: self.column_type@,
            column_default: opt_view(self.column_default),
            column_generated: opt_view(self.column_generated),
            is_nullable: self.is_nullable@,
            numeric_precision: self.numeric_precision,
            numeric_precision_radix: self.numeric_precision_radix,
            numeric_scale: self.numeric_scale,
        }
    }
}

} // verus!
