//! Rows of `information_schema.statistics`.

use vstd::prelude::*;
use crate::text::opt_view;

verus! {

/// One row of the index catalog: one column of one index.
#[derive(Clone, Debug, Default, PartialEq)]
pub struct IndexQueryResult {
    pub non_unique: i32,
    pub index_name: String,
    pub column_name: Option<String>,
    pub collation: Option<String>,
    pub sub_part: Option<i32>,
    pub nullable: String,
    pub index_type: String,
    pub index_comment: String,
    pub expression: Option<String>,
}

/// The mathematical model of an [`IndexQueryResult`].
pub struct IndexRow {
    pub non_unique: i32,
    pub index_name: Seq<char>,
    pub column_name: Option<Seq<char>>,
    pub collation: Option<Seq<char>>,
    pub sub_part: Option<i32>,
    pub nullable: Seq<char>,
    pub index_type: Seq<char>,
    pub index_comment: Seq<char>,
    pub expression: Option<Seq<char>>,
}

impl View for IndexQueryResult {
    type V = IndexRow;

    open spec fn view(&self) -> IndexRow {
        IndexRow {
            non_unique: self.non_unique,
            index_name: self.index_name@,
            column_name: opt_view(self.column_name),
            collation: opt_view(self.collation),
            sub_part: self.sub_part,
            nullable: self.nullable@,
            index_type: self.index_type@,
            index_comment: self.index_comment@,
            expression: opt_view(self.expression),
        }
    }
}

} // verus!
