//! Indexes of a table.

use vstd::prelude::*;
use crate::text::views;

verus! {

/// An index of a table, with the columns it covers in index order.
#[derive(Clone, Debug, PartialEq)]
pub struct IndexInfo {
    /// Does this index require unique values
    pub unique: bool,
    /// The name of the index
    pub name: String,
    /// The columns composing this index, in the order of the index
    pub columns: Vec<String>,
    /// Ascending, descending or unordered
    pub order: IndexOrder,
    /// If the whole column is indexed, this value is `None`; else the
    /// number of leading characters that are
    pub sub_part: Option<u32>,
    /// Does this index allow null values
    pub nullable: bool,
    /// BTree (the default), full-text etc
    pub idx_type: IndexType,
    /// User comments
    pub comment: String,
    /// True if part of the index is computed
    pub functional: bool,
}

/// The mathematical model of an [`IndexInfo`].
pub struct IndexInfoView {
    pub unique: bool,
    pub name: Seq<char>,
    pub columns: Seq<Seq<char>>,
    pub order: IndexOrder,
    pub sub_part: Option<u32>,
    pub nullable: bool,
    pub idx_type: IndexType,
    pub comment: Seq<char>,
    pub functional: bool,
}

impl View for IndexInfo {
    type V = IndexInfoView;

    open spec fn view(&self) -> IndexInfoView {
        IndexInfoView {
            unique: self.unique,
            name: self.name@,
            columns: views(self.columns@),
            order: self.order,
            sub_part: self.sub_part,
            nullable: self.nullable,
            idx_type: self.idx_type,
            comment: self.comment@,
            functional: self.functional,
        }
    }
}

/// The sort order of an index.
#[derive(Clone, Copy, Debug, PartialEq, Eq, Structural)]
pub enum IndexOrder {
    Ascending,
    Descending,
    Unordered,
}

/// The method of an index.
#[derive(Clone, Copy, Debug, PartialEq, Eq, Structural)]
pub enum IndexType {
    BTree,
    FullText,
    Hash,
    RTree,
    Spatial,
}

} // verus!
