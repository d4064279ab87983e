//! Rows of the foreign key catalogs.

use vstd::prelude::*;

verus! {

/// One row of the foreign key catalog: one column of one foreign key.
#[derive(Clone, Debug, Default, PartialEq)]
pub struct ForeignKeyQueryResult {
    pub constraint_name: String,
    pub column_name: String,
    pub referenced_table_name: String,
    pub referenced_column_name: String,
    pub update_rule: String,
    pub delete_rule: String,
}

/// The mathematical model of a [`ForeignKeyQueryResult`].
pub struct ForeignKeyRow {
    pub constraint_name: Seq<char>,
    pub column_name: Seq<char>,
    pub referenced_table_name: Seq<char>,
    pub referenced_column_name: Seq<char>,
    pub update_rule: Seq<char>,
    pub delete_rule: Seq<char>,
}

impl View for ForeignKeyQueryResult {
    type V = ForeignKeyRow;

    open spec fn view(&self) -> ForeignKeyRow {
        ForeignKeyRow {
            constraint_name: self.constraint_name@,
            column_name: self.column_name@,
            referenced_table_name: self.referenced_table_name@,
            referenced_column_name: self.referenced_column_name@,
            update_rule: self.update_rule@,
            delete_rule: self.delete_rule@,
        }
    }
}

} // verus!
