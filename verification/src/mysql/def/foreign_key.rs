//! Foreign keys of a table.

use vstd::prelude::*;
use crate::foreign_key::ForeignKeyAction;
use crate::text::views;

verus! {

/// A foreign key of a table.
#[derive(Clone, Debug, PartialEq)]
pub struct ForeignKeyInfo {
    /// The name of the foreign key
    pub name: String,
    /// The columns composing this foreign key
    pub columns: Vec<String>,
    /// Referenced table name
    pub referenced_table: String,
    /// The columns composing the index of the referenced table
    pub referenced_columns: Vec<String>,
    /// Action on update
    pub on_update: ForeignKeyAction,
    /// Action on delete
    pub on_delete: ForeignKeyAction,
}

/// The mathematical model of a [`ForeignKeyInfo`].
pub struct ForeignKeyInfoView {
    pub name: Seq<char>,
    pub columns: Seq<Seq<char>>,
    pub referenced_table: Seq<char>,
    pub referenced_columns: Seq<Seq<char>>,
    pub on_update: ForeignKeyAction,
    pub on_delete: ForeignKeyAction,
}

impl View for ForeignKeyInfo {
    type V = ForeignKeyInfoView;

    open spec fn view(&self) -> ForeignKeyInfoView {
        ForeignKeyInfoView {
            name: self.name@,
            columns: views(self.columns@),
            referenced_table: self.referenced_table@,
            referenced_columns: views(self.referenced_columns@),
            on_update: self.on_update,
            on_delete: self.on_delete,
        }
    }
}

} // verus!
