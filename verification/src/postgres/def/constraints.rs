//! Constraints on the columns of a table.

use vstd::prelude::*;
use crate::foreign_key::ForeignKeyAction;
use crate::text::views;

verus! {

/// An enum consisting of all constraints
#[derive(Clone, Debug, PartialEq)]
pub enum Constraint {
    Check(Check),
    NotNull(NotNull),
    Unique(Unique),
    PrimaryKey(PrimaryKey),
    References(References),
    Exclusion(Exclusion),
}

/// A constraint which states that a value must satisfy the following Boolean expression
#[derive(Clone, Debug, PartialEq)]
pub struct Check {
    /// The Boolean expression that must be satisfied
    pub expr: String,
    /// If marked with NO INHERIT, the constraint will not propogate to child tables
    pub no_inherit: bool,
}

/// The constraint that a value must not be null
#[derive(Clone, Copy, Debug, PartialEq, Eq, Structural)]
pub struct NotNull;

impl NotNull {
    /// The constraint where `boolean` holds, else none.
    pub fn from_bool(boolean: bool) -> (r: Option<NotNull>)
        ensures
            r == if boolean {
                Some(NotNull)
            } else {
                None::<NotNull>
            },
    {
        if boolean {
            Some(NotNull)
        } else {
            None
        }
    }
}

/// That each set of values for these columns must be unique across the whole table
#[derive(Clone, Debug, PartialEq)]
pub struct Unique(pub Vec<String>);

impl View for Unique {
    type V = Seq<Seq<char>>;

    open spec fn view(&self) -> Seq<Seq<char>> {
        views(self.0@)
    }
}

/// A constraint stating that the given columns act as a unique identifier for rows in the table.
/// This implies that the columns are not null and are unique together
#[derive(Clone, Debug, PartialEq)]
pub struct PrimaryKey(pub Vec<String>);

impl View for PrimaryKey {
    type V = Seq<Seq<char>>;

    open spec fn view(&self) -> Seq<Seq<char>> {
        views(self.0@)
    }
}

/// A constraint that column references the values appearing in the row of another table
#[derive(Clone, Debug, PartialEq)]
pub struct References {
    pub columns: Vec<String>,
    pub table: String,
    pub foreign_columns: Vec<String>,
    pub on_update: Option<ForeignKeyAction>,
    pub on_delete: Option<ForeignKeyAction>,
}

/// The mathematical model of a [`References`].
pub struct ReferencesView {
    pub columns: Seq<Seq<char>>,
    pub table: Seq<char>,
    pub foreign_columns: Seq<Seq<char>>,
    pub on_update: Option<ForeignKeyAction>,
    pub on_delete: Option<ForeignKeyAction>,
}

impl View for References {
    type V = ReferencesView;

    open spec fn view(&self) -> ReferencesView {
        ReferencesView {
            columns: views(self.columns@),
            table: self.table@,
            foreign_columns: views(self.foreign_columns@),
            on_update: self.on_update,
            on_delete: self.on_delete,
        }
    }
}

/// A constraint that ensures that, if any two rows are compared on the specified columns or
/// expressions using the specified operators, at least one of these operator comparisons returns
/// false or null
#[derive(Clone, Debug, PartialEq)]
pub struct Exclusion {
    pub using: String,
    pub columns: Vec<String>,
    pub operation: String,
}

} // verus!
