//! Columns of a table.

use vstd::prelude::*;
use crate::postgres::def::constraints::{NotNull, PrimaryKey, References, Unique};
use crate::postgres::def::types::{Type, TypeView};

verus! {

/// A column of a table.
#[derive(Clone, Debug, PartialEq)]
pub struct ColumnInfo {
    /// The name of the column
    pub name: String,
    /// The type of the column with any additional definitions such as the precision or the character
    /// set
    pub col_type: ColumnType,
    /// The default value experssion for this column, if any
    pub default: Option<ColumnExpression>,
    /// The generation expression for this column, if it is a generated colum
    pub generated: Option<ColumnExpression>,
    /// The constraint that the column holds no null
    pub not_null: Option<NotNull>,
    /// The constraints that ensure that the value of the column, alone or with other columns,
    /// is unique among all other rows in the table
    pub unique: Option<Vec<Unique>>,
    /// A constraint that states that the column is the unique identifier or part of the unique
    /// identifier of each row for this table
    pub primary_key: Option<PrimaryKey>,
    /// A constraint that ensures that the value of this column must refer to a unique key in another
    /// table
    pub references: Option<References>,
}

/// The type of a column.
pub type ColumnType = Type;

/// An expression, as the catalog holds it.
#[derive(Clone, Debug, PartialEq)]
pub struct ColumnExpression(pub String);

impl View for ColumnExpression {
    type V = Seq<char>;

    open spec fn view(&self) -> Seq<char> {
        self.0@
    }
}

/// The text of an optional expression.
pub open spec fn expression_view(e: Option<ColumnExpression>) -> Option<Seq<char>> {
    match e {
        Some(x) => Some(x@),
        None => None,
    }
}

impl ColumnExpression {
    /// The expression of a text, where there is one.
    pub fn from_option_string(maybe_string: Option<String>) -> (r: Option<ColumnExpression>)
        ensures
            expression_view(r) == crate::text::opt_view(maybe_string),
    {
        match maybe_string {
            None => None,
            Some(string) => Some(ColumnExpression(string)),
        }
    }
}

/// The columns of each of a sequence of unique constraints.
pub open spec fn unique_views(v: Seq<Unique>) -> Seq<Seq<Seq<char>>> {
    Seq::new(v.len(), |i: int| v[i]@)
}

/// The mathematical model of a [`ColumnInfo`].
pub struct ColumnInfoView {
    pub name: Seq<char>,
    pub col_type: TypeView,
    pub default: Option<Seq<char>>,
    pub generated: Option<Seq<char>>,
    pub not_null: bool,
    pub unique: Option<Seq<Seq<Seq<char>>>>,
    pub primary_key: Option<Seq<Seq<char>>>,
    pub references: Option<crate::postgres::def::constraints::ReferencesView>,
}

impl View for ColumnInfo {
    type V = ColumnInfoView;

    open spec fn view(&self) -> ColumnInfoView {
        ColumnInfoView {
            name: self.name@,
            col_type: self.col_type@,
            default: expression_view(self.default),
            generated: expression_view(self.generated),
            not_null: self.not_null is Some,
            unique: match self.unique {
                Some(u) => Some(unique_views(u@)),
                None => None,
            },
            primary_key: match self.primary_key {
                Some(p) => Some(p@),
                None => None,
            },
            references: match self.references {
                Some(r) => Some(r@),
                None => None,
            },
        }
    }
}

} // verus!
