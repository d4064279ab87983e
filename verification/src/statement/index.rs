//! `CREATE INDEX` statements.

use vstd::prelude::*;

verus! {

/// `sea_query::IndexCreateStatement`, a `CREATE INDEX` statement of the
/// builder; nothing is known of it but what the functions below state of
/// its model.
#[verifier::external_type_specification]
#[verifier::external_body]
pub struct ExIndexCreateStatement(sea_query::IndexCreateStatement);

/// What the writers put into a `CREATE INDEX` statement.
pub struct IndexCreateModel {
    /// The name of the index.
    pub name: Option<Seq<char>>,
    /// The name of the table.
    pub table: Option<Seq<char>>,
    /// Whether the index is the primary key.
    pub primary: bool,
    /// Whether the index is unique.
    pub unique: bool,
    /// Whether the index is a full-text index.
    pub full_text: bool,
    /// The names of the columns, in their order.
    pub columns: Seq<Seq<char>>,
}

/// The index name, table name, primary, unique and full-text flags and
/// column names that a `sea_query::IndexCreateStatement` holds.
pub uninterp spec fn index_create_model(s: sea_query::IndexCreateStatement) -> IndexCreateModel;

/// `sea_query::Index::create`: a statement with no name, no table, no
/// flag and no column.
#[verifier::external_body]
pub(crate) fn index_create_new() -> (s: sea_query::IndexCreateStatement)
    ensures
        index_create_model(s) == (IndexCreateModel {
            name: None,
            table: None,
            primary: false,
            unique: false,
            full_text: false,
            columns: Seq::empty(),
        }),
{
    sea_query::Index::create()
}

/// `sea_query::IndexCreateStatement::name`: sets the name of the index and
/// leaves the rest.
#[verifier::external_body]
pub(crate) fn index_create_name(s: &mut sea_query::IndexCreateStatement, name: &str)
    ensures
        index_create_model(*final(s)) == (IndexCreateModel {
            name: Some(name@),
            ..index_create_model(*old(s))
        }),
{
    s.name(name);
}

/// `sea_query::IndexCreateStatement::table` with an `Alias`: sets the
/// name of the table and leaves the rest.
#[verifier::external_body]
pub(crate) fn index_create_table(s: &mut sea_query::IndexCreateStatement, table: &str)
    ensures
        index_create_model(*final(s)) == (IndexCreateModel {
            table: Some(table@),
            ..index_create_model(*old(s))
        }),
{
    s.table(sea_query::Alias::new(table));
}

/// `sea_query::IndexCreateStatement::primary`: sets the primary flag and
/// leaves the rest.
#[verifier::external_body]
pub(crate) fn index_create_primary(s: &mut sea_query::IndexCreateStatement)
    ensures
        index_create_model(*final(s)) == (IndexCreateModel {
            primary: true,
            ..index_create_model(*old(s))
        }),
{
    s.primary();
}

/// `sea_query::IndexCreateStatement::unique`: sets the unique flag and
/// leaves the rest.
#[verifier::external_body]
pub(crate) fn index_create_unique(s: &mut sea_query::IndexCreateStatement)
    ensures
        index_create_model(*final(s)) == (IndexCreateModel {
            unique: true,
            ..index_create_model(*old(s))
        }),
{
    s.unique();
}

/// `sea_query::IndexCreateStatement::full_text`: sets the index type to
/// full-text and leaves the rest.
#[verifier::external_body]
pub(crate) fn index_create_full_text(s: &mut sea_query::IndexCreateStatement)
    ensures
        index_create_model(*final(s)) == (IndexCreateModel {
            full_text: true,
            ..index_create_model(*old(s))
        }),
{
    s.full_text();
}

/// `sea_query::IndexCreateStatement::col` with an `Alias`: puts the
/// column behind the columns that are there and leaves the rest.
#[verifier::external_body]
pub(crate) fn index_create_col(s: &mut sea_query::IndexCreateStatement, column: &str)
    ensures
        index_create_model(*final(s)) == (IndexCreateModel {
            columns: index_create_model(*old(s)).columns.push(column@),
            ..index_create_model(*old(s))
        }),
{
    s.col(sea_query::Alias::new(column));
}

} // verus!
