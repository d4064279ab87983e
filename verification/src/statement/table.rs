//! Column definitions and `CREATE TABLE` statements.

use vstd::prelude::*;

verus! {

/// `sea_query::ColumnDef`, a column definition of the builder; nothing is
/// known of it but what the functions below state of its model.
#[verifier::external_type_specification]
#[verifier::external_body]
pub struct ExColumnDef(sea_query::ColumnDef);

/// `sea_query::TableCreateStatement`, a `CREATE TABLE` statement of the
/// builder; nothing is known of it but what the functions below state of
/// its model.
#[verifier::external_type_specification]
#[verifier::external_body]
pub struct ExTableCreateStatement(sea_query::TableCreateStatement);

/// What the writers put into a column definition.
pub struct ColumnDefModel {
    /// The name of the column.
    pub name: Seq<char>,
    /// The text of a type that the builder writes as it is.
    pub custom_type: Option<Seq<char>>,
    /// `Some(false)` for `NOT NULL`, `Some(true)` for `NULL`.
    pub nullable: Option<bool>,
    /// Whether the column counts itself up.
    pub auto_increment: bool,
    /// What the builder writes behind everything else, as it is.
    pub extra: Option<Seq<char>>,
}

/// An option of a table, written behind the column list.
pub enum TableOptionModel {
    Engine(Seq<char>),
    Collate(Seq<char>),
    CharacterSet(Seq<char>),
}

/// What the writers put into a `CREATE TABLE` statement.
pub struct TableCreateModel {
    /// The name of the table.
    pub table: Option<Seq<char>>,
    /// The columns, in their order.
    pub columns: Seq<ColumnDefModel>,
    /// The options, in their order.
    pub options: Seq<TableOptionModel>,
}

/// The name, custom type, nullability, auto-increment flag and extra text
/// that a `sea_query::ColumnDef` holds.
pub uninterp spec fn column_def_model(c: sea_query::ColumnDef) -> ColumnDefModel;

/// The table name, columns and options that a
/// `sea_query::TableCreateStatement` holds.
pub uninterp spec fn table_create_model(t: sea_query::TableCreateStatement) -> TableCreateModel;

/// `sea_query::ColumnDef::new` with an `Alias`: a column definition of
/// the given name, with no type and nothing else set.
#[verifier::external_body]
pub(crate) fn column_def_new(name: &str) -> (c: sea_query::ColumnDef)
    ensures
        column_def_model(c) == (ColumnDefModel {
            name: name@,
            custom_type: None,
            nullable: None,
            auto_increment: false,
            extra: None,
        }),
{
    sea_query::ColumnDef::new(sea_query::Alias::new(name))
}

/// `sea_query::ColumnDef::custom` with an `Alias`: sets the type to the
/// given text and leaves the rest.
#[verifier::external_body]
pub(crate) fn column_def_custom(c: &mut sea_query::ColumnDef, type_text: &str)
    ensures
        column_def_model(*final(c)) == (ColumnDefModel {
            custom_type: Some(type_text@),
            ..column_def_model(*old(c))
        }),
{
    c.custom(sea_query::Alias::new(type_text));
}

/// `sea_query::ColumnDef::not_null`: sets the nullability to `Some(false)`
/// and leaves the rest.
#[verifier::external_body]
pub(crate) fn column_def_not_null(c: &mut sea_query::ColumnDef)
    ensures
        column_def_model(*final(c)) == (ColumnDefModel {
            nullable: Some(false),
            ..column_def_model(*old(c))
        }),
{
    c.not_null();
}

/// `sea_query::ColumnDef::auto_increment`: sets the auto-increment flag and
/// leaves the rest.
#[verifier::external_body]
pub(crate) fn column_def_auto_increment(c: &mut sea_query::ColumnDef)
    ensures
        column_def_model(*final(c)) == (ColumnDefModel {
            auto_increment: true,
            ..column_def_model(*old(c))
        }),
{
    c.auto_increment();
}

/// `sea_query::ColumnDef::extra`: sets the extra text and leaves the rest.
#[verifier::external_body]
pub(crate) fn column_def_extra(c: &mut sea_query::ColumnDef, text: &str)
    ensures
        column_def_model(*final(c)) == (ColumnDefModel {
            extra: Some(text@),
            ..column_def_model(*old(c))
        }),
{
    c.extra(text);
}

/// `sea_query::Table::create`: a statement with no table name, no column
/// and no option.
#[verifier::external_body]
pub(crate) fn table_create_new() -> (t: sea_query::TableCreateStatement)
    ensures
        table_create_model(t) == (TableCreateModel {
            table: None,
            columns: Seq::empty(),
            options: Seq::empty(),
        }),
{
    sea_query::Table::create()
}

/// `sea_query::TableCreateStatement::table` with an `Alias`: sets the
/// table name and leaves the rest.
#[verifier::external_body]
pub(crate) fn table_create_table(t: &mut sea_query::TableCreateStatement, name: &str)
    ensures
        table_create_model(*final(t)) == (TableCreateModel {
            table: Some(name@),
            ..table_create_model(*old(t))
        }),
{
    t.table(sea_query::Alias::new(name));
}

/// `sea_query::TableCreateStatement::col`: puts the column behind the
/// columns that are there and leaves the rest.
#[verifier::external_body]
pub(crate) fn table_create_col(t: &mut sea_query::TableCreateStatement, c: sea_query::ColumnDef)
    ensures
        table_create_model(*final(t)) == (TableCreateModel {
            columns: table_create_model(*old(t)).columns.push(column_def_model(c)),
            ..table_create_model(*old(t))
        }),
{
    t.col(c);
}

/// `sea_query::TableCreateStatement::engine`: puts the engine option
/// behind the options that are there and leaves the rest.
#[verifier::external_body]
pub(crate) fn table_create_engine(t: &mut sea_query::TableCreateStatement, name: &str)
    ensures
        table_create_model(*final(t)) == (TableCreateModel {
            options: table_create_model(*old(t)).options.push(TableOptionModel::Engine(name@)),
            ..table_create_model(*old(t))
        }),
{
    t.engine(name);
}

/// `sea_query::TableCreateStatement::character_set`: puts the character
/// set option behind the options that are there and leaves the rest.
#[verifier::external_body]
pub(crate) fn table_create_character_set(t: &mut sea_query::TableCreateStatement, name: &str)
    ensures
        table_create_model(*final(t)) == (TableCreateModel {
            options: table_create_model(*old(t)).options.push(
                TableOptionModel::CharacterSet(name@),
            ),
            ..table_create_model(*old(t))
        }),
{
    t.character_set(name);
}

/// `sea_query::TableCreateStatement::collate`: puts the collation option
/// behind the options that are there and leaves the rest.
#[verifier::external_body]
pub(crate) fn table_create_collate(t: &mut sea_query::TableCreateStatement, name: &str)
    ensures
        table_create_model(*final(t)) == (TableCreateModel {
            options: table_create_model(*old(t)).options.push(TableOptionModel::Collate(name@)),
            ..table_create_model(*old(t))
        }),
{
    t.collate(name);
}

} // verus!
