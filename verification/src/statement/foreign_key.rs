//! Statements that create a foreign key.

use vstd::prelude::*;
use crate::foreign_key::ForeignKeyAction;

verus! {

/// `sea_query::ForeignKeyCreateStatement`, a foreign key statement of the
/// builder; nothing is known of it but what the functions below state of
/// its model.
#[verifier::external_type_specification]
#[verifier::external_body]
pub struct ExForeignKeyCreateStatement(sea_query::ForeignKeyCreateStatement);

/// What the writers put into a statement that creates a foreign key.
pub struct ForeignKeyCreateModel {
    /// The name of the foreign key.
    pub name: Option<Seq<char>>,
    /// The name of the referring table.
    pub table: Option<Seq<char>>,
    /// The name of the table referred to.
    pub ref_table: Option<Seq<char>>,
    /// The names of the referring columns, in their order.
    pub columns: Seq<Seq<char>>,
    /// The names of the columns referred to, in their order.
    pub ref_columns: Seq<Seq<char>>,
    /// What happens on update.
    pub on_update: Option<ForeignKeyAction>,
    /// What happens on delete.
    pub on_delete: Option<ForeignKeyAction>,
}

/// The name, the tables and columns on both sides and the actions that a
/// `sea_query::ForeignKeyCreateStatement` holds.
pub uninterp spec fn foreign_key_create_model(
    s: sea_query::ForeignKeyCreateStatement,
) -> ForeignKeyCreateModel;

/// `sea_query::ForeignKey::create`: a statement with no name, no table, no
/// column and no action.
#[verifier::external_body]
pub(crate) fn foreign_key_create_new() -> (s: sea_query::ForeignKeyCreateStatement)
    ensures
        foreign_key_create_model(s) == (ForeignKeyCreateModel {
            name: None,
            table: None,
            ref_table: None,
            columns: Seq::empty(),
            ref_columns: Seq::empty(),
            on_update: None,
            on_delete: None,
        }),
{
    sea_query::ForeignKey::create()
}

/// `sea_query::ForeignKeyCreateStatement::name`: sets the name of the
/// foreign key and leaves the rest.
#[verifier::external_body]
pub(crate) fn foreign_key_name(s: &mut sea_query::ForeignKeyCreateStatement, name: &str)
    ensures
        foreign_key_create_model(*final(s)) == (ForeignKeyCreateModel {
            name: Some(name@),
            ..foreign_key_create_model(*old(s))
        }),
{
    s.name(name);
}

/// `sea_query::ForeignKeyCreateStatement::from_tbl` with an `Alias`: sets
/// the referring table and leaves the rest.
#[verifier::external_body]
pub(crate) fn foreign_key_from_tbl(s: &mut sea_query::ForeignKeyCreateStatement, table: &str)
    ensures
        foreign_key_create_model(*final(s)) == (ForeignKeyCreateModel {
            table: Some(table@),
            ..foreign_key_create_model(*old(s))
        }),
{
    s.from_tbl(sea_query::Alias::new(table));
}

/// `sea_query::ForeignKeyCreateStatement::to_tbl` with an `Alias`: sets
/// the table referred to and leaves the rest.
#[verifier::external_body]
pub(crate) fn foreign_key_to_tbl(s: &mut sea_query::ForeignKeyCreateStatement, table: &str)
    ensures
        foreign_key_create_model(*final(s)) == (ForeignKeyCreateModel {
            ref_table: Some(table@),
            ..foreign_key_create_model(*old(s))
        }),
{
    s.to_tbl(sea_query::Alias::new(table));
}

/// `sea_query::ForeignKeyCreateStatement::from_col` with an `Alias`: puts
/// the column behind the referring columns and leaves the rest.
#[verifier::external_body]
pub(crate) fn foreign_key_from_col(s: &mut sea_query::ForeignKeyCreateStatement, column: &str)
    ensures
        foreign_key_create_model(*final(s)) == (ForeignKeyCreateModel {
            columns: foreign_key_create_model(*old(s)).columns.push(column@),
            ..foreign_key_create_model(*old(s))
        }),
{
    s.from_col(sea_query::Alias::new(column));
}

/// `sea_query::ForeignKeyCreateStatement::to_col` with an `Alias`: puts
/// the column behind the columns referred to and leaves the rest.
#[verifier::external_body]
pub(crate) fn foreign_key_to_col(s: &mut sea_query::ForeignKeyCreateStatement, column: &str)
    ensures
        foreign_key_create_model(*final(s)) == (ForeignKeyCreateModel {
            ref_columns: foreign_key_create_model(*old(s)).ref_columns.push(column@),
            ..foreign_key_create_model(*old(s))
        }),
{
    s.to_col(sea_query::Alias::new(column));
}

/// `sea_query::ForeignKeyCreateStatement::on_update` with the variant of
/// `sea_query::ForeignKeyAction` of the same name: sets the action on
/// update and leaves the rest.
#[verifier::external_body]
pub(crate) fn foreign_key_on_update(
    s: &mut sea_query::ForeignKeyCreateStatement,
    action: ForeignKeyAction,
)
    ensures
        foreign_key_create_model(*final(s)) == (ForeignKeyCreateModel {
            on_update: Some(action),
            ..foreign_key_create_model(*old(s))
        }),
{
    s.on_update(
        match action {
            ForeignKeyAction::NoAction => sea_query::ForeignKeyAction::NoAction,
            ForeignKeyAction::Restrict => sea_query::ForeignKeyAction::Restrict,
            ForeignKeyAction::SetNull => sea_query::ForeignKeyAction::SetNull,
            ForeignKeyAction::SetDefault => sea_query::ForeignKeyAction::SetDefault,
            ForeignKeyAction::Cascade => sea_query::ForeignKeyAction::Cascade,
        },
    );
}

/// `sea_query::ForeignKeyCreateStatement::on_delete` with the variant of
/// `sea_query::ForeignKeyAction` of the same name: sets the action on
/// delete and leaves the rest.
#[verifier::external_body]
pub(crate) fn foreign_key_on_delete(
    s: &mut sea_query::ForeignKeyCreateStatement,
    action: ForeignKeyAction,
)
    ensures
        foreign_key_create_model(*final(s)) == (ForeignKeyCreateModel {
            on_delete: Some(action),
            ..foreign_key_create_model(*old(s))
        }),
{
    s.on_delete(
        match action {
            ForeignKeyAction::NoAction => sea_query::ForeignKeyAction::NoAction,
            ForeignKeyAction::Restrict => sea_query::ForeignKeyAction::Restrict,
            ForeignKeyAction::SetNull => sea_query::ForeignKeyAction::SetNull,
            ForeignKeyAction::SetDefault => sea_query::ForeignKeyAction::SetDefault,
            ForeignKeyAction::Cascade => sea_query::ForeignKeyAction::Cascade,
        },
    );
}

} // verus!
