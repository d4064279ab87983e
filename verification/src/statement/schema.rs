//! Schema statements: the statements that a table is written as.

use vstd::prelude::*;
use crate::statement::foreign_key::{foreign_key_create_model, ForeignKeyCreateModel};
use crate::statement::index::{index_create_model, IndexCreateModel};
use crate::statement::table::{table_create_model, TableCreateModel};

verus! {

/// `sea_query::SchemaStatement`, any schema statement of the builder;
/// nothing is known of it but what the functions below state of its model.
#[verifier::external_type_specification]
#[verifier::external_body]
pub struct ExSchemaStatement(sea_query::SchemaStatement);

/// What a schema statement holds.
pub enum SchemaStatementModel {
    /// A `CREATE TABLE` statement.
    CreateTable(TableCreateModel),
    /// A `CREATE INDEX` statement.
    CreateIndex(IndexCreateModel),
    /// A statement that creates a foreign key.
    CreateForeignKey(ForeignKeyCreateModel),
    /// Any other statement.
    Other,
}

/// What a `sea_query::SchemaStatement` holds.
pub uninterp spec fn schema_statement_model(s: sea_query::SchemaStatement) -> SchemaStatementModel;

/// What each of a sequence of schema statements holds.
pub open spec fn schema_statement_models(s: Seq<sea_query::SchemaStatement>) -> Seq<
    SchemaStatementModel,
> {
    Seq::new(s.len(), |i: int| schema_statement_model(s[i]))
}

/// The variant `sea_query::SchemaStatement::TableStatement` around
/// `sea_query::TableStatement::Create`: a schema statement that holds the
/// given `CREATE TABLE` statement.
#[verifier::external_body]
pub(crate) fn schema_statement_create_table(t: sea_query::TableCreateStatement) -> (s:
    sea_query::SchemaStatement)
    ensures
        schema_statement_model(s) == SchemaStatementModel::CreateTable(table_create_model(t)),
{
    sea_query::SchemaStatement::TableStatement(sea_query::TableStatement::Create(t))
}

/// The variant `sea_query::SchemaStatement::IndexStatement` around
/// `sea_query::IndexStatement::Create`: a schema statement that holds the
/// given `CREATE INDEX` statement.
#[verifier::external_body]
pub(crate) fn schema_statement_create_index(i: sea_query::IndexCreateStatement) -> (s:
    sea_query::SchemaStatement)
    ensures
        schema_statement_model(s) == SchemaStatementModel::CreateIndex(index_create_model(i)),
{
    sea_query::SchemaStatement::IndexStatement(sea_query::IndexStatement::Create(i))
}

/// The variant `sea_query::SchemaStatement::ForeignKeyStatement` around
/// `sea_query::ForeignKeyStatement::Create`: a schema statement that holds
/// the given foreign key statement.
#[verifier::external_body]
pub(crate) fn schema_statement_create_foreign_key(k: sea_query::ForeignKeyCreateStatement) -> (s:
    sea_query::SchemaStatement)
    ensures
        schema_statement_model(s) == SchemaStatementModel::CreateForeignKey(
            foreign_key_create_model(k),
        ),
{
    sea_query::SchemaStatement::ForeignKeyStatement(sea_query::ForeignKeyStatement::Create(k))
}

} // verus!
