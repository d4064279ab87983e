//! Rows of `information_schema.table_constraints`.

use vstd::prelude::*;
use crate::postgres::query::schema::{
    information_schema_name, InformationSchema, SchemaQueryBuilder,
};
use crate::statement::select::{
    select_column, select_from, select_model, select_new, select_where_equals, FilterModel,
    SelectModel, SelectedModel,
};

verus! {

/// The fields of `information_schema.table_constraints`.
///
/// Ref: https://www.postgresql.org/docs/13/infoschema-table-constraints.html
#[derive(Clone, Copy, Debug, PartialEq, Eq, Structural)]
pub enum TableConstraintsField {
    ConstriantSchema,
    ConstraintName,
    TableSchema,
    TableName,
    ConstraintType,
    IsDeferrable,
    InitiallyDeferred,
}

/// The name of a field in the catalog.
pub open spec fn table_constraints_field_name(f: TableConstraintsField) -> Seq<char> {
    match f {
        TableConstraintsField::ConstriantSchema => "constriant_schema"@,
        TableConstraintsField::ConstraintName => "constraint_name"@,
        TableConstraintsField::TableSchema => "table_schema"@,
        TableConstraintsField::TableName => "table_name"@,
        TableConstraintsField::ConstraintType => "constraint_type"@,
        TableConstraintsField::IsDeferrable => "is_deferrable"@,
        TableConstraintsField::InitiallyDeferred => "initially_deferred"@,
    }
}

impl TableConstraintsField {
    /// The name of this field in the catalog.
    pub fn name(&self) -> (r: &'static str)
        ensures
            r@ == table_constraints_field_name(*self),
    {
        match self {
            TableConstraintsField::ConstriantSchema => "constriant_schema",
            TableConstraintsField::ConstraintName => "constraint_name",
            TableConstraintsField::TableSchema => "table_schema",
            TableConstraintsField::TableName => "table_name",
            TableConstraintsField::ConstraintType => "constraint_type",
            TableConstraintsField::IsDeferrable => "is_deferrable",
            TableConstraintsField::InitiallyDeferred => "initially_deferred",
        }
    }
}

/// One row of the catalog of table constraints.
#[derive(Clone, Debug, Default, PartialEq)]
pub struct TableConstraintQueryResult {
    pub constraint_schema: String,
    pub constraint_name: Option<String>,
    pub constraint_type: String,
    pub is_deferrable: String,
    pub initially_deferred: String,
}

/// The query for the constraints of a table: the fields of the rows, from
/// the catalog of table constraints, for the schema and the table.
pub open spec fn constraints_query(schema: Seq<char>, table: Seq<char>) -> SelectModel {
    SelectModel {
        selected: seq![
            SelectedModel::Column(
                table_constraints_field_name(TableConstraintsField::ConstriantSchema),
            ),
            SelectedModel::Column(
                table_constraints_field_name(TableConstraintsField::ConstraintName),
            ),
            SelectedModel::Column(
                table_constraints_field_name(TableConstraintsField::ConstraintType),
            ),
            SelectedModel::Column(
                table_constraints_field_name(TableConstraintsField::IsDeferrable),
            ),
            SelectedModel::Column(
                table_constraints_field_name(TableConstraintsField::InitiallyDeferred),
            ),
        ],
        from: seq![
            (
                information_schema_name(InformationSchema::Schema),
                information_schema_name(InformationSchema::TableConstraints),
            ),
        ],
        filters: seq![
            FilterModel::ColumnEquals(
                table_constraints_field_name(TableConstraintsField::TableSchema),
                schema,
            ),
            FilterModel::ColumnEquals(
                table_constraints_field_name(TableConstraintsField::TableName),
                table,
            ),
        ],
        order: Seq::empty(),
        chained: false,
    }
}

impl SchemaQueryBuilder {
    /// The query for the constraints of a table.
    pub fn query_constriants(schema: &str, table: &str) -> (q: sea_query::SelectStatement)
        ensures
            select_model(q) == constraints_query(schema@, table@),
    {
        let mut q = select_new();
        select_column(&mut q, TableConstraintsField::ConstriantSchema.name());
        select_column(&mut q, TableConstraintsField::ConstraintName.name());
        select_column(&mut q, TableConstraintsField::ConstraintType.name());
        select_column(&mut q, TableConstraintsField::IsDeferrable.name());
        select_column(&mut q, TableConstraintsField::InitiallyDeferred.name());
        select_from(
            &mut q,
            InformationSchema::Schema.name(),
            InformationSchema::TableConstraints.name(),
        );
        select_where_equals(&mut q, TableConstraintsField::TableSchema.name(), schema);
        select_where_equals(&mut q, TableConstraintsField::TableName.name(), table);
        assert(select_model(q).selected =~= constraints_query(schema@, table@).selected);
        assert(select_model(q).from =~= constraints_query(schema@, table@).from);
        assert(select_model(q).filters =~= constraints_query(schema@, table@).filters);
        q
    }
}

} // verus!
