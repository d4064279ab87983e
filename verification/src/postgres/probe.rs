//! The tables of the current schema.

use vstd::prelude::*;
use crate::postgres::query::schema::{
    information_schema_name, tables_field_name, InformationSchema, TablesFields,
};
use crate::probe::SchemaProbe;
use crate::statement::select::{
    expr_custom, expr_model, select_column_as, select_from, select_model, select_new,
    select_where_equals, select_where_expr_equals_column, ExprModel, FilterModel, SelectModel,
    SelectedModel,
};

verus! {

/// The PostgreSQL dialect.
#[derive(Clone, Copy, Debug, PartialEq, Eq, Structural)]
pub struct Postgres;

/// The query for the names of the base tables of the current schema.
pub open spec fn tables_query() -> SelectModel {
    SelectModel {
        selected: seq![
            SelectedModel::ColumnAs(
                tables_field_name(TablesFields::TableName),
                tables_field_name(TablesFields::TableName),
            ),
        ],
        from: seq![
            (
                information_schema_name(InformationSchema::Schema),
                information_schema_name(InformationSchema::Tables),
            ),
        ],
        filters: seq![
            FilterModel::ExprEqualsColumn(
                ExprModel::Custom("CURRENT_SCHEMA()"@),
                information_schema_name(InformationSchema::Tables),
                tables_field_name(TablesFields::TableSchema),
            ),
            FilterModel::ColumnEquals(tables_field_name(TablesFields::TableType), "BASE TABLE"@),
        ],
        order: Seq::empty(),
        chained: false,
    }
}

impl SchemaProbe for Postgres {
    fn get_current_schema() -> (e: sea_query::Expr)
        ensures
            expr_model(e) == ExprModel::Custom("CURRENT_SCHEMA()"@),
    {
        expr_custom("CURRENT_SCHEMA()")
    }

    fn query_tables() -> (q: sea_query::SelectStatement)
        ensures
            select_model(q) == tables_query(),
    {
        let mut q = select_new();
        select_column_as(&mut q, TablesFields::TableName.name(), TablesFields::TableName.name());
        select_from(&mut q, InformationSchema::Schema.name(), InformationSchema::Tables.name());
        select_where_expr_equals_column(
            &mut q,
            Self::get_current_schema(),
            InformationSchema::Tables.name(),
            TablesFields::TableSchema.name(),
        );
        select_where_equals(&mut q, TablesFields::TableType.name(), "BASE TABLE");
        assert(select_model(q).selected =~= tables_query().selected);
        assert(select_model(q).from =~= tables_query().from);
        assert(select_model(q).filters =~= tables_query().filters);
        q
    }
}

} // verus!
