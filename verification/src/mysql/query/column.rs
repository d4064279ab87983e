//! Rows of `information_schema.columns`.

use vstd::prelude::*;
use crate::mysql::def::column::{column_field_name, ColumnFields};
use crate::mysql::query::schema::{information_schema_name, InformationSchema, SchemaQuery};
use crate::statement::select::{
    select_column, select_from, select_model, select_new, select_order_by_asc,
    select_where_equals, FilterModel, SelectModel, SelectedModel,
};
use crate::text::opt_view;

verus! {

/// One row of the column catalog: one column of one table.
#[derive(Clone, Debug, Default, PartialEq)]
pub struct ColumnQueryResult {
    pub column_name: String,
    pub column_type: String,
    pub is_nullable: String,
    pub column_key: String,
    pub column_default: Option<String>,
    pub extra: String,
    pub generation_expression: Option<String>,
    pub column_comment: String,
}

/// The mathematical model of a [`ColumnQueryResult`].
pub struct ColumnRow {
    pub column_name: Seq<char>,
    pub column_type: Seq<char>,
    pub is_nullable: Seq<char>,
    pub column_key: Seq<char>,
    pub column_default: Option<Seq<char>>,
    pub extra: Seq<char>,
    pub generation_expression: Option<Seq<char>>,
    pub column_comment: Seq<char>,
}

impl View for ColumnQueryResult {
    type V = ColumnRow;

    open spec fn view(&self) -> ColumnRow {
        ColumnRow {
            column_name: self.column_name@,
            column_type: self.column_type@,
            is_nullable: self.is_nullable@,
            column_key: self.column_key@,
            column_default: opt_view(self.column_default),
            extra: self.extra@,
            generation_expression: opt_view(self.generation_expression),
            column_comment: self.column_comment@,
        }
    }
}

/// The query for the columns of a table: the fields of the rows, from the
/// catalog of columns, for the schema and the table, in the order of the
/// columns.
pub open spec fn columns_query(schema: Seq<char>, table: Seq<char>) -> SelectModel {
    SelectModel {
        selected: seq![
            SelectedModel::Column(column_field_name(ColumnFields::ColumnName)),
            SelectedModel::Column(column_field_name(ColumnFields::ColumnType)),
            SelectedModel::Column(column_field_name(ColumnFields::IsNullable)),
            SelectedModel::Column(column_field_name(ColumnFields::ColumnKey)),
            SelectedModel::Column(column_field_name(ColumnFields::ColumnDefault)),
            SelectedModel::Column(column_field_name(ColumnFields::Extra)),
            SelectedModel::Column(column_field_name(ColumnFields::GenerationExpression)),
            SelectedModel::Column(column_field_name(ColumnFields::ColumnComment)),
        ],
        from: seq![
            (
                information_schema_name(InformationSchema::Schema),
                information_schema_name(InformationSchema::Columns),
            ),
        ],
        filters: seq![
            FilterModel::ColumnEquals(column_field_name(ColumnFields::TableSchema), schema),
            FilterModel::ColumnEquals(column_field_name(ColumnFields::TableName), table),
        ],
        order: seq![column_field_name(ColumnFields::OrdinalPosition)],
        chained: false,
    }
}

impl SchemaQuery {
    /// The query for the columns of a table.
    pub fn query_columns(&self, schema: &str, table: &str) -> (q: sea_query::SelectStatement)
        ensures
            select_model(q) == columns_query(schema@, table@),
    {
        let mut q = select_new();
        select_column(&mut q, ColumnFields::ColumnName.name());
        select_column(&mut q, ColumnFields::ColumnType.name());
        select_column(&mut q, ColumnFields::IsNullable.name());
        select_column(&mut q, ColumnFields::ColumnKey.name());
        select_column(&mut q, ColumnFields::ColumnDefault.name());
        select_column(&mut q, ColumnFields::Extra.name());
        select_column(&mut q, ColumnFields::GenerationExpression.name());
        select_column(&mut q, ColumnFields::ColumnComment.name());
        select_from(&mut q, InformationSchema::Schema.name(), InformationSchema::Columns.name());
        select_where_equals(&mut q, ColumnFields::TableSchema.name(), schema);
        select_where_equals(&mut q, ColumnFields::TableName.name(), table);
        select_order_by_asc(&mut q, ColumnFields::OrdinalPosition.name());
        assert(select_model(q).selected =~= columns_query(schema@, table@).selected);
        assert(select_model(q).from =~= columns_query(schema@, table@).from);
        assert(select_model(q).filters =~= columns_query(schema@, table@).filters);
        assert(select_model(q).order =~= columns_query(schema@, table@).order);
        q
    }
}

} // verus!
