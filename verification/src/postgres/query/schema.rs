//! The names of the catalog.

use vstd::prelude::*;

verus! {

/// The catalog schema and its views.
#[derive(Clone, Copy, Debug, PartialEq, Eq, Structural)]
pub enum InformationSchema {
    Schema,
    Columns,
    KeyColumnUsage,
    TableConstraints,
    Tables,
}

/// The name of the catalog schema or of one of its views.
pub open spec fn information_schema_name(i: InformationSchema) -> Seq<char> {
    match i {
        InformationSchema::Schema => "information_schema"@,
        InformationSchema::Columns => "columns"@,
        InformationSchema::KeyColumnUsage => "key_column_usage"@,
        InformationSchema::TableConstraints => "table_constraints"@,
        InformationSchema::Tables => "tables"@,
    }
}

impl InformationSchema {
    /// The name of the catalog schema or of this view.
    pub fn name(&self) -> (r: &'static str)
        ensures
            r@ == information_schema_name(*self),
    {
        match self {
            InformationSchema::Schema => "information_schema",
            InformationSchema::Columns => "columns",
            InformationSchema::KeyColumnUsage => "key_column_usage",
            InformationSchema::TableConstraints => "table_constraints",
            InformationSchema::Tables => "tables",
        }
    }
}

/// The fields of `information_schema.tables`.
#[derive(Clone, Copy, Debug, PartialEq, Eq, Structural)]
pub enum TablesFields {
    TableCatalog,
    TableSchema,
    TableName,
    TableType,
}

/// The name of a field in the catalog.
pub open spec fn tables_field_name(f: TablesFields) -> Seq<char> {
    match f {
        TablesFields::TableCatalog => "table_catalog"@,
        TablesFields::TableSchema => "table_schema"@,
        TablesFields::TableName => "table_name"@,
        TablesFields::TableType => "table_type"@,
    }
}

impl TablesFields {
    /// The name of this field in the catalog.
    pub fn name(&self) -> (r: &'static str)
        ensures
            r@ == tables_field_name(*self),
    {
        match self {
            TablesFields::TableCatalog => "table_catalog",
            TablesFields::TableSchema => "table_schema",
            TablesFields::TableName => "table_name",
            TablesFields::TableType => "table_type",
        }
    }
}

/// The maker of the catalog queries.
#[derive(Clone, Copy, Debug, PartialEq, Eq, Structural)]
pub struct SchemaQueryBuilder;

} // verus!
