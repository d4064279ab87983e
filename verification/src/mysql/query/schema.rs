//! The names of the catalog.

use vstd::prelude::*;

verus! {

/// The catalog schema and its views.
#[derive(Clone, Copy, Debug, PartialEq, Eq, Structural)]
pub enum InformationSchema {
    Schema,
    Columns,
    Statistics,
    KeyColumnUsage,
    ReferentialConstraints,
    Tables,
}

/// The name of the catalog schema or of one of its views.
pub open spec fn information_schema_name(i: InformationSchema) -> Seq<char> {
    match i {
        InformationSchema::Schema => "information_schema"@,
        InformationSchema::Columns => "columns"@,
        InformationSchema::Statistics => "statistics"@,
        InformationSchema::KeyColumnUsage => "key_column_usage"@,
        InformationSchema::ReferentialConstraints => "referential_constraints"@,
        InformationSchema::Tables => "tables"@,
    }
}

impl InformationSchema {
    /// The name of the catalog schema or of this view.
    pub fn name(&self) -> (r: &'static str)
        ensures
            r@ == information_schema_name(*self),
    {
        match self {
            InformationSchema::Schema => "information_schema",
            InformationSchema::Columns => "columns",
            InformationSchema::Statistics => "statistics",
            InformationSchema::KeyColumnUsage => "key_column_usage",
            InformationSchema::ReferentialConstraints => "referential_constraints",
            InformationSchema::Tables => "tables",
        }
    }
}

/// The maker of the catalog queries.
#[derive(Clone, Copy, Debug, PartialEq, Eq, Structural)]
pub struct SchemaQuery;

} // verus!
