//! The catalog fields that describe keys and referential constraints.

use vstd::prelude::*;

verus! {

/// The fields of `information_schema.key_column_usage`.
///
/// Ref: https://dev.mysql.com/doc/refman/8.0/en/information-schema-key-column-usage-table.html
#[derive(Clone, Copy, Debug, PartialEq, Eq, Structural)]
pub enum KeyColumnUsage {
    ConstraintSchema,
    ConstraintName,
    TableSchema,
    TableName,
    ColumnName,
    OrdinalPosition,
    PositionInUniqueConstraint,
    ReferencedTableSchema,
    ReferencedTableName,
    ReferencedColumnName,
}

/// The name of a field in the catalog.
pub open spec fn key_column_usage_name(f: KeyColumnUsage) -> Seq<char> {
    match f {
        KeyColumnUsage::ConstraintSchema => "constraint_schema"@,
        KeyColumnUsage::ConstraintName => "constraint_name"@,
        KeyColumnUsage::TableSchema => "table_schema"@,
        KeyColumnUsage::TableName => "table_name"@,
        KeyColumnUsage::ColumnName => "column_name"@,
        KeyColumnUsage::OrdinalPosition => "ordinal_position"@,
        KeyColumnUsage::PositionInUniqueConstraint => "position_in_unique_constraint"@,
        KeyColumnUsage::ReferencedTableSchema => "referenced_table_schema"@,
        KeyColumnUsage::ReferencedTableName => "referenced_table_name"@,
        KeyColumnUsage::ReferencedColumnName => "referenced_column_name"@,
    }
}

impl KeyColumnUsage {
    /// The name of this field in the catalog.
    pub fn name(&self) -> (r: &'static str)
        ensures
            r@ == key_column_usage_name(*self),
    {
        match self {
            KeyColumnUsage::ConstraintSchema => "constraint_schema",
            KeyColumnUsage::ConstraintName => "constraint_name",
            KeyColumnUsage::TableSchema => "table_schema",
            KeyColumnUsage::TableName => "table_name",
            KeyColumnUsage::ColumnName => "column_name",
            KeyColumnUsage::OrdinalPosition => "ordinal_position",
            KeyColumnUsage::PositionInUniqueConstraint => "position_in_unique_constraint",
            KeyColumnUsage::ReferencedTableSchema => "referenced_table_schema",
            KeyColumnUsage::ReferencedTableName => "referenced_table_name",
            KeyColumnUsage::ReferencedColumnName => "referenced_column_name",
        }
    }
}

/// The fields of `information_schema.referential_constraints`.
///
/// Ref: https://dev.mysql.com/doc/refman/8.0/en/information-schema-referential-constraints-table.html
#[derive(Clone, Copy, Debug, PartialEq, Eq, Structural)]
pub enum ReferentialConstraints {
    ConstraintSchema,
    ConstraintName,
    UniqueConstraintSchema,
    UniqueConstraintName,
    UpdateRule,
    DeleteRule,
    TableName,
    ReferencedTableName,
}

/// The name of a field in the catalog.
pub open spec fn referential_constraints_name(f: ReferentialConstraints) -> Seq<char> {
    match f {
        ReferentialConstraints::ConstraintSchema => "constraint_schema"@,
        ReferentialConstraints::ConstraintName => "constraint_name"@,
        ReferentialConstraints::UniqueConstraintSchema => "unique_constraint_schema"@,
        ReferentialConstraints::UniqueConstraintName => "unique_constraint_name"@,
        ReferentialConstraints::UpdateRule => "update_rule"@,
        ReferentialConstraints::DeleteRule => "delete_rule"@,
        ReferentialConstraints::TableName => "table_name"@,
        ReferentialConstraints::ReferencedTableName => "referenced_table_name"@,
    }
}

impl ReferentialConstraints {
    /// The name of this field in the catalog.
    pub fn name(&self) -> (r: &'static str)
        ensures
            r@ == referential_constraints_name(*self),
    {
        match self {
            ReferentialConstraints::ConstraintSchema => "constraint_schema",
            ReferentialConstraints::ConstraintName => "constraint_name",
            ReferentialConstraints::UniqueConstraintSchema => "unique_constraint_schema",
            ReferentialConstraints::UniqueConstraintName => "unique_constraint_name",
            ReferentialConstraints::UpdateRule => "update_rule",
            ReferentialConstraints::DeleteRule => "delete_rule",
            ReferentialConstraints::TableName => "table_name",
            ReferentialConstraints::ReferencedTableName => "referenced_table_name",
        }
    }
}

} // verus!
