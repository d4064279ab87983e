//! Columns of a table.

use vstd::prelude::*;
use crate::mysql::def::types::{Type, TypeView};
use crate::text::opt_view;

verus! {

/// The fields of `information_schema.columns`.
///
/// Ref: https://dev.mysql.com/doc/refman/8.0/en/information-schema-columns-table.html
#[derive(Clone, Copy, Debug, PartialEq, Eq, Structural)]
pub enum ColumnFields {
    TableCatalog,
    TableSchema,
    TableName,
    ColumnName,
    OrdinalPosition,
    ColumnDefault,
    IsNullable,
    DataType,
    CharacterMaximumLength,
    CharacterOctetLength,
    NumericPrecision,
    NumericScale,
    DatetimePrecision,
    CharacterSetName,
    CollationName,
    ColumnType,
    ColumnKey,
    Extra,
    Privileges,
    ColumnComment,
    GenerationExpression,
    SrsId,
}

/// The name of a field in the catalog.
pub open spec fn column_field_name(f: ColumnFields) -> Seq<char> {
    match f {
        ColumnFields::TableCatalog => "table_catalog"@,
        ColumnFields::TableSchema => "table_schema"@,
        ColumnFields::TableName => "table_name"@,
        ColumnFields::ColumnName => "column_name"@,
        ColumnFields::OrdinalPosition => "ordinal_position"@,
        ColumnFields::ColumnDefault => "column_default"@,
        ColumnFields::IsNullable => "is_nullable"@,
        ColumnFields::DataType => "data_type"@,
        ColumnFields::CharacterMaximumLength => "character_maximum_length"@,
        ColumnFields::CharacterOctetLength => "character_octet_length"@,
        ColumnFields::NumericPrecision => "numeric_precision"@,
        ColumnFields::NumericScale => "numeric_scale"@,
        ColumnFields::DatetimePrecision => "datetime_precision"@,
        ColumnFields::CharacterSetName => "character_set_name"@,
        ColumnFields::CollationName => "collation_name"@,
        ColumnFields::ColumnType => "column_type"@,
        ColumnFields::ColumnKey => "column_key"@,
        ColumnFields::Extra => "extra"@,
        ColumnFields::Privileges => "privileges"@,
        ColumnFields::ColumnComment => "column_comment"@,
        ColumnFields::GenerationExpression => "generation_expression"@,
        ColumnFields::SrsId => "srs_id"@,
    }
}

impl ColumnFields {
    /// The name of this field in the catalog.
    pub fn name(&self) -> (r: &'static str)
        ensures
            r@ == column_field_name(*self),
    {
        match self {
            ColumnFields::TableCatalog => "table_catalog",
            ColumnFields::TableSchema => "table_schema",
            ColumnFields::TableName => "table_name",
            ColumnFields::ColumnName => "column_name",
            ColumnFields::OrdinalPosition => "ordinal_position",
            ColumnFields::ColumnDefault => "column_default",
            ColumnFields::IsNullable => "is_nullable",
            ColumnFields::DataType => "data_type",
            ColumnFields::CharacterMaximumLength => "character_maximum_length",
            ColumnFields::CharacterOctetLength => "character_octet_length",
            ColumnFields::NumericPrecision => "numeric_precision",
            ColumnFields::NumericScale => "numeric_scale",
            ColumnFields::DatetimePrecision => "datetime_precision",
            ColumnFields::CharacterSetName => "character_set_name",
            ColumnFields::CollationName => "collation_name",
            ColumnFields::ColumnType => "column_type",
            ColumnFields::ColumnKey => "column_key",
            ColumnFields::Extra => "extra",
            ColumnFields::Privileges => "privileges",
            ColumnFields::ColumnComment => "column_comment",
            ColumnFields::GenerationExpression => "generation_expression",
            ColumnFields::SrsId => "srs_id",
        }
    }
}

/// A column of a table.
#[derive(Clone, Debug, PartialEq)]
pub struct ColumnInfo {
    /// The name of the column
    pub name: String,
    /// The type of the column with additional definitions, e.g. precision, length
    pub col_type: ColumnType,
    /// Can this column contains null
    pub null: bool,
    /// Is this column indexed
    pub key: ColumnKey,
    /// Default value expression for this column, if any
    pub default: Option<ColumnDefault>,
    /// Extra definitions for this column, e.g. auto_increment
    pub extra: ColumnExtra,
    /// The generation expression if this is a generated column
    pub expression: Option<String>,
    /// User comments
    pub comment: String,
}

/// The type of a column.
pub type ColumnType = Type;

/// The mathematical model of a [`ColumnInfo`].
pub struct ColumnInfoView {
    pub name: Seq<char>,
    pub col_type: TypeView,
    pub null: bool,
    pub key: ColumnKey,
    pub default: Option<Seq<char>>,
    pub extra: ColumnExtra,
    pub expression: Option<Seq<char>>,
    pub comment: Seq<char>,
}

impl View for ColumnInfo {
    type V = ColumnInfoView;

    open spec fn view(&self) -> ColumnInfoView {
        ColumnInfoView {
            name: self.name@,
            col_type: self.col_type@,
            null: self.null,
            key: self.key,
            default: match self.default {
                Some(d) => Some(d.expr@),
                None => None,
            },
            extra: self.extra,
            expression: opt_view(self.expression),
            comment: self.comment@,
        }
    }
}

/// How a column takes part in the keys of its table.
#[derive(Clone, Copy, Debug, PartialEq, Eq, Structural)]
pub enum ColumnKey {
    /// This column is not the first column of any key
    NotKey,
    /// This column is part of the primary key
    Primary,
    /// This column is the first column of a unique key
    Unique,
    /// This column is the first column of a non-unique key
    Multiple,
}

/// The default value of a column.
#[derive(Clone, Debug, PartialEq, Eq)]
pub struct ColumnDefault {
    /// default value expression
    pub expr: String,
}

/// What the catalog says of a column beside its type.
#[derive(Clone, Copy, Debug, PartialEq, Eq, Structural)]
pub struct ColumnExtra {
    /// Auto increment
    pub auto_increment: bool,
    /// Only applies to timestamp or datetime
    pub on_update_current_timestamp: bool,
    /// This is a generated column
    pub generated: bool,
    /// This column has a default value expression
    pub default_generated: bool,
}

impl Default for ColumnExtra {
    fn default() -> (r: ColumnExtra)
        ensures
            r == (ColumnExtra {
                auto_increment: false,
                on_update_current_timestamp: false,
                generated: false,
                default_generated: false,
            }),
    {
        ColumnExtra {
            auto_increment: false,
            on_update_current_timestamp: false,
            generated: false,
            default_generated: false,
        }
    }
}

} // verus!
