//! The errors that decoding and grouping of catalog rows can report.

use vstd::prelude::*;

verus! {

/// The catalog field whose value could not be decoded.
#[derive(Clone, Copy, Debug, PartialEq, Eq, Structural)]
pub enum CatalogField {
    /// The uniqueness flag of an index row; it must be `0` or `1`.
    NonUnique,
    /// The indexed entity of an index row: exactly one of the column name
    /// and the expression must be present.
    IndexedEntity,
    /// The collation of an index row, read as its sort order.
    Collation,
    /// The prefix length of an index row; it must not be negative.
    SubPart,
    /// The index method of an index row.
    IndexType,
    /// The nullability flag of a column row.
    IsNullable,
    /// The key class of a column row.
    ColumnKey,
    /// A referential action of a foreign key row.
    ReferentialAction,
    /// The name of a storage engine.
    StorageEngine,
    /// The name of a character set.
    CharacterSet,
    /// The name of a collation.
    CollationName,
    /// The position of a column within its constraint.
    OrdinalPosition,
}

/// Why a row, or a group of rows, was refused.
#[derive(Clone, Copy, Debug, PartialEq, Eq, Structural)]
pub enum SchemaError {
    /// A catalog sentinel has a value outside its closed set.
    MalformedSentinel(CatalogField),
    /// The input of a consolidation was not sorted by its grouping key: a
    /// key came back after another key had been seen.
    StructuralViolation,
    /// A function was handed a value that its caller must never pass.
    InternalContractViolation,
}

/// An error together with the position of the row that caused it.
#[derive(Clone, Copy, Debug, PartialEq, Eq, Structural)]
pub struct RowError {
    /// Position of the offending row in the input, counted from zero.
    pub row: usize,
    /// What was wrong with it.
    pub error: SchemaError,
}

} // verus!
