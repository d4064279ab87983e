//! The schema model of PostgreSQL.

pub mod column;
pub mod constraints;
pub mod types;

pub use crate::foreign_key::ForeignKeyAction;
pub use column::{ColumnExpression, ColumnInfo, ColumnInfoView, ColumnType};
pub use constraints::{
    Check, Constraint, Exclusion, NotNull, PrimaryKey, References, ReferencesView, Unique,
};
pub use types::{ArbitraryPrecisionNumericAttr, Type, TypeView};
