//! Rows of the constraint catalogs.

pub mod table_constraints;
pub mod unique;

pub use table_constraints::{TableConstraintQueryResult, TableConstraintsField};
pub use unique::{UniqueQueryResult, UniqueRow};
