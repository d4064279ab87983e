//! The catalog queries of MySQL and the rows they return.

pub mod column;
pub mod constraint;
pub mod index;
pub mod schema;

pub use column::{ColumnQueryResult, ColumnRow};
pub use index::{IndexQueryResult, IndexRow};
pub use schema::{InformationSchema, SchemaQuery};
pub use constraint::{ForeignKeyQueryResult, ForeignKeyRow};
