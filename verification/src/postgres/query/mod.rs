//! The catalog queries of PostgreSQL and the rows they return.

pub mod column;
pub mod constraints;
pub mod schema;

pub use column::{ColumnQueryResult, ColumnRow};
pub use schema::{InformationSchema, SchemaQueryBuilder, TablesFields};
