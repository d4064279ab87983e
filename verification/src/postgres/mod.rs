//! The PostgreSQL dialect.

pub mod def;
pub mod parser;
pub mod probe;
pub mod query;
pub mod writer;

pub use probe::Postgres;
