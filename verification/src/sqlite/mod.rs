//! The SQLite dialect.

pub mod def;
