//! Discovery of relational database schemas from catalog rows.
//!
//! Catalog rows of MySQL, PostgreSQL and SQLite are decoded into one schema
//! model, grouped into composite entities, and written back as table
//! definition statements.

pub mod consolidate;
pub mod error;
pub mod foreign_key;
pub mod mysql;
pub mod postgres;
pub mod probe;
pub mod sqlite;
pub mod statement;
pub mod text;
