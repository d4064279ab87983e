//! Writing of the schema model as table definition statements.

pub mod column;
pub mod foreign_key;
pub mod index;
pub mod table;
pub mod types;
