//! The MySQL dialect.

pub mod def;
pub mod parser;
pub mod query;
pub mod roundtrip;
pub mod writer;
