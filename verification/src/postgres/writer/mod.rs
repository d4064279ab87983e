//! Writing of constraints as statements.

pub mod constraints;
