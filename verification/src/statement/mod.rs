//! The statements of the query builder, as far as the writers fill them.
//!
//! The statements are values of `sea_query`. Nothing of them is proved
//! here: each function of this module makes one call of the builder and
//! states, over a model of the statement, what the builder's source shows
//! the call to do.

pub mod foreign_key;
pub mod index;
pub mod schema;
pub mod select;
pub mod table;
