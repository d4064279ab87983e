//! What every dialect can be asked about the database it is connected to.

use vstd::prelude::*;

verus! {

/// The questions that find the tables of the current schema.
pub trait SchemaProbe {
    /// The expression that gives the name of the current schema.
    fn get_current_schema() -> sea_query::Expr;

    /// The query for the names of the tables of the current schema.
    fn query_tables() -> sea_query::SelectStatement;
}

} // verus!
