//! Decoding of the rows of PostgreSQL's `information_schema`.

pub mod column;
pub mod constraints;
pub mod sentinel;

pub use column::{
    parse_column_query_reulst, parse_column_type, parse_numeric_attributes, parse_type_name,
    parse_unique_query_result_vecs,
};
pub use constraints::parse_unique_query_results;
pub use sentinel::yes_or_no_to_bool;
