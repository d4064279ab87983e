//! Decoding of the rows of MySQL's `information_schema`.

pub mod column;
pub mod constraint;
pub mod index;
pub mod table;

pub use index::{parse_index_query_result, parse_index_query_results, IndexQueryResultParser};
pub use column::{
    parse_column_extra, parse_column_query_result, parse_column_type, parse_type_name,
};
pub use constraint::{parse_foreign_key_query_result, parse_foreign_key_query_results};
pub use table::{parse_table_def, RowSource, TableError};
