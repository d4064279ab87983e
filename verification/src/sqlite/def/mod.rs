//! The schema model of SQLite.

pub mod column;
pub mod index;
pub mod types;

pub use crate::foreign_key::ForeignKeyAction;
pub use column::{
    ColumnInfo, ForeignKeysInfo, IndexInfo, MatchAction, PartialIndexInfo,
    PrimaryKeyAutoincrement,
};
pub use index::{parse_indexed_columns, IndexedColumns};
pub use types::{DefaultType, DefaultTypeView, Type, TypeView};
