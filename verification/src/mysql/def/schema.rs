//! A schema and its tables.

use vstd::prelude::*;
use crate::mysql::def::column::ColumnInfo;
use crate::mysql::def::foreign_key::ForeignKeyInfo;
use crate::mysql::def::index::IndexInfo;
use crate::mysql::def::table::{SystemInfo, TableInfo};

verus! {

/// A schema: the server it was read from and its tables.
#[derive(Clone, Debug, PartialEq)]
pub struct Schema {
    pub system: SystemInfo,
    pub tables: Vec<TableDef>,
}

/// A table: its columns in their order, its indexes and its foreign keys.
#[derive(Clone, Debug, PartialEq)]
pub struct TableDef {
    pub info: TableInfo,
    pub columns: Vec<ColumnInfo>,
    pub indexes: Vec<IndexInfo>,
    pub foreign_keys: Vec<ForeignKeyInfo>,
}

} // verus!
