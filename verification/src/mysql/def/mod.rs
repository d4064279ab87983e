//! The schema model of MySQL.

pub mod column;
pub mod constraint;
pub mod foreign_key;
pub mod index;
pub mod schema;
pub mod table;
pub mod types;

pub use crate::foreign_key::ForeignKeyAction;
pub use column::{
    ColumnDefault, ColumnExtra, ColumnFields, ColumnInfo, ColumnInfoView, ColumnKey, ColumnType,
};
pub use constraint::{KeyColumnUsage, ReferentialConstraints};
pub use foreign_key::{ForeignKeyInfo, ForeignKeyInfoView};
pub use index::{IndexInfo, IndexInfoView, IndexOrder, IndexType};
pub use schema::{Schema, TableDef};
pub use table::{CharSet, Collation, StorageEngine, SystemInfo, TableInfo};
pub use types::{
    class_of, AttrClass, NumericAttr, StringAttr, StringAttrView, TimeAttr, Type, TypeName,
    TypeView,
};
