//! Columns, indexes and foreign keys of a table.

use vstd::prelude::*;
use vstd::string::*;
use crate::error::{CatalogField, SchemaError};
use crate::foreign_key::{foreign_key_action_of, ForeignKeyAction};
use crate::sqlite::def::types::{default_of, type_of_text, DefaultType, DefaultTypeView, Type, TypeView};
use crate::statement::index::{
    index_create_col, index_create_model, index_create_name, index_create_new,
    index_create_table, index_create_unique, IndexCreateModel,
};
use crate::text::{str_eq, views};

verus! {

/// An SQLite column definition
#[derive(Clone, Debug, PartialEq)]
pub struct ColumnInfo {
    pub cid: i32,
    pub name: String,
    pub col_type: Type,
    pub not_null: bool,
    pub default_value: DefaultType,
    pub primary_key: bool,
}

/// The mathematical model of a [`ColumnInfo`].
pub struct ColumnInfoView {
    pub cid: i32,
    pub name: Seq<char>,
    pub col_type: TypeView,
    pub not_null: bool,
    pub default_value: DefaultTypeView,
    pub primary_key: bool,
}

impl View for ColumnInfo {
    type V = ColumnInfoView;

    open spec fn view(&self) -> ColumnInfoView {
        ColumnInfoView {
            cid: self.cid,
            name: self.name@,
            col_type: self.col_type@,
            not_null: self.not_null,
            default_value: self.default_value@,
            primary_key: self.primary_key,
        }
    }
}

/// What the fields of a row of `PRAGMA table_info` decode to. The
/// not-null flag must be `0` or `1`; the position in the primary key is
/// `0` for a column outside the key and must not be negative.
pub open spec fn column_of_fields(
    cid: i32,
    name: Seq<char>,
    type_text: Seq<char>,
    not_null: i8,
    default_value: Seq<char>,
    primary_key: i8,
) -> Result<ColumnInfoView, SchemaError> {
    if not_null != 0 && not_null != 1 {
        Err(SchemaError::MalformedSentinel(CatalogField::IsNullable))
    } else if primary_key < 0 {
        Err(SchemaError::MalformedSentinel(CatalogField::ColumnKey))
    } else {
        Ok(
            ColumnInfoView {
                cid,
                name,
                col_type: type_of_text(type_text),
                not_null: not_null != 0,
                default_value: default_of(default_value),
                primary_key: primary_key != 0,
            },
        )
    }
}

impl ColumnInfo {
    /// Map the fields of a row of `PRAGMA table_info` into a column
    /// definition type [ColumnInfo]
    pub fn to_column_def(
        cid: i32,
        name: String,
        type_text: &str,
        not_null: i8,
        default_value: &str,
        primary_key: i8,
    ) -> (r: Result<ColumnInfo, SchemaError>)
        ensures
            match r {
                Ok(c) => column_of_fields(
                    cid,
                    name@,
                    type_text@,
                    not_null,
                    default_value@,
                    primary_key,
                ) == Ok::<ColumnInfoView, SchemaError>(c@),
                Err(e) => column_of_fields(
                    cid,
                    name@,
                    type_text@,
                    not_null,
                    default_value@,
                    primary_key,
                ) == Err::<ColumnInfoView, SchemaError>(e),
            },
    {
        if not_null != 0 && not_null != 1 {
            return Err(SchemaError::MalformedSentinel(CatalogField::IsNullable));
        }
        if primary_key < 0 {
            return Err(SchemaError::MalformedSentinel(CatalogField::ColumnKey));
        }
        Ok(
            ColumnInfo {
                cid,
                name,
                col_type: Type::to_type(type_text),
                not_null: not_null != 0,
                default_value: DefaultType::parse(default_value),
                primary_key: primary_key != 0,
            },
        )
    }
}

/// Maps the index and all columns in the index which is the result of queries
/// `PRAGMA index_list(table_name)` and
/// `SELECT * FROM sqlite_master where name = 'index_name'`
#[derive(Clone, Debug, Default, PartialEq)]
pub struct IndexInfo {
    /// Is it a SQLindex
    pub kind: String,
    pub index_name: String,
    pub table_name: String,
    pub unique: bool,
    pub origin: String,
    pub partial: i32,
    pub columns: Vec<String>,
}

/// The statement that an index is written as.
pub open spec fn index_create_of(i: IndexInfo) -> IndexCreateModel {
    IndexCreateModel {
        name: Some(i.index_name@),
        table: Some(i.table_name@),
        primary: false,
        unique: i.unique,
        full_text: false,
        columns: views(i.columns@),
    }
}

impl IndexInfo {
    /// Write all the discovered index into a [sea_query::IndexCreateStatement]
    pub fn write(&self) -> (idx: sea_query::IndexCreateStatement)
        ensures
            index_create_model(idx) == index_create_of(*self),
    {
        let mut new_index = index_create_new();
        index_create_name(&mut new_index, self.index_name.as_str());
        index_create_table(&mut new_index, self.table_name.as_str());
        if self.unique {
            index_create_unique(&mut new_index);
        }
        let mut i: usize = 0;
        assert(views(self.columns@).take(0) =~= Seq::empty());
        while i < self.columns.len()
            invariant
                i <= self.columns@.len(),
                index_create_model(new_index) == (IndexCreateModel {
                    columns: views(self.columns@).take(i as int),
                    ..index_create_of(*self)
                }),
            decreases self.columns@.len() - i,
        {
            index_create_col(&mut new_index, self.columns[i].as_str());
            assert(views(self.columns@).take(i as int).push(self.columns@[i as int]@) =~= views(
                self.columns@,
            ).take(i + 1));
            i += 1;
        }
        assert(views(self.columns@).take(i as int) =~= views(self.columns@));
        new_index
    }
}

/// Maps the index all columns as a result of using query
/// `PRAGMA index_list(table_name)`
#[derive(Clone, Debug, Default, PartialEq)]
pub struct PartialIndexInfo {
    pub seq: i32,
    pub name: String,
    pub unique: bool,
    pub origin: String,
    pub partial: i32,
}

impl PartialIndexInfo {
    /// The index of a row of `PRAGMA index_list`; it is unique where the
    /// flag is not zero.
    pub fn new(seq: i32, name: String, is_unique: i8, origin: String, partial: i32) -> (r:
        PartialIndexInfo)
        ensures
            r.seq == seq,
            r.name == name,
            r.unique == (is_unique != 0),
            r.origin == origin,
            r.partial == partial,
    {
        PartialIndexInfo { seq, name, unique: is_unique != 0, origin, partial }
    }
}

/// Confirms if a table's primary key is set to autoincrement as a result of using query
/// `SELECT COUNT(*) from sqlite_sequence where name = 'table_name';
#[derive(Clone, Copy, Debug, Default, PartialEq, Eq)]
pub struct PrimaryKeyAutoincrement(pub u8);

/// Indexes the foreign keys
#[derive(Clone, Debug, PartialEq)]
pub struct ForeignKeysInfo {
    pub id: i32,
    pub seq: i32,
    pub table: String,
    pub from: String,
    pub to: String,
    pub on_update: ForeignKeyAction,
    pub on_delete: ForeignKeyAction,
    pub match_action: MatchAction,
}

impl ForeignKeysInfo {
    /// The foreign key column of a row of `PRAGMA foreign_key_list`.
    ///
    /// An action outside the closed set is a malformed sentinel; the action
    /// on update is looked at first.
    pub fn new(
        id: i32,
        seq: i32,
        table: String,
        from: String,
        to: String,
        on_update: &str,
        on_delete: &str,
        match_action: &str,
    ) -> (r: Result<ForeignKeysInfo, SchemaError>)
        ensures
            r is Ok <==> foreign_key_action_of(on_update@) is Some && foreign_key_action_of(
                on_delete@,
            ) is Some,
            r matches Err(e) ==> e == SchemaError::MalformedSentinel(
                CatalogField::ReferentialAction,
            ),
            r matches Ok(k) ==> {
                &&& k.id == id
                &&& k.seq == seq
                &&& k.table == table
                &&& k.from == from
                &&& k.to == to
                &&& Some(k.on_update) == foreign_key_action_of(on_update@)
                &&& Some(k.on_delete) == foreign_key_action_of(on_delete@)
                &&& k.match_action == match_action_of(match_action@)
            },
    {
        let on_update = match ForeignKeyAction::parse(on_update) {
            Ok(a) => a,
            Err(e) => {
                return Err(e);
            },
        };
        let on_delete = match ForeignKeyAction::parse(on_delete) {
            Ok(a) => a,
            Err(e) => {
                return Err(e);
            },
        };
        Ok(
            ForeignKeysInfo {
                id,
                seq,
                table,
                from,
                to,
                on_update,
                on_delete,
                match_action: MatchAction::parse(match_action),
            },
        )
    }
}

/// Maps to the SQLite `MATCH` actions
#[derive(Clone, Copy, Debug, PartialEq, Eq, Structural)]
pub enum MatchAction {
    Simple,
    Partial,
    Full,
    /// `MATCH NONE`, and any text that is not known.
    NoMatch,
}

impl Default for MatchAction {
    fn default() -> (r: MatchAction)
        ensures
            r == MatchAction::NoMatch,
    {
        MatchAction::NoMatch
    }
}

/// The match action that a text stands for; any text outside the known
/// ones stands for none.
pub open spec fn match_action_of(action: Seq<char>) -> MatchAction {
    if action == "MATCH SIMPLE"@ {
        MatchAction::Simple
    } else if action == "MATCH PARTIAL"@ {
        MatchAction::Partial
    } else if action == "MATCH FULL"@ {
        MatchAction::Full
    } else {
        MatchAction::NoMatch
    }
}

impl MatchAction {
    /// The match action that a text stands for.
    pub fn parse(action: &str) -> (r: MatchAction)
        ensures
            r == match_action_of(action@),
    {
        if str_eq(action, "MATCH SIMPLE") {
            MatchAction::Simple
        } else if str_eq(action, "MATCH PARTIAL") {
            MatchAction::Partial
        } else if str_eq(action, "MATCH FULL") {
            MatchAction::Full
        } else {
            MatchAction::NoMatch
        }
    }
}

} // verus!
