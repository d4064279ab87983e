//! Tables as schema statements.

use vstd::prelude::*;
use crate::mysql::def::column::ColumnInfo;
use crate::mysql::def::foreign_key::ForeignKeyInfo;
use crate::mysql::def::index::IndexInfo;
use crate::mysql::def::schema::TableDef;
use crate::mysql::def::table::{char_set_name, collation_name, storage_engine_name};
use crate::mysql::writer::column::column_def_of;
use crate::mysql::writer::foreign_key::foreign_key_create_of;
use crate::mysql::writer::index::index_create_of;
use crate::statement::schema::{
    schema_statement_create_foreign_key, schema_statement_create_index,
    schema_statement_create_table, schema_statement_model, schema_statement_models,
    SchemaStatementModel,
};
use crate::statement::table::{
    table_create_character_set, table_create_col, table_create_collate, table_create_engine,
    table_create_model, table_create_new, table_create_table, ColumnDefModel, TableCreateModel,
    TableOptionModel,
};

verus! {

/// The column definitions of the columns, in their order.
pub open spec fn column_defs_of(columns: Seq<ColumnInfo>) -> Seq<ColumnDefModel> {
    Seq::new(columns.len(), |i: int| column_def_of(columns[i]@))
}

/// The `CREATE TABLE` statement that a table is written as: its name, its
/// columns in their order, then engine, character set and collation.
pub open spec fn table_create_of(t: TableDef) -> TableCreateModel {
    TableCreateModel {
        table: Some(t.info.name@),
        columns: column_defs_of(t.columns@),
        options: seq![
            TableOptionModel::Engine(storage_engine_name(t.info.engine)),
            TableOptionModel::CharacterSet(char_set_name(t.info.char_set)),
            TableOptionModel::Collate(collation_name(t.info.collation)),
        ],
    }
}

/// The statements that create the indexes of a table, in their order.
pub open spec fn index_statements_of(indexes: Seq<IndexInfo>, table: Seq<char>) -> Seq<
    SchemaStatementModel,
> {
    Seq::new(
        indexes.len(),
        |i: int| SchemaStatementModel::CreateIndex(index_create_of(indexes[i]@, table)),
    )
}

/// The statements that create the foreign keys of a table, in their order.
pub open spec fn foreign_key_statements_of(keys: Seq<ForeignKeyInfo>, table: Seq<char>) -> Seq<
    SchemaStatementModel,
> {
    Seq::new(
        keys.len(),
        |i: int| SchemaStatementModel::CreateForeignKey(foreign_key_create_of(keys[i]@, table)),
    )
}

/// The statements that a table is written as: first the table with its
/// columns, then its indexes, then its foreign keys, each in the order of
/// the model.
pub open spec fn statements_of(t: TableDef) -> Seq<SchemaStatementModel> {
    seq![SchemaStatementModel::CreateTable(table_create_of(t))] + index_statements_of(
        t.indexes@,
        t.info.name@,
    ) + foreign_key_statements_of(t.foreign_keys@, t.info.name@)
}

impl TableDef {
    /// Puts the statements of this table behind the statements that are
    /// there, which stay as they are.
    pub fn write(&self, statements: &mut Vec<sea_query::SchemaStatement>)
        ensures
            final(statements)@.len() == old(statements)@.len() + statements_of(*self).len(),
            final(statements)@.take(old(statements)@.len() as int) == old(statements)@,
            schema_statement_models(final(statements)@.skip(old(statements)@.len() as int))
                == statements_of(*self),
    {
        let ghost before = statements@;
        let ghost n = statements@.len() as int;
        let mut table = table_create_new();
        table_create_table(&mut table, self.info.name.as_str());
        let mut i: usize = 0;
        while i < self.columns.len()
            invariant
                i <= self.columns@.len(),
                table_create_model(table).table == Some(self.info.name@),
                table_create_model(table).columns =~= column_defs_of(self.columns@).take(
                    i as int,
                ),
                table_create_model(table).options =~= Seq::<TableOptionModel>::empty(),
            decreases self.columns@.len() - i,
        {
            let col = self.columns[i].write();
            table_create_col(&mut table, col);
            assert(column_defs_of(self.columns@).take(i as int).push(
                column_def_of(self.columns@[i as int]@),
            ) =~= column_defs_of(self.columns@).take(i + 1));
            i += 1;
        }
        assert(column_defs_of(self.columns@).take(i as int) =~= column_defs_of(self.columns@));
        table_create_engine(&mut table, self.info.engine.name());
        table_create_character_set(&mut table, self.info.char_set.name());
        table_create_collate(&mut table, self.info.collation.name());
        assert(table_create_model(table).options =~= table_create_of(*self).options);
        statements.push(schema_statement_create_table(table));
        let ghost head = seq![SchemaStatementModel::CreateTable(table_create_of(*self))];
        let ghost index_part = index_statements_of(self.indexes@, self.info.name@);
        let ghost key_part = foreign_key_statements_of(self.foreign_keys@, self.info.name@);
        assert(schema_statement_models(statements@.skip(n)) =~= head + index_part.take(0));
        let mut j: usize = 0;
        while j < self.indexes.len()
            invariant
                j <= self.indexes@.len(),
                n == before.len(),
                index_part == index_statements_of(self.indexes@, self.info.name@),
                statements@.len() == n + 1 + j,
                statements@.take(n) == before,
                schema_statement_models(statements@.skip(n)) == head + index_part.take(j as int),
            decreases self.indexes@.len() - j,
        {
            let ghost prev = statements@;
            let idx = self.indexes[j].write(self.info.name.as_str());
            statements.push(schema_statement_create_index(idx));
            assert(statements@.take(n) =~= prev.take(n));
            assert(schema_statement_models(statements@.skip(n)) =~= schema_statement_models(
                prev.skip(n),
            ).push(index_part[j as int]));
            assert((head + index_part.take(j as int)).push(index_part[j as int]) =~= head
                + index_part.take(j + 1));
            j += 1;
        }
        assert(index_part.take(j as int) =~= index_part);
        assert(head + index_part + key_part.take(0) =~= head + index_part);
        let mut k: usize = 0;
        while k < self.foreign_keys.len()
            invariant
                k <= self.foreign_keys@.len(),
                n == before.len(),
                key_part == foreign_key_statements_of(self.foreign_keys@, self.info.name@),
                statements@.len() == n + 1 + index_part.len() + k,
                statements@.take(n) == before,
                schema_statement_models(statements@.skip(n)) == head + index_part + key_part.take(
                    k as int,
                ),
            decreases self.foreign_keys@.len() - k,
        {
            let ghost prev = statements@;
            let key = self.foreign_keys[k].write(self.info.name.as_str());
            statements.push(schema_statement_create_foreign_key(key));
            assert(statements@.take(n) =~= prev.take(n));
            assert(schema_statement_models(statements@.skip(n)) =~= schema_statement_models(
                prev.skip(n),
            ).push(key_part[k as int]));
            assert((head + index_part + key_part.take(k as int)).push(key_part[k as int]) =~= head
                + index_part + key_part.take(k + 1));
            k += 1;
        }
        assert(key_part.take(k as int) =~= key_part);
    }
}

} // verus!
