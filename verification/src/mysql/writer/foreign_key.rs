//! Foreign keys as statements.

use vstd::prelude::*;
use crate::mysql::def::foreign_key::{ForeignKeyInfo, ForeignKeyInfoView};
use crate::statement::foreign_key::{
    foreign_key_create_model, foreign_key_create_new, foreign_key_from_col,
    foreign_key_from_tbl, foreign_key_name, foreign_key_on_delete, foreign_key_on_update,
    foreign_key_to_col, foreign_key_to_tbl, ForeignKeyCreateModel,
};
use crate::text::views;

verus! {

/// The statement that a foreign key of a table is written as.
pub open spec fn foreign_key_create_of(k: ForeignKeyInfoView, table: Seq<char>) -> ForeignKeyCreateModel {
    ForeignKeyCreateModel {
        name: Some(k.name),
        table: Some(table),
        ref_table: Some(k.referenced_table),
        columns: k.columns,
        ref_columns: k.referenced_columns,
        on_update: Some(k.on_update),
        on_delete: Some(k.on_delete),
    }
}

impl ForeignKeyInfo {
    /// The statement that creates this foreign key on the table.
    pub fn write(&self, table: &str) -> (key: sea_query::ForeignKeyCreateStatement)
        ensures
            foreign_key_create_model(key) == foreign_key_create_of(self@, table@),
    {
        let mut key = foreign_key_create_new();
        foreign_key_name(&mut key, self.name.as_str());
        foreign_key_from_tbl(&mut key, table);
        foreign_key_to_tbl(&mut key, self.referenced_table.as_str());
        foreign_key_on_update(&mut key, self.on_update);
        foreign_key_on_delete(&mut key, self.on_delete);
        let mut i: usize = 0;
        assert(views(self.columns@).take(0) =~= Seq::empty());
        while i < self.columns.len()
            invariant
                i <= self.columns@.len(),
                foreign_key_create_model(key) == (ForeignKeyCreateModel {
                    columns: views(self.columns@).take(i as int),
                    ref_columns: Seq::empty(),
                    ..foreign_key_create_of(self@, table@)
                }),
            decreases self.columns@.len() - i,
        {
            foreign_key_from_col(&mut key, self.columns[i].as_str());
            assert(views(self.columns@).take(i as int).push(self.columns@[i as int]@) =~= views(
                self.columns@,
            ).take(i + 1));
            i += 1;
        }
        assert(views(self.columns@).take(i as int) =~= views(self.columns@));
        let mut j: usize = 0;
        assert(views(self.referenced_columns@).take(0) =~= Seq::empty());
        while j < self.referenced_columns.len()
            invariant
                j <= self.referenced_columns@.len(),
                foreign_key_create_model(key) == (ForeignKeyCreateModel {
                    ref_columns: views(self.referenced_columns@).take(j as int),
                    ..foreign_key_create_of(self@, table@)
                }),
            decreases self.referenced_columns@.len() - j,
        {
            foreign_key_to_col(&mut key, self.referenced_columns[j].as_str());
            assert(views(self.referenced_columns@).take(j as int).push(
                self.referenced_columns@[j as int]@,
            ) =~= views(self.referenced_columns@).take(j + 1));
            j += 1;
        }
        assert(views(self.referenced_columns@).take(j as int) =~= views(
            self.referenced_columns@,
        ));
        key
    }
}

} // verus!
