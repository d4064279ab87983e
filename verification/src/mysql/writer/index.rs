//! Indexes as `CREATE INDEX` statements.

use vstd::prelude::*;
use crate::mysql::def::index::{IndexInfo, IndexInfoView, IndexType};
use crate::statement::index::{
    index_create_col, index_create_full_text, index_create_model, index_create_name,
    index_create_new, index_create_primary, index_create_table, index_create_unique,
    IndexCreateModel,
};
use crate::text::{str_eq, views};

verus! {

/// The statement that an index of a table is written as: its name, the
/// table, its columns in index order; the primary flag for the index named
/// `PRIMARY`, the unique flag, and the full-text flag. Of the index methods
/// only full-text is written; sort order, prefix length and comment are
/// not.
pub open spec fn index_create_of(i: IndexInfoView, table: Seq<char>) -> IndexCreateModel {
    IndexCreateModel {
        name: Some(i.name),
        table: Some(table),
        primary: i.name == "PRIMARY"@,
        unique: i.unique,
        full_text: i.idx_type == IndexType::FullText,
        columns: i.columns,
    }
}

impl IndexInfo {
    /// The statement that creates this index on the table.
    pub fn write(&self, table: &str) -> (idx: sea_query::IndexCreateStatement)
        ensures
            index_create_model(idx) == index_create_of(self@, table@),
    {
        let mut idx = index_create_new();
        index_create_name(&mut idx, self.name.as_str());
        index_create_table(&mut idx, table);
        if str_eq(self.name.as_str(), "PRIMARY") {
            index_create_primary(&mut idx);
        }
        if self.unique {
            index_create_unique(&mut idx);
        }
        match self.idx_type {
            IndexType::FullText => {
                index_create_full_text(&mut idx);
            },
            _ => {},
        }
        let mut i: usize = 0;
        assert(views(self.columns@).take(0) =~= Seq::empty());
        while i < self.columns.len()
            invariant
                i <= self.columns@.len(),
                index_create_model(idx) == (IndexCreateModel {
                    columns: views(self.columns@).take(i as int),
                    ..index_create_of(self@, table@)
                }),
            decreases self.columns@.len() - i,
        {
            index_create_col(&mut idx, self.columns[i].as_str());
            assert(views(self.columns@).take(i as int).push(self.columns@[i as int]@) =~= views(
                self.columns@,
            ).take(i + 1));
            i += 1;
        }
        assert(views(self.columns@).take(i as int) =~= views(self.columns@));
        idx
    }
}

} // verus!
