//! Constraints as index and foreign key statements.

use vstd::prelude::*;
use crate::postgres::def::constraints::{
    Constraint, PrimaryKey, References, ReferencesView, Unique,
};
use crate::statement::foreign_key::{
    foreign_key_create_model, foreign_key_create_new, foreign_key_from_col,
    foreign_key_on_delete, foreign_key_on_update, foreign_key_to_col, foreign_key_to_tbl,
    ForeignKeyCreateModel,
};
use crate::statement::index::{
    index_create_col, index_create_model, index_create_new, index_create_primary,
    index_create_unique, IndexCreateModel,
};
use crate::text::views;

verus! {

fn write_columns(idx: &mut sea_query::IndexCreateStatement, columns: &Vec<String>)
    ensures
        index_create_model(*final(idx)) == (IndexCreateModel {
            columns: index_create_model(*old(idx)).columns + views(columns@),
            ..index_create_model(*old(idx))
        }),
{
    let ghost start = index_create_model(*idx);
    let mut i: usize = 0;
    assert(views(columns@).take(0) =~= Seq::empty());
    assert(start.columns + views(columns@).take(0) =~= start.columns);
    while i < columns.len()
        invariant
            i <= columns@.len(),
            index_create_model(*idx) == (IndexCreateModel {
                columns: start.columns + views(columns@).take(i as int),
                ..start
            }),
        decreases columns@.len() - i,
    {
        index_create_col(idx, columns[i].as_str());
        assert((start.columns + views(columns@).take(i as int)).push(columns@[i as int]@)
            =~= start.columns + views(columns@).take(i + 1));
        i += 1;
    }
    assert(views(columns@).take(i as int) =~= views(columns@));
}

impl PrimaryKey {
    /// The statement that creates the primary key index on these columns,
    /// in their order.
    pub fn write(&self) -> (idx: sea_query::IndexCreateStatement)
        ensures
            index_create_model(idx) == (IndexCreateModel {
                name: None,
                table: None,
                primary: true,
                unique: false,
                full_text: false,
                columns: self@,
            }),
    {
        let mut idx = index_create_new();
        index_create_primary(&mut idx);
        write_columns(&mut idx, &self.0);
        assert(Seq::<Seq<char>>::empty() + self@ =~= self@);
        idx
    }
}

impl Unique {
    /// The statement that creates the unique index on these columns, in
    /// their order.
    pub fn write(&self) -> (idx: sea_query::IndexCreateStatement)
        ensures
            index_create_model(idx) == (IndexCreateModel {
                name: None,
                table: None,
                primary: false,
                unique: true,
                full_text: false,
                columns: self@,
            }),
    {
        let mut idx = index_create_new();
        index_create_unique(&mut idx);
        write_columns(&mut idx, &self.0);
        assert(Seq::<Seq<char>>::empty() + self@ =~= self@);
        idx
    }
}

/// The foreign key statement that a reference is written as.
pub open spec fn foreign_key_of(r: ReferencesView) -> ForeignKeyCreateModel {
    ForeignKeyCreateModel {
        name: None,
        table: None,
        ref_table: Some(r.table),
        columns: r.columns,
        ref_columns: r.foreign_columns,
        on_update: r.on_update,
        on_delete: r.on_delete,
    }
}

impl References {
    /// The statement that creates the foreign key: the table referred to,
    /// the columns on both sides in their order, and the actions that are
    /// set.
    pub fn write(&self) -> (key: sea_query::ForeignKeyCreateStatement)
        ensures
            foreign_key_create_model(key) == foreign_key_of(self@),
    {
        let mut key = foreign_key_create_new();
        foreign_key_to_tbl(&mut key, self.table.as_str());
        let mut i: usize = 0;
        assert(views(self.columns@).take(0) =~= Seq::empty());
        while i < self.columns.len()
            invariant
                i <= self.columns@.len(),
                foreign_key_create_model(key) == (ForeignKeyCreateModel {
                    name: None,
                    table: None,
                    ref_table: Some(self.table@),
                    columns: views(self.columns@).take(i as int),
                    ref_columns: Seq::empty(),
                    on_update: None,
                    on_delete: None,
                }),
            decreases self.columns@.len() - i,
        {
            foreign_key_from_col(&mut key, self.columns[i].as_str());
            assert(views(self.columns@).take(i as int).push(self.columns@[i as int]@) =~= views(
                self.columns@,
            ).take(i + 1));
            i += 1;
        }
        assert(views(self.columns@).take(i as int) =~= views(self.columns@));
        let mut j: usize = 0;
        assert(views(self.foreign_columns@).take(0) =~= Seq::empty());
        while j < self.foreign_columns.len()
            invariant
                j <= self.foreign_columns@.len(),
                foreign_key_create_model(key) == (ForeignKeyCreateModel {
                    name: None,
                    table: None,
                    ref_table: Some(self.table@),
                    columns: views(self.columns@),
                    ref_columns: views(self.foreign_columns@).take(j as int),
                    on_update: None,
                    on_delete: None,
                }),
            decreases self.foreign_columns@.len() - j,
        {
            foreign_key_to_col(&mut key, self.foreign_columns[j].as_str());
            assert(views(self.foreign_columns@).take(j as int).push(
                self.foreign_columns@[j as int]@,
            ) =~= views(self.foreign_columns@).take(j + 1));
            j += 1;
        }
        assert(views(self.foreign_columns@).take(j as int) =~= views(self.foreign_columns@));
        if let Some(on_update) = self.on_update {
            foreign_key_on_update(&mut key, on_update);
        }
        if let Some(on_delete) = self.on_delete {
            foreign_key_on_delete(&mut key, on_delete);
        }
        key
    }
}

/// The statement that a constraint is written as.
pub enum ConstraintStatement {
    /// Of a primary key or a unique constraint.
    Index(sea_query::IndexCreateStatement),
    /// Of a reference.
    ForeignKey(sea_query::ForeignKeyCreateStatement),
}

impl Constraint {
    /// The statement of this constraint: the index of a primary key or
    /// unique constraint, the foreign key of a reference. The other
    /// constraints are part of the column or table definition and have no
    /// statement of their own.
    pub fn write(&self) -> (r: Option<ConstraintStatement>)
        ensures
            match *self {
                Constraint::PrimaryKey(p) => r matches Some(ConstraintStatement::Index(idx))
                    && index_create_model(idx) == (IndexCreateModel {
                    name: None,
                    table: None,
                    primary: true,
                    unique: false,
                    full_text: false,
                    columns: p@,
                }),
                Constraint::Unique(u) => r matches Some(ConstraintStatement::Index(idx))
                    && index_create_model(idx) == (IndexCreateModel {
                    name: None,
                    table: None,
                    primary: false,
                    unique: true,
                    full_text: false,
                    columns: u@,
                }),
                Constraint::References(k) => r matches Some(ConstraintStatement::ForeignKey(key))
                    && foreign_key_create_model(key) == foreign_key_of(k@),
                _ => r is None,
            },
    {
        match self {
            Constraint::PrimaryKey(p) => Some(ConstraintStatement::Index(p.write())),
            Constraint::Unique(u) => Some(ConstraintStatement::Index(u.write())),
            Constraint::References(k) => Some(ConstraintStatement::ForeignKey(k.write())),
            _ => None,
        }
    }
}

} // verus!
