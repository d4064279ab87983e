//! Assembly of a table from the rows of its catalogs.

use vstd::prelude::*;
use crate::consolidate::{
    aggregates, failures, item_views, lemma_no_failures, lemma_output_keeps,
    lemma_output_keys_differ, split,
};
use crate::error::{RowError, SchemaError};
use crate::mysql::def::column::{ColumnInfo, ColumnInfoView};
use crate::mysql::def::foreign_key::ForeignKeyInfo;
use crate::mysql::def::index::IndexInfo;
use crate::mysql::def::schema::TableDef;
use crate::mysql::def::table::TableInfo;
use crate::mysql::parser::column::{decode_column_query_result, decode_column_row};
use crate::mysql::parser::constraint::{
    foreign_keys_of, lemma_foreign_key_arity, parse_foreign_key_query_results,
};
use crate::mysql::parser::index::{
    indexes_of, lemma_indexes_are_well_formed, parse_index_query_results, row_views,
};
use crate::mysql::query::column::ColumnQueryResult;
use crate::mysql::query::constraint::ForeignKeyQueryResult;
use crate::mysql::query::index::IndexQueryResult;
use crate::text::{contains_text, views};

verus! {

/// The catalog that a row came from.
#[derive(Clone, Copy, Debug, PartialEq, Eq, Structural)]
pub enum RowSource {
    Columns,
    Indexes,
    ForeignKeys,
}

/// An error of a row of one of the catalogs of a table.
#[derive(Clone, Copy, Debug, PartialEq, Eq, Structural)]
pub struct TableError {
    /// The catalog of the row.
    pub source: RowSource,
    /// Position of the row among the rows of its catalog, and what was
    /// wrong with it.
    pub row: RowError,
}

/// The names of the columns of the rows before the `n`-th.
pub open spec fn names_before(rows: Seq<ColumnQueryResult>, n: int) -> Seq<Seq<char>> {
    Seq::new(n as nat, |i: int| rows[i]@.column_name)
}

/// What the `i`-th column row gives: its error, or a structural violation
/// where a row before it has the same column name, or its column.
pub open spec fn column_at(rows: Seq<ColumnQueryResult>, i: int) -> Result<
    ColumnInfoView,
    RowError,
> {
    match decode_column_row(rows[i]@) {
        Err(e) => Err(RowError { row: i as usize, error: e }),
        Ok(c) => if names_before(rows, i).contains(rows[i]@.column_name) {
            Err(RowError { row: i as usize, error: SchemaError::StructuralViolation })
        } else {
            Ok(c)
        },
    }
}

/// What each of the column rows gives.
pub open spec fn columns_of(rows: Seq<ColumnQueryResult>) -> Seq<Result<ColumnInfoView, RowError>> {
    Seq::new(rows.len(), |i: int| column_at(rows, i))
}

/// The errors of one catalog.
pub open spec fn errors_from(source: RowSource, errors: Seq<RowError>) -> Seq<TableError> {
    Seq::new(errors.len(), |i: int| TableError { source, row: errors[i] })
}

/// All the errors of the rows of a table: those of the column rows, then
/// those of the index rows, then those of the foreign key rows.
pub open spec fn table_errors(
    columns: Seq<ColumnQueryResult>,
    indexes: Seq<IndexQueryResult>,
    foreign_keys: Seq<ForeignKeyQueryResult>,
) -> Seq<TableError> {
    errors_from(RowSource::Columns, failures(columns_of(columns))) + errors_from(
        RowSource::Indexes,
        failures(indexes_of(row_views(indexes))),
    ) + errors_from(RowSource::ForeignKeys, failures(foreign_keys_of(foreign_keys)))
}

/// The models of a sequence of columns.
pub open spec fn column_views(columns: Seq<ColumnInfo>) -> Seq<ColumnInfoView> {
    Seq::new(columns.len(), |i: int| columns[i]@)
}

/// The models of a sequence of indexes.
pub open spec fn index_views(indexes: Seq<IndexInfo>) -> Seq<
    crate::mysql::def::index::IndexInfoView,
> {
    Seq::new(indexes.len(), |i: int| indexes[i]@)
}

/// The models of a sequence of foreign keys.
pub open spec fn foreign_key_views(keys: Seq<ForeignKeyInfo>) -> Seq<
    crate::mysql::def::foreign_key::ForeignKeyInfoView,
> {
    Seq::new(keys.len(), |i: int| keys[i]@)
}

/// What the model asks of a table: no two columns and no two indexes of
/// the same name, no index without a column, and as many referenced
/// columns as columns in every foreign key.
pub open spec fn well_formed(t: TableDef) -> bool {
    &&& forall|i: int, j: int|
        0 <= i < j < t.columns@.len() ==> (#[trigger] t.columns@[i])@.name != (
        #[trigger] t.columns@[j])@.name
    &&& forall|i: int, j: int|
        0 <= i < j < t.indexes@.len() ==> (#[trigger] t.indexes@[i])@.name != (
        #[trigger] t.indexes@[j])@.name
    &&& forall|i: int| 0 <= i < t.indexes@.len() ==> (#[trigger] t.indexes@[i])@.columns.len() > 0
    &&& forall|i: int|
        0 <= i < t.foreign_keys@.len() ==> (#[trigger] t.foreign_keys@[i])@.columns.len()
            == t.foreign_keys@[i]@.referenced_columns.len()
}

fn read_columns(rows: &Vec<ColumnQueryResult>) -> (r: (Vec<ColumnInfo>, Vec<RowError>))
    ensures
        column_views(r.0@) == aggregates(columns_of(rows@)),
        r.1@ == failures(columns_of(rows@)),
{
    let ghost all = columns_of(rows@);
    let mut names: Vec<String> = Vec::new();
    let mut good: Vec<ColumnInfo> = Vec::new();
    let mut bad: Vec<RowError> = Vec::new();
    let mut i: usize = 0;
    assert(all.take(0) =~= Seq::empty());
    assert(column_views(good@) =~= aggregates(all.take(0)));
    assert(views(names@) =~= names_before(rows@, 0));
    while i < rows.len()
        invariant
            i <= rows@.len(),
            all == columns_of(rows@),
            views(names@) == names_before(rows@, i as int),
            column_views(good@) == aggregates(all.take(i as int)),
            bad@ == failures(all.take(i as int)),
        decreases rows@.len() - i,
    {
        let ghost g0 = column_views(good@);
        let ghost n0 = views(names@);
        proof {
            assert(all.take(i + 1).drop_last() =~= all.take(i as int));
            assert(all.take(i + 1).last() == column_at(rows@, i as int));
        }
        match decode_column_query_result(&rows[i]) {
            Err(e) => {
                bad.push(RowError { row: i, error: e });
            },
            Ok(c) => {
                if contains_text(&names, rows[i].column_name.as_str()) {
                    bad.push(RowError { row: i, error: SchemaError::StructuralViolation });
                } else {
                    good.push(c);
                    assert(column_views(good@) =~= g0.push(c@));
                }
            },
        }
        names.push(rows[i].column_name.clone());
        assert(views(names@) =~= n0.push(rows@[i as int]@.column_name));
        assert(n0.push(rows@[i as int]@.column_name) =~= names_before(rows@, i + 1));
        i += 1;
    }
    assert(all.take(i as int) =~= all);
    (good, bad)
}

fn tag_errors(source: RowSource, errors: &Vec<RowError>, out: &mut Vec<TableError>)
    ensures
        final(out)@ == old(out)@ + errors_from(source, errors@),
{
    let mut i: usize = 0;
    assert(out@ =~= old(out)@ + errors_from(source, errors@).take(0));
    while i < errors.len()
        invariant
            i <= errors@.len(),
            out@ == old(out)@ + errors_from(source, errors@).take(i as int),
        decreases errors@.len() - i,
    {
        out.push(TableError { source, row: errors[i] });
        assert(out@ =~= old(out)@ + errors_from(source, errors@).take(i + 1));
        i += 1;
    }
    assert(errors_from(source, errors@).take(i as int) =~= errors_from(source, errors@));
}

/// Assembles a table from what the catalog says of it and from the rows
/// of its columns, indexes and foreign keys, the index and foreign key
/// rows sorted by name and position.
///
/// Either every row is taken up and the table is complete, or no table is
/// made and every row in error is listed, with its catalog and position.
/// The table has its columns in row order, and its indexes and foreign
/// keys in the order in which their first rows stand.
pub fn parse_table_def(
    info: TableInfo,
    columns: Vec<ColumnQueryResult>,
    indexes: Vec<IndexQueryResult>,
    foreign_keys: Vec<ForeignKeyQueryResult>,
) -> (r: Result<TableDef, Vec<TableError>>)
    ensures
        r is Ok <==> table_errors(columns@, indexes@, foreign_keys@).len() == 0,
        r matches Err(e) ==> e@ == table_errors(columns@, indexes@, foreign_keys@),
        r matches Ok(t) ==> {
            &&& t.info == info
            &&& column_views(t.columns@) == aggregates(columns_of(columns@))
            &&& index_views(t.indexes@) == aggregates(indexes_of(row_views(indexes@)))
            &&& foreign_key_views(t.foreign_keys@) == aggregates(foreign_keys_of(foreign_keys@))
            &&& well_formed(t)
        },
{
    let (cols, col_errors) = read_columns(&columns);
    let mut parser = parse_index_query_results(indexes);
    let index_items = parser.collect();
    assert(item_views(index_items@) =~= indexes_of(row_views(indexes@))) by {
        assert(Seq::<Result<crate::mysql::def::index::IndexInfoView, RowError>>::empty()
            + item_views(index_items@) =~= item_views(index_items@));
    }
    let (idx, idx_errors) = split(index_items);
    let key_items = parse_foreign_key_query_results(foreign_keys);
    let (keys, key_errors) = split(key_items);
    let mut errors: Vec<TableError> = Vec::new();
    tag_errors(RowSource::Columns, &col_errors, &mut errors);
    tag_errors(RowSource::Indexes, &idx_errors, &mut errors);
    tag_errors(RowSource::ForeignKeys, &key_errors, &mut errors);
    assert(errors@ =~= table_errors(columns@, indexes@, foreign_keys@));
    if errors.len() > 0 {
        return Err(errors);
    }
    let table = TableDef { info, columns: cols, indexes: idx, foreign_keys: keys };
    proof {
        assert(index_views(table.indexes@) =~= aggregates(indexes_of(row_views(indexes@))));
        assert(foreign_key_views(table.foreign_keys@) =~= aggregates(
            foreign_keys_of(foreign_keys@),
        ));
        lemma_table_is_well_formed(table, columns@, indexes@, foreign_keys@);
    }
    Ok(table)
}

proof fn lemma_table_is_well_formed(
    t: TableDef,
    columns: Seq<ColumnQueryResult>,
    indexes: Seq<IndexQueryResult>,
    foreign_keys: Seq<ForeignKeyQueryResult>,
)
    requires
        table_errors(columns, indexes, foreign_keys).len() == 0,
        column_views(t.columns@) == aggregates(columns_of(columns)),
        index_views(t.indexes@) == aggregates(indexes_of(row_views(indexes))),
        foreign_key_views(t.foreign_keys@) == aggregates(foreign_keys_of(foreign_keys)),
    ensures
        well_formed(t),
{
    let c = columns_of(columns);
    let x = indexes_of(row_views(indexes));
    let k = foreign_keys_of(foreign_keys);
    assert(failures(c).len() == 0 && failures(x).len() == 0 && failures(k).len() == 0);
    lemma_no_failures(c);
    lemma_no_failures(x);
    lemma_no_failures(k);
    lemma_indexes_are_well_formed(row_views(indexes));
    lemma_foreign_key_arity(foreign_keys);
    assert forall|i: int, j: int| 0 <= i < j < t.columns@.len() implies (
    #[trigger] t.columns@[i])@.name != (#[trigger] t.columns@[j])@.name by {
        assert(column_views(t.columns@)[i] == t.columns@[i]@);
        assert(column_views(t.columns@)[j] == t.columns@[j]@);
        assert(c[i] == Ok::<ColumnInfoView, RowError>(t.columns@[i]@));
        assert(c[j] == Ok::<ColumnInfoView, RowError>(t.columns@[j]@));
        assert(c[i] == column_at(columns, i));
        assert(c[j] == column_at(columns, j));
        assert(names_before(columns, j)[i] == columns[i]@.column_name);
    }
    assert forall|i: int, j: int| 0 <= i < j < t.indexes@.len() implies (
    #[trigger] t.indexes@[i])@.name != (#[trigger] t.indexes@[j])@.name by {
        assert(index_views(t.indexes@)[i] == t.indexes@[i]@);
        assert(index_views(t.indexes@)[j] == t.indexes@[j]@);
        assert(x[i] is Ok && x[j] is Ok);
    }
    assert forall|i: int| 0 <= i < t.indexes@.len() implies (
    #[trigger] t.indexes@[i])@.columns.len() > 0 by {
        assert(index_views(t.indexes@)[i] == t.indexes@[i]@);
        assert(x[i] is Ok);
    }
    assert forall|i: int| 0 <= i < t.foreign_keys@.len() implies (
    #[trigger] t.foreign_keys@[i])@.columns.len()
        == t.foreign_keys@[i]@.referenced_columns.len() by {
        assert(foreign_key_views(t.foreign_keys@)[i] == t.foreign_keys@[i]@);
        assert(k[i] is Ok);
    }
}

} // verus!
