//! Decoding and grouping of foreign key rows.

use vstd::prelude::*;
use crate::consolidate::{
    consolidate, input_view, input_views, item_views, lemma_output_keeps, output, Fragment,
};
use crate::error::{CatalogField, RowError, SchemaError};
use crate::foreign_key::{foreign_key_action_of, ForeignKeyAction};
use crate::mysql::def::foreign_key::{ForeignKeyInfo, ForeignKeyInfoView};
use crate::mysql::query::constraint::{ForeignKeyQueryResult, ForeignKeyRow};
use crate::text::views;

verus! {

/// What one foreign key row decodes to: a foreign key of one column. The
/// rule on update is looked at before the rule on delete.
pub open spec fn decode_foreign_key_row(r: ForeignKeyRow) -> Result<ForeignKeyInfoView, SchemaError> {
    if foreign_key_action_of(r.update_rule) is None || foreign_key_action_of(r.delete_rule)
        is None {
        Err(SchemaError::MalformedSentinel(CatalogField::ReferentialAction))
    } else {
        Ok(
            ForeignKeyInfoView {
                name: r.constraint_name,
                columns: seq![r.column_name],
                referenced_table: r.referenced_table_name,
                referenced_columns: seq![r.referenced_column_name],
                on_update: foreign_key_action_of(r.update_rule)->0,
                on_delete: foreign_key_action_of(r.delete_rule)->0,
            },
        )
    }
}

/// What each of a sequence of foreign key rows decodes to.
pub open spec fn decode_foreign_key_rows(rows: Seq<ForeignKeyQueryResult>) -> Seq<
    Result<ForeignKeyInfoView, SchemaError>,
> {
    Seq::new(rows.len(), |i: int| decode_foreign_key_row(rows[i]@))
}

/// The foreign keys that a sequence of foreign key rows, sorted by
/// constraint name, consolidates to, with the errors of the rows in
/// between.
pub open spec fn foreign_keys_of(rows: Seq<ForeignKeyQueryResult>) -> Seq<
    Result<ForeignKeyInfoView, RowError>,
> {
    output::<ForeignKeyInfo>(decode_foreign_key_rows(rows))
}

impl Fragment for ForeignKeyInfo {
    open spec fn key(v: ForeignKeyInfoView) -> Seq<char> {
        v.name
    }

    open spec fn merge(acc: ForeignKeyInfoView, next: ForeignKeyInfoView) -> ForeignKeyInfoView {
        ForeignKeyInfoView {
            columns: acc.columns + next.columns,
            referenced_columns: acc.referenced_columns + next.referenced_columns,
            ..acc
        }
    }

    open spec fn in_order(acc: ForeignKeyInfoView, next: ForeignKeyInfoView) -> bool {
        true
    }

    proof fn lemma_merge_keeps_key(acc: ForeignKeyInfoView, next: ForeignKeyInfoView) {
    }

    fn key_text(&self) -> (k: String) {
        self.name.clone()
    }

    fn accepts(&self, next: &Self) -> (b: bool) {
        true
    }

    fn absorb(&mut self, next: Self) {
        let mut columns = next.columns;
        let mut referenced = next.referenced_columns;
        let ghost c0 = self.columns@;
        let ghost c1 = columns@;
        let ghost r0 = self.referenced_columns@;
        let ghost r1 = referenced@;
        self.columns.append(&mut columns);
        self.referenced_columns.append(&mut referenced);
        assert(views(self.columns@) =~= views(c0) + views(c1));
        assert(views(self.referenced_columns@) =~= views(r0) + views(r1));
    }
}

/// Decodes one foreign key row, leaving the row as it is.
pub fn decode_foreign_key_query_result(result: &ForeignKeyQueryResult) -> (r: Result<
    ForeignKeyInfo,
    SchemaError,
>)
    ensures
        input_view(r) == decode_foreign_key_row(result@),
{
    let on_update = match ForeignKeyAction::parse(result.update_rule.as_str()) {
        Ok(a) => a,
        Err(e) => {
            return Err(e);
        },
    };
    let on_delete = match ForeignKeyAction::parse(result.delete_rule.as_str()) {
        Ok(a) => a,
        Err(e) => {
            return Err(e);
        },
    };
    let mut columns: Vec<String> = Vec::new();
    columns.push(result.column_name.clone());
    let mut referenced_columns: Vec<String> = Vec::new();
    referenced_columns.push(result.referenced_column_name.clone());
    let info = ForeignKeyInfo {
        name: result.constraint_name.clone(),
        columns,
        referenced_table: result.referenced_table_name.clone(),
        referenced_columns,
        on_update,
        on_delete,
    };
    assert(info@.columns =~= seq![result@.column_name]);
    assert(info@.referenced_columns =~= seq![result@.referenced_column_name]);
    Ok(info)
}

/// Decodes one foreign key row into the foreign key of one column that it
/// describes.
pub fn parse_foreign_key_query_result(result: ForeignKeyQueryResult) -> (r: Result<
    ForeignKeyInfo,
    SchemaError,
>)
    ensures
        input_view(r) == decode_foreign_key_row(result@),
{
    decode_foreign_key_query_result(&result)
}

/// Consolidates foreign key rows, sorted by constraint name and position,
/// into foreign keys; each row in error is handed out in its place.
pub fn parse_foreign_key_query_results(results: Vec<ForeignKeyQueryResult>) -> (out: Vec<
    Result<ForeignKeyInfo, RowError>,
>)
    ensures
        item_views(out@) == foreign_keys_of(results@),
{
    let mut items: Vec<Result<ForeignKeyInfo, SchemaError>> = Vec::new();
    let mut i: usize = 0;
    while i < results.len()
        invariant
            i <= results@.len(),
            input_views(items@) =~= decode_foreign_key_rows(results@).take(i as int),
        decreases results@.len() - i,
    {
        let item = decode_foreign_key_query_result(&results[i]);
        let ghost before = input_views(items@);
        items.push(item);
        assert(input_views(items@) =~= before.push(decode_foreign_key_row(results@[i as int]@)));
        i += 1;
    }
    assert(decode_foreign_key_rows(results@).take(i as int) =~= decode_foreign_key_rows(
        results@,
    ));
    consolidate(items)
}

/// Every foreign key that comes out of a consolidation has as many
/// referenced columns as columns.
pub proof fn lemma_foreign_key_arity(rows: Seq<ForeignKeyQueryResult>)
    ensures
        forall|i: int|
            0 <= i < foreign_keys_of(rows).len() && (#[trigger] foreign_keys_of(rows)[i]) is Ok
                ==> foreign_keys_of(rows)[i]->Ok_0.columns.len() == foreign_keys_of(
                rows,
            )[i]->Ok_0.referenced_columns.len(),
{
    let holds = |v: ForeignKeyInfoView| v.columns.len() == v.referenced_columns.len();
    let items = decode_foreign_key_rows(rows);
    assert forall|i: int| 0 <= i < items.len() && (#[trigger] items[i]) is Ok implies holds(
        items[i]->Ok_0,
    ) by {}
    assert forall|a: ForeignKeyInfoView, b: ForeignKeyInfoView| holds(a) && holds(b) implies holds(
        #[trigger] ForeignKeyInfo::merge(a, b),
    ) by {}
    lemma_output_keeps::<ForeignKeyInfo>(items, holds);
}

} // verus!
