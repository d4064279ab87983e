//! Consolidation of the rows of unique constraints.

use vstd::prelude::*;
use crate::consolidate::{consolidate, input_views, item_views, output, Fragment};
use crate::error::{CatalogField, RowError, SchemaError};
use crate::postgres::def::constraints::Unique;
use crate::postgres::query::constraints::unique::{UniqueQueryResult, UniqueRow};
use crate::text::views;

verus! {

/// The columns of a unique constraint read so far, with the constraint's
/// name and the position of the last column.
#[derive(Clone, Debug, PartialEq)]
pub struct UniqueColumns {
    pub name: String,
    pub columns: Vec<String>,
    pub last_position: i32,
}

/// The mathematical model of a [`UniqueColumns`].
pub struct UniqueColumnsView {
    pub name: Seq<char>,
    pub columns: Seq<Seq<char>>,
    pub last_position: i32,
}

impl View for UniqueColumns {
    type V = UniqueColumnsView;

    open spec fn view(&self) -> UniqueColumnsView {
        UniqueColumnsView {
            name: self.name@,
            columns: views(self.columns@),
            last_position: self.last_position,
        }
    }
}

impl Fragment for UniqueColumns {
    open spec fn key(v: UniqueColumnsView) -> Seq<char> {
        v.name
    }

    open spec fn merge(acc: UniqueColumnsView, next: UniqueColumnsView) -> UniqueColumnsView {
        UniqueColumnsView {
            name: acc.name,
            columns: acc.columns + next.columns,
            last_position: next.last_position,
        }
    }

    open spec fn in_order(acc: UniqueColumnsView, next: UniqueColumnsView) -> bool {
        acc.last_position < next.last_position
    }

    proof fn lemma_merge_keeps_key(acc: UniqueColumnsView, next: UniqueColumnsView) {
    }

    fn key_text(&self) -> (k: String) {
        self.name.clone()
    }

    fn accepts(&self, next: &Self) -> (b: bool) {
        self.last_position < next.last_position
    }

    fn absorb(&mut self, next: Self) {
        let mut rest = next.columns;
        let ghost before = self.columns@;
        let ghost added = rest@;
        self.columns.append(&mut rest);
        self.last_position = next.last_position;
        assert(views(self.columns@) =~= views(before) + views(added));
    }
}

/// What one row of a unique constraint decodes to: a position below one is
/// a malformed sentinel.
pub open spec fn decode_unique_row(r: UniqueRow) -> Result<UniqueColumnsView, SchemaError> {
    if r.ordinal_position < 1 {
        Err(SchemaError::MalformedSentinel(CatalogField::OrdinalPosition))
    } else {
        Ok(
            UniqueColumnsView {
                name: r.constraint_name,
                columns: seq![r.column_name],
                last_position: r.ordinal_position,
            },
        )
    }
}

/// What each of a sequence of rows decodes to.
pub open spec fn decode_unique_rows(rows: Seq<UniqueQueryResult>) -> Seq<
    Result<UniqueColumnsView, SchemaError>,
> {
    Seq::new(rows.len(), |i: int| decode_unique_row(rows[i]@))
}

/// The error of the first item in error, if any.
pub open spec fn first_error<V>(items: Seq<Result<V, RowError>>) -> Option<SchemaError>
    decreases items.len(),
{
    if items.len() == 0 {
        None
    } else {
        match items[0] {
            Err(e) => Some(e.error),
            Ok(_) => first_error(items.drop_first()),
        }
    }
}

/// The unique constraint that the rows of one constraint make, in the order
/// of their positions.
///
/// The first row in error decides: its error is the result. Rows without
/// error that do not make exactly one constraint (there is no row at all)
/// are a structural violation.
pub open spec fn unique_of_rows(rows: Seq<UniqueQueryResult>) -> Result<Seq<Seq<char>>, SchemaError> {
    let out = output::<UniqueColumns>(decode_unique_rows(rows));
    match first_error(out) {
        Some(e) => Err(e),
        None => if out.len() == 1 && out[0] is Ok {
            Ok(out[0]->Ok_0.columns)
        } else {
            Err(SchemaError::StructuralViolation)
        },
    }
}

fn decode_unique_query_result(r: &UniqueQueryResult) -> (f: Result<UniqueColumns, SchemaError>)
    ensures
        crate::consolidate::input_view(f) == decode_unique_row(r@),
{
    if r.ordinal_position < 1 {
        return Err(SchemaError::MalformedSentinel(CatalogField::OrdinalPosition));
    }
    let mut columns: Vec<String> = Vec::new();
    columns.push(r.column_name.clone());
    let f = UniqueColumns {
        name: r.constraint_name.clone(),
        columns,
        last_position: r.ordinal_position,
    };
    assert(f@.columns =~= seq![r@.column_name]);
    Ok(f)
}

fn find_first_error(items: &Vec<Result<UniqueColumns, RowError>>) -> (r: Option<SchemaError>)
    ensures
        r == first_error(item_views(items@)),
{
    let ghost all = item_views(items@);
    let mut i: usize = 0;
    assert(all.skip(0) =~= all);
    while i < items.len()
        invariant
            i <= items@.len(),
            all == item_views(items@),
            first_error(all) == first_error(all.skip(i as int)),
        decreases items@.len() - i,
    {
        match &items[i] {
            Err(e) => {
                assert(all.skip(i as int)[0] == Err::<UniqueColumnsView, RowError>(*e));
                return Some(e.error);
            },
            Ok(_) => {
                assert(all.skip(i as int)[0] is Ok);
                assert(all.skip(i as int).drop_first() =~= all.skip(i + 1));
            },
        }
        i += 1;
    }
    assert(all.skip(i as int).len() == 0);
    None
}

/// Consolidates the rows of one unique constraint, sorted by position,
/// into the constraint.
pub fn parse_unique_query_results(results: Vec<UniqueQueryResult>) -> (r: Result<
    Unique,
    SchemaError,
>)
    ensures
        match r {
            Ok(u) => unique_of_rows(results@) == Ok::<Seq<Seq<char>>, SchemaError>(u@),
            Err(e) => unique_of_rows(results@) == Err::<Seq<Seq<char>>, SchemaError>(e),
        },
{
    let mut items: Vec<Result<UniqueColumns, SchemaError>> = Vec::new();
    let mut i: usize = 0;
    while i < results.len()
        invariant
            i <= results@.len(),
            input_views(items@) =~= decode_unique_rows(results@).take(i as int),
        decreases results@.len() - i,
    {
        let item = decode_unique_query_result(&results[i]);
        let ghost before = input_views(items@);
        items.push(item);
        assert(input_views(items@) =~= before.push(decode_unique_row(results@[i as int]@)));
        i += 1;
    }
    assert(decode_unique_rows(results@).take(i as int) =~= decode_unique_rows(results@));
    let mut out = consolidate(items);
    match find_first_error(&out) {
        Some(e) => Err(e),
        None => {
            if out.len() == 1 {
                match out.pop() {
                    Some(Ok(f)) => Ok(Unique(f.columns)),
                    _ => Err(SchemaError::StructuralViolation),
                }
            } else {
                Err(SchemaError::StructuralViolation)
            }
        },
    }
}

} // verus!
