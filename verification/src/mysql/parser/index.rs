//! Decoding and grouping of index rows.

use vstd::prelude::*;
use vstd::string::*;
use crate::consolidate::{
    input_view, item_view, item_views, lemma_output_keeps, lemma_output_keys_differ, output,
    run, step, yielded, Consolidator, Fragment, Progress,
};
use crate::error::{CatalogField, RowError, SchemaError};
use crate::mysql::def::index::{IndexInfo, IndexInfoView, IndexOrder, IndexType};
use crate::mysql::query::index::{IndexQueryResult, IndexRow};
use crate::text::{opt_view, str_eq, views};

verus! {

/// The sort order that a collation marker stands for.
pub open spec fn order_of(collation: Option<Seq<char>>) -> Option<IndexOrder> {
    match collation {
        None => Some(IndexOrder::Unordered),
        Some(c) => if c == "A"@ {
            Some(IndexOrder::Ascending)
        } else if c == "D"@ {
            Some(IndexOrder::Descending)
        } else {
            None
        },
    }
}

/// The index method that a catalog name stands for.
pub open spec fn index_type_of(name: Seq<char>) -> Option<IndexType> {
    if name == "BTREE"@ {
        Some(IndexType::BTree)
    } else if name == "FULLTEXT"@ {
        Some(IndexType::FullText)
    } else if name == "HASH"@ {
        Some(IndexType::Hash)
    } else if name == "RTREE"@ {
        Some(IndexType::RTree)
    } else if name == "SPATIAL"@ {
        Some(IndexType::Spatial)
    } else {
        None
    }
}

/// Whether an index can hold null, by its catalog flag: `YES`, or `NO` or
/// nothing.
pub open spec fn index_nullable_of(flag: Seq<char>) -> Option<bool> {
    if flag == "YES"@ {
        Some(true)
    } else if flag == "NO"@ || flag.len() == 0 {
        Some(false)
    } else {
        None
    }
}

/// The first field of an index row that cannot be decoded, if any. The
/// fields are looked at in the order uniqueness flag, indexed entity,
/// collation, prefix length, nullability flag, index method.
pub open spec fn index_row_fault(r: IndexRow) -> Option<CatalogField> {
    if r.non_unique != 0 && r.non_unique != 1 {
        Some(CatalogField::NonUnique)
    } else if (r.column_name is Some) == (r.expression is Some) {
        Some(CatalogField::IndexedEntity)
    } else if order_of(r.collation) is None {
        Some(CatalogField::Collation)
    } else if r.sub_part is Some && r.sub_part->0 < 0 {
        Some(CatalogField::SubPart)
    } else if index_nullable_of(r.nullable) is None {
        Some(CatalogField::IsNullable)
    } else if index_type_of(r.index_type) is None {
        Some(CatalogField::IndexType)
    } else {
        None
    }
}

/// The single-column index that a well-formed index row describes.
pub open spec fn index_of_row(r: IndexRow) -> IndexInfoView {
    IndexInfoView {
        unique: r.non_unique == 0,
        name: r.index_name,
        columns: seq![
            if r.column_name is Some {
                r.column_name->0
            } else {
                r.expression->0
            },
        ],
        order: order_of(r.collation)->0,
        sub_part: match r.sub_part {
            Some(v) => Some(v as u32),
            None => None,
        },
        nullable: index_nullable_of(r.nullable)->0,
        idx_type: index_type_of(r.index_type)->0,
        comment: r.index_comment,
        functional: r.expression is Some,
    }
}

/// What one index row decodes to.
pub open spec fn decode_index_row(r: IndexRow) -> Result<IndexInfoView, SchemaError> {
    match index_row_fault(r) {
        Some(field) => Err(SchemaError::MalformedSentinel(field)),
        None => Ok(index_of_row(r)),
    }
}

/// What each of a sequence of index rows decodes to.
pub open spec fn decode_index_rows(rows: Seq<IndexRow>) -> Seq<Result<IndexInfoView, SchemaError>> {
    Seq::new(rows.len(), |i: int| decode_index_row(rows[i]))
}

/// The models of a sequence of index rows.
pub open spec fn row_views(rows: Seq<IndexQueryResult>) -> Seq<IndexRow> {
    Seq::new(rows.len(), |i: int| rows[i]@)
}

/// The indexes that a sequence of index rows, sorted by index name,
/// consolidates to, with the errors of the rows in between.
pub open spec fn indexes_of(rows: Seq<IndexRow>) -> Seq<Result<IndexInfoView, RowError>> {
    output::<IndexInfo>(decode_index_rows(rows))
}

fn decode_order(collation: &Option<String>) -> (r: Option<IndexOrder>)
    ensures
        r == order_of(opt_view(*collation)),
{
    match collation {
        None => Some(IndexOrder::Unordered),
        Some(c) => {
            if str_eq(c.as_str(), "A") {
                Some(IndexOrder::Ascending)
            } else if str_eq(c.as_str(), "D") {
                Some(IndexOrder::Descending)
            } else {
                None
            }
        },
    }
}

fn decode_index_nullable(flag: &str) -> (r: Option<bool>)
    ensures
        r == index_nullable_of(flag@),
{
    if str_eq(flag, "YES") {
        Some(true)
    } else if str_eq(flag, "NO") || flag.unicode_len() == 0 {
        Some(false)
    } else {
        None
    }
}

fn decode_index_type(name: &str) -> (r: Option<IndexType>)
    ensures
        r == index_type_of(name@),
{
    if str_eq(name, "BTREE") {
        Some(IndexType::BTree)
    } else if str_eq(name, "FULLTEXT") {
        Some(IndexType::FullText)
    } else if str_eq(name, "HASH") {
        Some(IndexType::Hash)
    } else if str_eq(name, "RTREE") {
        Some(IndexType::RTree)
    } else if str_eq(name, "SPATIAL") {
        Some(IndexType::Spatial)
    } else {
        None
    }
}

/// Decodes one index row, leaving the row as it is.
pub fn decode_index_query_result(result: &IndexQueryResult) -> (r: Result<IndexInfo, SchemaError>)
    ensures
        input_view(r) == decode_index_row(result@),
{
    if result.non_unique != 0 && result.non_unique != 1 {
        return Err(SchemaError::MalformedSentinel(CatalogField::NonUnique));
    }
    let column = match (&result.column_name, &result.expression) {
        (Some(c), None) => c.clone(),
        (None, Some(e)) => e.clone(),
        _ => {
            return Err(SchemaError::MalformedSentinel(CatalogField::IndexedEntity));
        },
    };
    let order = match decode_order(&result.collation) {
        Some(o) => o,
        None => {
            return Err(SchemaError::MalformedSentinel(CatalogField::Collation));
        },
    };
    let sub_part: Option<u32> = match result.sub_part {
        Some(v) => {
            if v < 0 {
                return Err(SchemaError::MalformedSentinel(CatalogField::SubPart));
            }
            Some(v as u32)
        },
        None => None,
    };
    let nullable = match decode_index_nullable(result.nullable.as_str()) {
        Some(b) => b,
        None => {
            return Err(SchemaError::MalformedSentinel(CatalogField::IsNullable));
        },
    };
    let idx_type = match decode_index_type(result.index_type.as_str()) {
        Some(t) => t,
        None => {
            return Err(SchemaError::MalformedSentinel(CatalogField::IndexType));
        },
    };
    let mut columns: Vec<String> = Vec::new();
    columns.push(column);
    let info = IndexInfo {
        unique: result.non_unique == 0,
        name: result.index_name.clone(),
        columns,
        order,
        sub_part,
        nullable,
        idx_type,
        comment: result.index_comment.clone(),
        functional: result.expression.is_some(),
    };
    assert(info@.columns =~= index_of_row(result@).columns);
    Ok(info)
}

/// Decodes one index row into the single-column index it describes.
///
/// A field outside its closed set is reported as
/// [`SchemaError::MalformedSentinel`] naming the first such field.
pub fn parse_index_query_result(result: IndexQueryResult) -> (r: Result<IndexInfo, SchemaError>)
    ensures
        input_view(r) == decode_index_row(result@),
{
    decode_index_query_result(&result)
}

impl Fragment for IndexInfo {
    open spec fn key(v: IndexInfoView) -> Seq<char> {
        v.name
    }

    open spec fn merge(acc: IndexInfoView, next: IndexInfoView) -> IndexInfoView {
        IndexInfoView { columns: acc.columns + next.columns, ..acc }
    }

    open spec fn in_order(acc: IndexInfoView, next: IndexInfoView) -> bool {
        true
    }

    proof fn lemma_merge_keeps_key(acc: IndexInfoView, next: IndexInfoView) {
    }

    fn key_text(&self) -> (k: String) {
        self.name.clone()
    }

    fn accepts(&self, next: &Self) -> (b: bool) {
        true
    }

    fn absorb(&mut self, next: Self) {
        let mut rest = next.columns;
        let ghost before = self.columns@;
        let ghost added = rest@;
        self.columns.append(&mut rest);
        assert(views(self.columns@) =~= views(before) + views(added));
    }
}

/// A lazy consolidation of index rows: each call of
/// [`IndexQueryResultParser::next`] hands out the next index or row error.
pub struct IndexQueryResultParser {
    engine: Consolidator<IndexInfo>,
    results: Vec<IndexQueryResult>,
    pos: usize,
    done: bool,
}

impl IndexQueryResultParser {
    /// The state is consistent with the rows read so far.
    pub closed spec fn wf(&self) -> bool {
        &&& self.pos <= self.results@.len()
        &&& !self.done ==> self.engine@ == run::<IndexInfo>(
            decode_index_rows(self.rows()).take(self.pos as int),
        )
        &&& self.done ==> self.pos == self.results@.len()
    }

    /// The rows that this parser was made for.
    pub closed spec fn rows(&self) -> Seq<IndexRow> {
        row_views(self.results@)
    }

    /// Everything handed out so far, in order.
    pub closed spec fn produced(&self) -> Seq<Result<IndexInfoView, RowError>> {
        if self.done {
            indexes_of(self.rows())
        } else {
            self.engine@.emitted
        }
    }

    /// Hands out the next index, or the next row error; `None` when there is
    /// nothing left.
    ///
    /// What successive calls hand out is, item by item, `indexes_of` of the
    /// rows.
    pub fn next(&mut self) -> (out: Option<Result<IndexInfo, RowError>>)
        requires
            old(self).wf(),
        ensures
            final(self).wf(),
            final(self).rows() == old(self).rows(),
            final(self).produced() == old(self).produced() + yielded(out),
            out is None ==> final(self).produced() == indexes_of(final(self).rows()),
    {
        if self.done {
            assert(self.produced() =~= old(self).produced() + yielded::<IndexInfo>(None));
            return None;
        }
        let ghost items = decode_index_rows(self.rows());
        while self.pos < self.results.len()
            invariant
                self.wf(),
                !self.done,
                !old(self).done,
                self.results@ == old(self).results@,
                items == decode_index_rows(self.rows()),
                self.engine@.emitted == old(self).engine@.emitted,
            decreases self.results@.len() - self.pos,
        {
            let item = decode_index_query_result(&self.results[self.pos]);
            let ghost before = self.engine@;
            let out = self.engine.push(self.pos, item);
            proof {
                let p = self.pos as int;
                assert(items.take(p + 1).drop_last() =~= items.take(p));
                assert(items.take(p + 1).last() == items[p]);
                assert(items[p] == decode_index_row(self.results@[p]@));
            }
            self.pos = self.pos + 1;
            if out.is_some() {
                return out;
            }
            assert(self.engine@.emitted =~= before.emitted);
        }
        self.done = true;
        let ghost last = self.engine@;
        assert(items.take(self.pos as int) =~= items);
        let mut fresh: Consolidator<IndexInfo> = Consolidator::new();
        std::mem::swap(&mut self.engine, &mut fresh);
        match fresh.finish() {
            Some(info) => {
                assert(self.produced() =~= old(self).produced() + yielded(
                    Some(Ok::<IndexInfo, RowError>(info)),
                ));
                Some(Ok(info))
            },
            None => {
                assert(self.produced() =~= old(self).produced() + yielded::<IndexInfo>(None));
                None
            },
        }
    }

    /// What has been handed out is the beginning of what the rows
    /// consolidate to.
    pub proof fn lemma_produced_is_prefix(&self)
        requires
            self.wf(),
        ensures
            self.produced().len() <= indexes_of(self.rows()).len(),
            self.produced() == indexes_of(self.rows()).take(self.produced().len() as int),
    {
        if self.done {
            assert(self.produced() =~= self.produced().take(self.produced().len() as int));
        } else {
            lemma_emitted_prefix(decode_index_rows(self.rows()), self.pos as int);
        }
    }

    /// Hands out everything that is left, in order.
    pub fn collect(&mut self) -> (all: Vec<Result<IndexInfo, RowError>>)
        requires
            old(self).wf(),
        ensures
            final(self).wf(),
            final(self).rows() == old(self).rows(),
            final(self).produced() == indexes_of(final(self).rows()),
            old(self).produced() + item_views(all@) == indexes_of(final(self).rows()),
    {
        let mut all: Vec<Result<IndexInfo, RowError>> = Vec::new();
        assert(old(self).produced() + item_views(all@) =~= old(self).produced());
        loop
            invariant
                self.wf(),
                self.rows() == old(self).rows(),
                self.produced() == old(self).produced() + item_views(all@),
            ensures
                self.wf(),
                self.rows() == old(self).rows(),
                self.produced() == old(self).produced() + item_views(all@),
                self.produced() == indexes_of(self.rows()),
            decreases indexes_of(self.rows()).len() - self.produced().len(),
        {
            let ghost before = self.produced();
            proof {
                self.lemma_produced_is_prefix();
            }
            match self.next() {
                Some(item) => {
                    proof {
                        self.lemma_produced_is_prefix();
                    }
                    let ghost prev = all@;
                    all.push(item);
                    assert(item_views(all@) =~= item_views(prev) + seq![item_view(item)]);
                    assert(self.produced() =~= old(self).produced() + item_views(all@));
                },
                None => {
                    assert(self.produced() =~= before);
                    break ;
                },
            }
        }
        all
    }
}

/// What has been emitted after a prefix of the input is a prefix of the
/// whole output.
pub proof fn lemma_emitted_prefix(items: Seq<Result<IndexInfoView, SchemaError>>, n: int)
    requires
        0 <= n <= items.len(),
    ensures
        run::<IndexInfo>(items.take(n)).emitted.len() <= output::<IndexInfo>(items).len(),
        run::<IndexInfo>(items.take(n)).emitted == output::<IndexInfo>(items).take(
            run::<IndexInfo>(items.take(n)).emitted.len() as int,
        ),
    decreases items.len() - n,
{
    let e = run::<IndexInfo>(items.take(n)).emitted;
    if n == items.len() {
        assert(items.take(n) =~= items);
        assert(e =~= output::<IndexInfo>(items).take(e.len() as int));
    } else {
        lemma_emitted_prefix(items, n + 1);
        assert(items.take(n + 1).drop_last() =~= items.take(n));
        let e1 = run::<IndexInfo>(items.take(n + 1)).emitted;
        assert(e =~= e1.take(e.len() as int));
        assert(e =~= output::<IndexInfo>(items).take(e.len() as int));
    }
}

/// The name or expression that an index row indexes.
pub open spec fn indexed_entity(r: IndexRow) -> Seq<char> {
    if r.column_name is Some {
        r.column_name->0
    } else {
        r.expression->0
    }
}

/// The indexed entities of the rows named `name`, in row order.
pub open spec fn columns_named(rows: Seq<IndexRow>, name: Seq<char>) -> Seq<Seq<char>>
    decreases rows.len(),
{
    if rows.len() == 0 {
        Seq::empty()
    } else if rows.last().index_name == name {
        columns_named(rows.drop_last(), name).push(indexed_entity(rows.last()))
    } else {
        columns_named(rows.drop_last(), name)
    }
}

/// How many of the rows are named `name`.
pub open spec fn count_named(rows: Seq<IndexRow>, name: Seq<char>) -> nat
    decreases rows.len(),
{
    if rows.len() == 0 {
        0
    } else if rows.last().index_name == name {
        count_named(rows.drop_last(), name) + 1
    } else {
        count_named(rows.drop_last(), name)
    }
}

/// The index names of the rows, in row order.
pub open spec fn index_names(rows: Seq<IndexRow>) -> Seq<Seq<char>> {
    Seq::new(rows.len(), |i: int| rows[i].index_name)
}

/// Every row can be decoded.
pub open spec fn all_decodable(rows: Seq<IndexRow>) -> bool {
    forall|i: int| 0 <= i < rows.len() ==> index_row_fault(#[trigger] rows[i]) is None
}

/// The rows of each index stand together: no name comes back after another
/// name was seen.
pub open spec fn grouped_by_name(rows: Seq<IndexRow>) -> bool {
    forall|i: int, j: int, k: int|
        #![trigger rows[i], rows[j], rows[k]]
        0 <= i < j < k < rows.len() && rows[i].index_name == rows[k].index_name
            ==> rows[j].index_name == rows[i].index_name
}

/// What holds of the state after decodable rows that are grouped by name.
spec fn consolidated(rows: Seq<IndexRow>, p: Progress<IndexInfoView>) -> bool {
    &&& p.emitted.len() == p.closed.len()
    &&& forall|i: int|
        0 <= i < p.emitted.len() ==> {
            &&& (#[trigger] p.emitted[i]) is Ok
            &&& p.emitted[i]->Ok_0.name == p.closed[i]
            &&& p.emitted[i]->Ok_0.columns == columns_named(rows, p.closed[i])
        }
    &&& p.closed.no_duplicates()
    &&& rows.len() == 0 ==> p.open is None
    &&& rows.len() > 0 ==> {
        &&& p.open is Some
        &&& p.open->0.name == rows.last().index_name
        &&& p.open->0.columns == columns_named(rows, rows.last().index_name)
        &&& !p.closed.contains(rows.last().index_name)
    }
    &&& forall|i: int|
        0 <= i < p.closed.len() ==> index_names(rows).contains(#[trigger] p.closed[i])
    &&& forall|i: int|
        0 <= i < rows.len() ==> p.closed.contains((#[trigger] rows[i]).index_name)
            || rows[i].index_name == rows.last().index_name
}

proof fn lemma_none_named(rows: Seq<IndexRow>, name: Seq<char>)
    requires
        forall|i: int| 0 <= i < rows.len() ==> (#[trigger] rows[i]).index_name != name,
    ensures
        columns_named(rows, name) == Seq::<Seq<char>>::empty(),
    decreases rows.len(),
{
    if rows.len() > 0 {
        let prev = rows.drop_last();
        assert forall|i: int| 0 <= i < prev.len() implies (#[trigger] prev[i]).index_name
            != name by {
            assert(prev[i] == rows[i]);
        }
        lemma_none_named(prev, name);
    }
}

/// As many entities are listed under a name as there are rows of that name.
pub proof fn lemma_columns_named_len(rows: Seq<IndexRow>, name: Seq<char>)
    ensures
        columns_named(rows, name).len() == count_named(rows, name),
    decreases rows.len(),
{
    if rows.len() > 0 {
        lemma_columns_named_len(rows.drop_last(), name);
    }
}

proof fn lemma_consolidated(rows: Seq<IndexRow>)
    requires
        all_decodable(rows),
        grouped_by_name(rows),
    ensures
        consolidated(rows, run::<IndexInfo>(decode_index_rows(rows))),
    decreases rows.len(),
{
    let items = decode_index_rows(rows);
    if rows.len() == 0 {
    } else {
        let prev = rows.drop_last();
        let r = rows.last();
        let n = prev.len() as int;
        assert forall|i: int| 0 <= i < prev.len() implies index_row_fault(#[trigger] prev[i])
            is None by {
            assert(prev[i] == rows[i]);
        }
        assert forall|i: int, j: int, k: int|
            #![trigger prev[i], prev[j], prev[k]]
            0 <= i < j < k < prev.len() && prev[i].index_name == prev[k].index_name
                implies prev[j].index_name == prev[i].index_name by {
            assert(prev[i] == rows[i] && prev[j] == rows[j] && prev[k] == rows[k]);
        }
        lemma_consolidated(prev);
        assert(items.drop_last() =~= decode_index_rows(prev));
        let p = run::<IndexInfo>(decode_index_rows(prev));
        assert(index_row_fault(rows[n]) is None);
        let f = index_of_row(r);
        assert(items.last() == Ok::<IndexInfoView, SchemaError>(f));
        let q = step::<IndexInfo>(p, n, Ok(f));
        assert(q == run::<IndexInfo>(items));
        assert(f.columns =~= seq![indexed_entity(r)]);
        // rows of another name do not change what is listed under a name
        assert forall|c: Seq<char>| c != r.index_name implies #[trigger] columns_named(rows, c)
            == columns_named(prev, c) by {}
        assert forall|i: int| 0 <= i < p.closed.len() implies index_names(rows).contains(
            #[trigger] p.closed[i],
        ) by {
            let j = choose|j: int|
                0 <= j < index_names(prev).len() && index_names(prev)[j] == p.closed[i];
            assert(index_names(rows)[j] == p.closed[i]);
        }
        if n > 0 && p.closed.contains(r.index_name) && p.open->0.name != r.index_name {
            let c = choose|c: int| 0 <= c < p.closed.len() && p.closed[c] == r.index_name;
            let i = choose|i: int|
                0 <= i < index_names(prev).len() && index_names(prev)[i] == p.closed[c];
            assert(rows[i].index_name == r.index_name);
            assert(rows[n - 1] == prev.last());
            assert(rows[n].index_name == r.index_name);
            assert(i < n - 1);
            assert(rows[i].index_name == rows[n].index_name ==> rows[n - 1].index_name
                == rows[i].index_name);
            assert(false);
        }
        if n == 0 {
            assert(p.closed.len() == 0);
            lemma_none_named(prev, r.index_name);
            assert(q.open->0.columns =~= columns_named(rows, r.index_name));
            assert(consolidated(rows, q));
        } else if p.open->0.name == r.index_name {
            assert(q.open->0.columns =~= columns_named(rows, r.index_name));
            assert forall|i: int| 0 <= i < rows.len() implies q.closed.contains(
                (#[trigger] rows[i]).index_name,
            ) || rows[i].index_name == rows.last().index_name by {
                if i < n {
                    assert(prev[i] == rows[i]);
                }
            }
            assert(consolidated(rows, q));
        } else {
            let c = p.open->0;
            assert(q.closed == p.closed.push(c.name));
            assert(q.emitted == p.emitted.push(Ok(c)));
            assert forall|i: int| 0 <= i < prev.len() implies (#[trigger] prev[i]).index_name
                != r.index_name by {
                assert(p.closed.contains(prev[i].index_name) || prev[i].index_name
                    == prev.last().index_name);
            }
            lemma_none_named(prev, r.index_name);
            assert(q.open->0.columns =~= columns_named(rows, r.index_name));
            assert forall|i: int| 0 <= i < q.emitted.len() implies {
                &&& (#[trigger] q.emitted[i]) is Ok
                &&& q.emitted[i]->Ok_0.name == q.closed[i]
                &&& q.emitted[i]->Ok_0.columns == columns_named(rows, q.closed[i])
            } by {
                if i < p.emitted.len() {
                    assert(q.emitted[i] == p.emitted[i]);
                    assert(q.closed[i] == p.closed[i]);
                    assert(p.closed.contains(p.closed[i]));
                } else {
                    assert(q.closed[i] == c.name);
                }
            }
            assert(q.closed.no_duplicates()) by {
                assert forall|i: int, j: int|
                    0 <= i < q.closed.len() && 0 <= j < q.closed.len() && i != j implies q.closed[i]
                    != q.closed[j] by {
                    if i < p.closed.len() {
                        assert(p.closed.contains(p.closed[i]));
                    }
                    if j < p.closed.len() {
                        assert(p.closed.contains(p.closed[j]));
                    }
                }
            }
            assert(!q.closed.contains(r.index_name)) by {
                if q.closed.contains(r.index_name) {
                    let i = choose|i: int| 0 <= i < q.closed.len() && q.closed[i] == r.index_name;
                    if i < p.closed.len() {
                        assert(p.closed.contains(r.index_name));
                    }
                }
            }
            assert forall|i: int| 0 <= i < q.closed.len() implies index_names(rows).contains(
                #[trigger] q.closed[i],
            ) by {
                if i == p.closed.len() {
                    assert(index_names(rows)[n - 1] == c.name);
                } else {
                    assert(q.closed[i] == p.closed[i]);
                }
            }
            assert forall|i: int| 0 <= i < rows.len() implies q.closed.contains(
                (#[trigger] rows[i]).index_name,
            ) || rows[i].index_name == rows.last().index_name by {
                if i < n {
                    assert(prev[i] == rows[i]);
                    if p.closed.contains(prev[i].index_name) {
                        let j = choose|j: int|
                            0 <= j < p.closed.len() && p.closed[j] == prev[i].index_name;
                        assert(q.closed[j] == prev[i].index_name);
                    } else {
                        assert(q.closed[p.closed.len() as int] == c.name);
                    }
                }
            }
            assert(consolidated(rows, q));
        }
    }
}

/// Decodable rows that are grouped by name consolidate to one index for
/// each distinct index name, and no error. Each index lists the indexed
/// entities of the rows of its name, in row order, so as many as there are
/// such rows.
pub proof fn lemma_one_index_per_name(rows: Seq<IndexRow>)
    requires
        all_decodable(rows),
        grouped_by_name(rows),
    ensures
        indexes_of(rows).len() == index_names(rows).to_set().len(),
        forall|i: int|
            0 <= i < indexes_of(rows).len() ==> {
                &&& (#[trigger] indexes_of(rows)[i]) is Ok
                &&& index_names(rows).contains(indexes_of(rows)[i]->Ok_0.name)
                &&& indexes_of(rows)[i]->Ok_0.columns == columns_named(
                    rows,
                    indexes_of(rows)[i]->Ok_0.name,
                )
                &&& indexes_of(rows)[i]->Ok_0.columns.len() == count_named(
                    rows,
                    indexes_of(rows)[i]->Ok_0.name,
                )
            },
{
    lemma_consolidated(rows);
    let p = run::<IndexInfo>(decode_index_rows(rows));
    let out = indexes_of(rows);
    if rows.len() == 0 {
        assert(index_names(rows).to_set() =~= Set::<Seq<char>>::empty());
    } else {
        let last = rows.last().index_name;
        let keys = p.closed.push(last);
        assert(keys.no_duplicates());
        keys.unique_seq_to_set();
        assert(index_names(rows)[rows.len() - 1] == last);
        assert(keys.to_set() =~= index_names(rows).to_set()) by {
            assert forall|x: Seq<char>| keys.contains(x) implies index_names(rows).contains(
                x,
            ) by {
                let i = choose|i: int| 0 <= i < keys.len() && keys[i] == x;
                if i < p.closed.len() {
                    assert(keys[i] == p.closed[i]);
                }
            }
            assert forall|x: Seq<char>| index_names(rows).contains(x) implies keys.contains(
                x,
            ) by {
                let i = choose|i: int| 0 <= i < rows.len() && index_names(rows)[i] == x;
                assert(rows[i].index_name == x);
                if p.closed.contains(x) {
                    let j = choose|j: int| 0 <= j < p.closed.len() && p.closed[j] == x;
                    assert(keys[j] == x);
                } else {
                    assert(keys[p.closed.len() as int] == x);
                }
            }
        }
        assert forall|i: int| 0 <= i < out.len() implies {
            &&& (#[trigger] out[i]) is Ok
            &&& index_names(rows).contains(out[i]->Ok_0.name)
            &&& out[i]->Ok_0.columns == columns_named(rows, out[i]->Ok_0.name)
            &&& out[i]->Ok_0.columns.len() == count_named(rows, out[i]->Ok_0.name)
        } by {
            if i < p.emitted.len() {
                assert(out[i] == p.emitted[i]);
                assert(out[i]->Ok_0.name == p.closed[i]);
            }
            lemma_columns_named_len(rows, out[i]->Ok_0.name);
        }
    }
}

/// Whatever the rows: every index handed out has at least one column, and
/// no two of them have the same name.
pub proof fn lemma_indexes_are_well_formed(rows: Seq<IndexRow>)
    ensures
        forall|i: int|
            0 <= i < indexes_of(rows).len() && (#[trigger] indexes_of(rows)[i]) is Ok
                ==> indexes_of(rows)[i]->Ok_0.columns.len() > 0,
        forall|i: int, j: int|
            #![trigger indexes_of(rows)[i], indexes_of(rows)[j]]
            0 <= i < j < indexes_of(rows).len() && indexes_of(rows)[i] is Ok && indexes_of(
                rows,
            )[j] is Ok ==> indexes_of(rows)[i]->Ok_0.name != indexes_of(rows)[j]->Ok_0.name,
{
    let holds = |v: IndexInfoView| v.columns.len() > 0;
    let items = decode_index_rows(rows);
    assert forall|i: int| 0 <= i < items.len() && (#[trigger] items[i]) is Ok implies holds(
        items[i]->Ok_0,
    ) by {}
    assert forall|a: IndexInfoView, b: IndexInfoView| holds(a) && holds(b) implies holds(
        #[trigger] IndexInfo::merge(a, b),
    ) by {}
    lemma_output_keeps::<IndexInfo>(items, holds);
    lemma_output_keys_differ::<IndexInfo>(items);
}

/// Starts the consolidation of index rows.
///
/// The rows must be sorted by (table name, index name, position in index).
/// A row that cannot be decoded, and a row whose index name comes back after
/// another index was seen, is handed out as an error in its place; the rows
/// after it are processed as if it had not been there.
pub fn parse_index_query_results(results: Vec<IndexQueryResult>) -> (parser: IndexQueryResultParser)
    ensures
        parser.wf(),
        parser.rows() == row_views(results@),
        parser.produced() == Seq::<Result<IndexInfoView, RowError>>::empty(),
{
    let parser = IndexQueryResultParser {
        engine: Consolidator::new(),
        results,
        pos: 0,
        done: false,
    };
    assert(decode_index_rows(parser.rows()).take(0) =~= Seq::empty());
    parser
}

} // verus!
