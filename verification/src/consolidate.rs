//! Grouping of a sorted stream of single-row fragments into aggregates.
//!
//! The rows of a composite entity (the columns of an index, of a unique
//! constraint, of a foreign key) arrive one per row, sorted by the entity's
//! name. [`Consolidator`] walks such a stream once and hands out each entity
//! when its last row has gone by.

use vstd::prelude::*;
use crate::error::{RowError, SchemaError};
use crate::text::{contains_text, str_eq, views};

verus! {

/// A value that stands for one row of a composite entity and can take up
/// the rows that follow it.
pub trait Fragment: View + Sized {
    /// The grouping key of a fragment or aggregate.
    spec fn key(v: Self::V) -> Seq<char>;

    /// The aggregate `acc` after it took up `next`.
    spec fn merge(acc: Self::V, next: Self::V) -> Self::V;

    /// Whether `next` stands behind what `acc` holds in the order of the
    /// group: its sequence number is higher. Where the rows carry no
    /// sequence number this is always true.
    spec fn in_order(acc: Self::V, next: Self::V) -> bool;

    /// Taking up a fragment does not change the aggregate's key.
    proof fn lemma_merge_keeps_key(acc: Self::V, next: Self::V)
        ensures
            Self::key(Self::merge(acc, next)) == Self::key(acc),
    ;

    /// The grouping key as a string.
    fn key_text(&self) -> (k: String)
        ensures
            k@ == Self::key(self@),
    ;

    /// Whether `next` stands behind what this aggregate holds.
    fn accepts(&self, next: &Self) -> (b: bool)
        ensures
            b == Self::in_order(self@, next@),
    ;

    /// Takes up the next fragment of the same group.
    fn absorb(&mut self, next: Self)
        requires
            Self::key(old(self)@) == Self::key(next@),
            Self::in_order(old(self)@, next@),
        ensures
            final(self)@ == Self::merge(old(self)@, next@),
    ;
}

/// What a consolidation has done so far.
pub struct Progress<V> {
    /// Everything handed out so far, in order.
    pub emitted: Seq<Result<V, RowError>>,
    /// The aggregate still being filled.
    pub open: Option<V>,
    /// The keys of the aggregates handed out.
    pub closed: Seq<Seq<char>>,
}

/// The state before any row.
pub open spec fn start<V>() -> Progress<V> {
    Progress { emitted: Seq::empty(), open: None, closed: Seq::empty() }
}

/// The state after one more row, the `row`-th of the input.
pub open spec fn step<F: Fragment>(
    p: Progress<F::V>,
    row: int,
    item: Result<F::V, SchemaError>,
) -> Progress<F::V> {
    match item {
        Err(e) => Progress {
            emitted: p.emitted.push(Err(RowError { row: row as usize, error: e })),
            ..p
        },
        Ok(f) => {
            if p.open is Some && F::key(p.open->0) == F::key(f) && F::in_order(p.open->0, f) {
                Progress { open: Some(F::merge(p.open->0, f)), ..p }
            } else if (p.open is Some && F::key(p.open->0) == F::key(f)) || p.closed.contains(
                F::key(f),
            ) {
                Progress {
                    emitted: p.emitted.push(
                        Err(RowError { row: row as usize, error: SchemaError::StructuralViolation }),
                    ),
                    ..p
                }
            } else {
                match p.open {
                    Some(c) => Progress {
                        emitted: p.emitted.push(Ok(c)),
                        open: Some(f),
                        closed: p.closed.push(F::key(c)),
                    },
                    None => Progress { open: Some(f), ..p },
                }
            }
        },
    }
}

/// The state after all of `items`, taken in order.
pub open spec fn run<F: Fragment>(items: Seq<Result<F::V, SchemaError>>) -> Progress<F::V>
    decreases items.len(),
{
    if items.len() == 0 {
        start()
    } else {
        step::<F>(run::<F>(items.drop_last()), items.len() - 1, items.last())
    }
}

/// Everything a consolidation of `items` hands out: what was emitted on the
/// way, then the aggregate that was still open at the end.
pub open spec fn output<F: Fragment>(items: Seq<Result<F::V, SchemaError>>) -> Seq<
    Result<F::V, RowError>,
> {
    let p = run::<F>(items);
    match p.open {
        Some(c) => p.emitted.push(Ok(c)),
        None => p.emitted,
    }
}

/// The model of an item handed in.
pub open spec fn input_view<F: Fragment>(item: Result<F, SchemaError>) -> Result<F::V, SchemaError> {
    match item {
        Ok(f) => Ok(f@),
        Err(e) => Err(e),
    }
}

/// The model of an item handed out.
pub open spec fn item_view<F: Fragment>(item: Result<F, RowError>) -> Result<F::V, RowError> {
    match item {
        Ok(f) => Ok(f@),
        Err(e) => Err(e),
    }
}

/// The model of an optional item handed out, as a sequence of zero or one.
pub open spec fn yielded<F: Fragment>(out: Option<Result<F, RowError>>) -> Seq<
    Result<F::V, RowError>,
> {
    match out {
        Some(o) => seq![item_view(o)],
        None => Seq::empty(),
    }
}

/// The models of a sequence of items handed in.
pub open spec fn input_views<F: Fragment>(items: Seq<Result<F, SchemaError>>) -> Seq<
    Result<F::V, SchemaError>,
> {
    Seq::new(items.len(), |i: int| input_view(items[i]))
}

/// The models of a sequence of items handed out.
pub open spec fn item_views<F: Fragment>(items: Seq<Result<F, RowError>>) -> Seq<
    Result<F::V, RowError>,
> {
    Seq::new(items.len(), |i: int| item_view(items[i]))
}

/// A streaming group-by over fragments sorted by key.
pub struct Consolidator<F: Fragment> {
    open: Option<F>,
    closed: Vec<String>,
    emitted: Ghost<Seq<Result<F::V, RowError>>>,
}

impl<F: Fragment> View for Consolidator<F> {
    type V = Progress<F::V>;

    closed spec fn view(&self) -> Progress<F::V> {
        Progress {
            emitted: self.emitted@,
            open: match self.open {
                Some(f) => Some(f@),
                None => None,
            },
            closed: views(self.closed@),
        }
    }
}

impl<F: Fragment> Consolidator<F> {
    /// A consolidator that has seen no row.
    pub fn new() -> (c: Self)
        ensures
            c@ == start::<F::V>(),
    {
        let c = Consolidator { open: None, closed: Vec::new(), emitted: Ghost(Seq::empty()) };
        assert(views(c.closed@) =~= Seq::<Seq<char>>::empty());
        c
    }

    /// Takes the next row of the input, the `row`-th, already decoded.
    ///
    /// Returns the aggregate that this row closed, or the error that this
    /// row caused, if any. A row in error leaves the open aggregate as it is.
    pub fn push(&mut self, row: usize, item: Result<F, SchemaError>) -> (out: Option<
        Result<F, RowError>,
    >)
        ensures
            final(self)@ == step::<F>(old(self)@, row as int, input_view(item)),
            final(self)@.emitted == old(self)@.emitted + yielded(out),
    {
        match item {
            Err(e) => {
                let err = RowError { row, error: e };
                self.emitted = Ghost(self.emitted@.push(Err(err)));
                assert(self@.emitted =~= old(self)@.emitted + seq![Err::<F::V, RowError>(err)]);
                Some(Err(err))
            },
            Ok(f) => {
                let k = f.key_text();
                let cur = self.open.take();
                match cur {
                    Some(mut c) => {
                        let ck = c.key_text();
                        let same = str_eq(ck.as_str(), k.as_str());
                        if same && c.accepts(&f) {
                            c.absorb(f);
                            self.open = Some(c);
                            assert(self@.emitted =~= old(self)@.emitted + Seq::empty());
                            None
                        } else if same || contains_text(&self.closed, k.as_str()) {
                            let err = RowError { row, error: SchemaError::StructuralViolation };
                            self.open = Some(c);
                            self.emitted = Ghost(self.emitted@.push(Err(err)));
                            assert(self@.emitted =~= old(self)@.emitted + seq![
                                Err::<F::V, RowError>(err),
                            ]);
                            Some(Err(err))
                        } else {
                            self.closed.push(ck);
                            self.open = Some(f);
                            self.emitted = Ghost(self.emitted@.push(Ok(c@)));
                            assert(views(self.closed@) =~= views(old(self).closed@).push(ck@));
                            assert(self@.emitted =~= old(self)@.emitted + seq![
                                Ok::<F::V, RowError>(c@),
                            ]);
                            Some(Ok(c))
                        }
                    },
                    None => {
                        if contains_text(&self.closed, k.as_str()) {
                            let err = RowError { row, error: SchemaError::StructuralViolation };
                            self.emitted = Ghost(self.emitted@.push(Err(err)));
                            assert(self@.emitted =~= old(self)@.emitted + seq![
                                Err::<F::V, RowError>(err),
                            ]);
                            Some(Err(err))
                        } else {
                            self.open = Some(f);
                            assert(self@.emitted =~= old(self)@.emitted + Seq::empty());
                            None
                        }
                    },
                }
            },
        }
    }

    /// Ends the input: hands out the aggregate that was still open.
    pub fn finish(self) -> (last: Option<F>)
        ensures
            match last {
                Some(f) => self@.open == Some(f@),
                None => self@.open is None,
            },
    {
        self.open
    }
}

/// Consolidates rows that were decoded already: hands out, in order, each
/// aggregate and each row error.
///
/// A row in error, and a row that is out of order (its key came back after
/// another key, or its sequence number is not behind the one before), is
/// handed out as an error in its place and leaves the aggregates as they
/// are.
pub fn consolidate<F: Fragment>(items: Vec<Result<F, SchemaError>>) -> (out: Vec<
    Result<F, RowError>,
>)
    ensures
        item_views(out@) == output::<F>(input_views(items@)),
{
    let ghost all = input_views(items@);
    let mut engine: Consolidator<F> = Consolidator::new();
    let mut out: Vec<Result<F, RowError>> = Vec::new();
    let count: usize = items.len();
    let mut rest = items;
    let mut row: usize = 0;
    let ghost total = count as nat;
    // the input is turned round, so that the rows can be taken in order
    let mut pending: Vec<Result<F, SchemaError>> = Vec::new();
    while rest.len() > 0
        invariant
            rest@.len() + pending@.len() == total,
            input_views(rest@) + input_views(pending@).reverse() =~= all,
        decreases rest@.len(),
    {
        let ghost before_rest = rest@;
        let ghost before_pending = pending@;
        let item = rest.pop().unwrap();
        pending.push(item);
        assert(input_views(rest@) + input_views(pending@).reverse() =~= input_views(
            before_rest,
        ) + input_views(before_pending).reverse());
    }
    assert(input_views(pending@).reverse() =~= all);
    assert(item_views(out@) =~= Seq::empty());
    assert(all.take(0) =~= Seq::empty());
    while pending.len() > 0
        invariant
            row + pending@.len() == total,
            total == all.len(),
            total <= usize::MAX,
            all.take(row as int) + input_views(pending@).reverse() =~= all,
            engine@ == run::<F>(all.take(row as int)),
            item_views(out@) == engine@.emitted,
        decreases pending@.len(),
    {
        let ghost before = pending@;
        let ghost emitted = engine@.emitted;
        let ghost views = item_views(out@);
        let item = pending.pop().unwrap();
        proof {
            assert(input_views(before).reverse()[0] == input_view(item));
            assert(all[row as int] == input_view(item));
            assert(all.take(row + 1).drop_last() =~= all.take(row as int));
        }
        match engine.push(row, item) {
            Some(o) => {
                out.push(o);
                assert(item_views(out@) =~= views + seq![item_view(o)]);
            },
            None => {
                assert(engine@.emitted =~= emitted);
            },
        }
        row = row + 1;
        assert(all.take(row as int) + input_views(pending@).reverse() =~= all);
    }
    assert(all.take(row as int) =~= all);
    let ghost emitted = engine@.emitted;
    let ghost views = item_views(out@);
    match engine.finish() {
        Some(f) => {
            out.push(Ok(f));
            assert(item_views(out@) =~= views + seq![Ok::<F::V, RowError>(f@)]);
        },
        None => {},
    }
    out
}

/// What holds of every fragment, and of an aggregate with the fragment it
/// takes up, holds of every aggregate handed out.
pub proof fn lemma_output_keeps<F: Fragment>(
    items: Seq<Result<F::V, SchemaError>>,
    holds: spec_fn(F::V) -> bool,
)
    requires
        forall|i: int| 0 <= i < items.len() && (#[trigger] items[i]) is Ok ==> holds(items[i]->Ok_0),
        forall|a: F::V, b: F::V| holds(a) && holds(b) ==> holds(#[trigger] F::merge(a, b)),
    ensures
        forall|i: int|
            0 <= i < output::<F>(items).len() && (#[trigger] output::<F>(items)[i]) is Ok
                ==> holds(output::<F>(items)[i]->Ok_0),
{
    lemma_run_keeps::<F>(items, holds);
}

proof fn lemma_run_keeps<F: Fragment>(
    items: Seq<Result<F::V, SchemaError>>,
    holds: spec_fn(F::V) -> bool,
)
    requires
        forall|i: int| 0 <= i < items.len() && (#[trigger] items[i]) is Ok ==> holds(items[i]->Ok_0),
        forall|a: F::V, b: F::V| holds(a) && holds(b) ==> holds(#[trigger] F::merge(a, b)),
    ensures
        run::<F>(items).open is Some ==> holds(run::<F>(items).open->0),
        forall|i: int|
            0 <= i < run::<F>(items).emitted.len() && (#[trigger] run::<F>(items).emitted[i])
                is Ok ==> holds(run::<F>(items).emitted[i]->Ok_0),
    decreases items.len(),
{
    if items.len() > 0 {
        let prev = items.drop_last();
        assert forall|i: int| 0 <= i < prev.len() && (#[trigger] prev[i]) is Ok implies holds(
            prev[i]->Ok_0,
        ) by {
            assert(prev[i] == items[i]);
        }
        lemma_run_keeps::<F>(prev, holds);
        let p = run::<F>(prev);
        let q = run::<F>(items);
        assert(items.last() == items[items.len() - 1]);
        assert forall|i: int| 0 <= i < q.emitted.len() && (#[trigger] q.emitted[i]) is Ok implies holds(
            q.emitted[i]->Ok_0,
        ) by {
            if i < p.emitted.len() {
                assert(q.emitted[i] == p.emitted[i]);
            }
        }
    }
}

proof fn lemma_run_keys<F: Fragment>(items: Seq<Result<F::V, SchemaError>>)
    ensures
        forall|i: int, j: int|
            #![trigger run::<F>(items).emitted[i], run::<F>(items).emitted[j]]
            0 <= i < j < run::<F>(items).emitted.len() && run::<F>(items).emitted[i] is Ok
                && run::<F>(items).emitted[j] is Ok ==> F::key(
                run::<F>(items).emitted[i]->Ok_0,
            ) != F::key(run::<F>(items).emitted[j]->Ok_0),
        forall|i: int|
            0 <= i < run::<F>(items).emitted.len() && (#[trigger] run::<F>(items).emitted[i])
                is Ok ==> run::<F>(items).closed.contains(
                F::key(run::<F>(items).emitted[i]->Ok_0),
            ),
        run::<F>(items).open is Some ==> !run::<F>(items).closed.contains(
            F::key(run::<F>(items).open->0),
        ),
    decreases items.len(),
{
    if items.len() > 0 {
        let prev = items.drop_last();
        lemma_run_keys::<F>(prev);
        let p = run::<F>(prev);
        let q = run::<F>(items);
        match items.last() {
            Err(_) => {
                assert forall|i: int|
                    0 <= i < q.emitted.len() && (#[trigger] q.emitted[i]) is Ok implies q.closed.contains(
                    F::key(q.emitted[i]->Ok_0),
                ) by {
                    assert(q.emitted[i] == p.emitted[i]);
                }
                assert forall|i: int, j: int|
                    #![trigger q.emitted[i], q.emitted[j]]
                    0 <= i < j < q.emitted.len() && q.emitted[i] is Ok && q.emitted[j]
                        is Ok implies F::key(q.emitted[i]->Ok_0) != F::key(q.emitted[j]->Ok_0) by {
                    assert(q.emitted[i] == p.emitted[i]);
                    assert(q.emitted[j] == p.emitted[j]);
                }
            },
            Ok(f) => {
                if p.open is Some && F::key(p.open->0) == F::key(f) && F::in_order(p.open->0, f) {
                    F::lemma_merge_keeps_key(p.open->0, f);
                } else if (p.open is Some && F::key(p.open->0) == F::key(f)) || p.closed.contains(
                    F::key(f),
                ) {
                    assert forall|i: int|
                        0 <= i < q.emitted.len() && (#[trigger] q.emitted[i])
                            is Ok implies q.closed.contains(F::key(q.emitted[i]->Ok_0)) by {
                        assert(q.emitted[i] == p.emitted[i]);
                    }
                    assert forall|i: int, j: int|
                        #![trigger q.emitted[i], q.emitted[j]]
                        0 <= i < j < q.emitted.len() && q.emitted[i] is Ok && q.emitted[j]
                            is Ok implies F::key(q.emitted[i]->Ok_0) != F::key(
                        q.emitted[j]->Ok_0,
                    ) by {
                        assert(q.emitted[i] == p.emitted[i]);
                        assert(q.emitted[j] == p.emitted[j]);
                    }
                } else if p.open is Some {
                    let c = p.open->0;
                    let n = p.emitted.len() as int;
                    assert(q.closed == p.closed.push(F::key(c)));
                    assert(q.closed[p.closed.len() as int] == F::key(c));
                    assert forall|k: Seq<char>| p.closed.contains(k) implies q.closed.contains(
                        k,
                    ) by {
                        let w = choose|w: int| 0 <= w < p.closed.len() && p.closed[w] == k;
                        assert(q.closed[w] == k);
                    }
                    assert forall|i: int|
                        0 <= i < q.emitted.len() && (#[trigger] q.emitted[i])
                            is Ok implies q.closed.contains(F::key(q.emitted[i]->Ok_0)) by {
                        if i < n {
                            assert(q.emitted[i] == p.emitted[i]);
                        }
                    }
                    assert forall|i: int, j: int|
                        #![trigger q.emitted[i], q.emitted[j]]
                        0 <= i < j < q.emitted.len() && q.emitted[i] is Ok && q.emitted[j]
                            is Ok implies F::key(q.emitted[i]->Ok_0) != F::key(
                        q.emitted[j]->Ok_0,
                    ) by {
                        assert(q.emitted[i] == p.emitted[i]);
                        if j < n {
                            assert(q.emitted[j] == p.emitted[j]);
                        }
                    }
                    if q.closed.contains(F::key(f)) {
                        let w = choose|w: int| 0 <= w < q.closed.len() && q.closed[w] == F::key(f);
                        if w < p.closed.len() {
                            assert(p.closed[w] == F::key(f));
                        }
                    }
                }
            },
        }
    }
}

/// No two aggregates that a consolidation hands out have the same key,
/// whatever the rows and their order.
pub proof fn lemma_output_keys_differ<F: Fragment>(items: Seq<Result<F::V, SchemaError>>)
    ensures
        forall|i: int, j: int|
            #![trigger output::<F>(items)[i], output::<F>(items)[j]]
            0 <= i < j < output::<F>(items).len() && output::<F>(items)[i] is Ok && output::<F>(
                items,
            )[j] is Ok ==> F::key(output::<F>(items)[i]->Ok_0) != F::key(
                output::<F>(items)[j]->Ok_0,
            ),
{
    lemma_run_keys::<F>(items);
    let p = run::<F>(items);
    let out = output::<F>(items);
    assert forall|i: int, j: int|
        #![trigger out[i], out[j]]
        0 <= i < j < out.len() && out[i] is Ok && out[j] is Ok implies F::key(out[i]->Ok_0)
        != F::key(out[j]->Ok_0) by {
        assert(out[i] == p.emitted[i]);
        if j < p.emitted.len() {
            assert(out[j] == p.emitted[j]);
        }
    }
}

/// The aggregates among what was handed out, in order.
pub open spec fn aggregates<V>(out: Seq<Result<V, RowError>>) -> Seq<V>
    decreases out.len(),
{
    if out.len() == 0 {
        Seq::empty()
    } else {
        match out.last() {
            Ok(v) => aggregates(out.drop_last()).push(v),
            Err(_) => aggregates(out.drop_last()),
        }
    }
}

/// The rows without the rows in error, in order.
pub open spec fn without_errors<V>(items: Seq<Result<V, SchemaError>>) -> Seq<
    Result<V, SchemaError>,
>
    decreases items.len(),
{
    if items.len() == 0 {
        Seq::empty()
    } else {
        match items.last() {
            Ok(v) => without_errors(items.drop_last()).push(Ok(v)),
            Err(_) => without_errors(items.drop_last()),
        }
    }
}

proof fn lemma_run_without_errors<F: Fragment>(items: Seq<Result<F::V, SchemaError>>)
    ensures
        run::<F>(items).open == run::<F>(without_errors(items)).open,
        run::<F>(items).closed == run::<F>(without_errors(items)).closed,
        aggregates(run::<F>(items).emitted) == aggregates(
            run::<F>(without_errors(items)).emitted,
        ),
    decreases items.len(),
{
    if items.len() > 0 {
        let prev = items.drop_last();
        lemma_run_without_errors::<F>(prev);
        let p = run::<F>(prev);
        let clean = without_errors(prev);
        let c = run::<F>(clean);
        match items.last() {
            Err(e) => {
                let q = run::<F>(items);
                assert(q.emitted.drop_last() =~= p.emitted);
            },
            Ok(f) => {
                let next = clean.push(Ok(f));
                assert(next.drop_last() =~= clean);
                assert(without_errors(items) == next);
                let q = run::<F>(items);
                let d = run::<F>(next);
                if q.emitted.len() > p.emitted.len() {
                    assert(q.emitted.drop_last() =~= p.emitted);
                    assert(d.emitted.drop_last() =~= c.emitted);
                }
            },
        }
    }
}

/// A row in error does not touch the aggregates: with the rows in error
/// taken out of the input, the same aggregates are handed out.
pub proof fn lemma_errors_leave_aggregates<F: Fragment>(items: Seq<Result<F::V, SchemaError>>)
    ensures
        aggregates(output::<F>(items)) == aggregates(output::<F>(without_errors(items))),
{
    lemma_run_without_errors::<F>(items);
    let p = run::<F>(items);
    let c = run::<F>(without_errors(items));
    if p.open is Some {
        assert(output::<F>(items).drop_last() =~= p.emitted);
        assert(output::<F>(without_errors(items)).drop_last() =~= c.emitted);
    }
}

/// The row errors among what was handed out, in order.
pub open spec fn failures<V>(out: Seq<Result<V, RowError>>) -> Seq<RowError>
    decreases out.len(),
{
    if out.len() == 0 {
        Seq::empty()
    } else {
        match out.last() {
            Ok(_) => failures(out.drop_last()),
            Err(e) => failures(out.drop_last()).push(e),
        }
    }
}

/// Where no row error was handed out, the aggregates are all that was
/// handed out.
pub proof fn lemma_no_failures<V>(out: Seq<Result<V, RowError>>)
    requires
        failures(out).len() == 0,
    ensures
        aggregates(out).len() == out.len(),
        forall|i: int| 0 <= i < out.len() ==> #[trigger] out[i] == Ok::<V, RowError>(
            aggregates(out)[i],
        ),
    decreases out.len(),
{
    if out.len() > 0 {
        let prev = out.drop_last();
        lemma_no_failures(prev);
        assert forall|i: int| 0 <= i < out.len() implies #[trigger] out[i] == Ok::<V, RowError>(
            aggregates(out)[i],
        ) by {
            if i < prev.len() {
                assert(out[i] == prev[i]);
            }
        }
    }
}

/// Parts what was handed out into the aggregates and the row errors.
pub fn split<F: Fragment>(out: Vec<Result<F, RowError>>) -> (r: (Vec<F>, Vec<RowError>))
    ensures
        Seq::new(r.0@.len(), |i: int| r.0@[i]@) == aggregates(item_views(out@)),
        r.1@ == failures(item_views(out@)),
{
    let ghost all = item_views(out@);
    let mut pending: Vec<Result<F, RowError>> = Vec::new();
    let mut rest = out;
    while rest.len() > 0
        invariant
            item_views(rest@) + item_views(pending@).reverse() =~= all,
        decreases rest@.len(),
    {
        let ghost r0 = rest@;
        let ghost p0 = pending@;
        let item = rest.pop().unwrap();
        pending.push(item);
        assert(item_views(rest@) + item_views(pending@).reverse() =~= item_views(r0)
            + item_views(p0).reverse());
    }
    assert(item_views(pending@).reverse() =~= all);
    let mut good: Vec<F> = Vec::new();
    let mut bad: Vec<RowError> = Vec::new();
    let ghost mut done: int = 0;
    assert(all.take(0) =~= Seq::empty());
    assert(Seq::new(good@.len(), |i: int| good@[i]@) =~= aggregates(all.take(0)));
    while pending.len() > 0
        invariant
            0 <= done <= all.len(),
            done + pending@.len() == all.len(),
            all.take(done) + item_views(pending@).reverse() =~= all,
            Seq::new(good@.len(), |i: int| good@[i]@) == aggregates(all.take(done)),
            bad@ == failures(all.take(done)),
        decreases pending@.len(),
    {
        let ghost p0 = pending@;
        let ghost g0 = Seq::new(good@.len(), |i: int| good@[i]@);
        let item = pending.pop().unwrap();
        proof {
            assert(item_views(p0).reverse()[0] == item_view(item));
            assert(all[done] == item_view(item));
            assert(all.take(done + 1).drop_last() =~= all.take(done));
            assert(all.take(done + 1).last() == item_view(item));
        }
        match item {
            Ok(f) => {
                good.push(f);
                assert(Seq::new(good@.len(), |i: int| good@[i]@) =~= g0.push(f@));
            },
            Err(e) => {
                bad.push(e);
            },
        }
        proof {
            done = done + 1;
        }
        assert(all.take(done) + item_views(pending@).reverse() =~= all);
    }
    assert(all.take(done) =~= all);
    (good, bad)
}

} // verus!
