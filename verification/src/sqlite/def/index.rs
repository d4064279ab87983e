//! The columns of an index, read from the statement that created it.

use vstd::prelude::*;
use vstd::string::*;
use crate::text::{append_without, scan, span_end, to_chars, views, without, CharClass};

verus! {

/// Maps all the columns in an index as a result of using query
/// `SELECT * FROM sqlite_master where name = 'index_name'`
#[derive(Clone, Debug, Default, PartialEq)]
pub struct IndexedColumns {
    pub kind: String,
    pub name: String,
    pub table: String,
    pub root_page: i32,
    pub indexed_columns: Vec<String>,
}

/// Where the word `ON` first starts at or behind `i`; the length of the
/// text where it does not.
pub open spec fn find_on(t: Seq<char>, i: int) -> int
    decreases t.len() - i,
{
    if i < 0 || i + 1 >= t.len() {
        t.len() as int
    } else if t[i] == 'O' && t[i + 1] == 'N' {
        i
    } else {
        find_on(t, i + 1)
    }
}

/// Where `c` first stands at or behind `i` and before `end`; `end` where
/// it does not.
pub open spec fn find_char(t: Seq<char>, i: int, end: int, c: char) -> int
    decreases end - i,
{
    if i < 0 || i >= end || end > t.len() {
        end
    } else if t[i] == c {
        i
    } else {
        find_char(t, i + 1, end, c)
    }
}

/// The end of the text from `i` up to `j` without the spaces at its end.
pub open spec fn trim_end(t: Seq<char>, i: int, j: int) -> int
    decreases j - i,
{
    if i < j <= t.len() && t[j - 1] == ' ' {
        trim_end(t, i, j - 1)
    } else {
        j
    }
}

/// Where the text from `i` up to `j` starts behind the spaces at its
/// start.
pub open spec fn trim_start(t: Seq<char>, i: int, j: int) -> int {
    if span_end(t, i, CharClass::Space) < j {
        span_end(t, i, CharClass::Space)
    } else {
        j
    }
}

/// The column name that stands from `i` up to `j`: without the spaces
/// around it, and without backticks and double quotes.
pub open spec fn column_at(t: Seq<char>, i: int, j: int) -> Seq<char> {
    without(t.subrange(trim_start(t, i, j), trim_end(t, trim_start(t, i, j), j)), '`', '"')
}

/// The column names that stand from `i` up to `end`, with commas between
/// them.
pub open spec fn split_columns(t: Seq<char>, i: int, end: int) -> Seq<Seq<char>>
    decreases end - i,
{
    let j = find_char(t, i, end, ',');
    if i <= j < end {
        seq![column_at(t, i, j)] + split_columns(t, j + 1, end)
    } else {
        seq![column_at(t, i, end)]
    }
}

/// The columns of an index, by the statement that created it: the names
/// between the first `(` behind the first `ON` and the `)` that follows, in
/// their order. A statement without `ON` or without `(` has no columns.
pub open spec fn columns_of_sql(t: Seq<char>) -> Seq<Seq<char>> {
    let on = find_on(t, 0);
    let open = find_char(t, on + 2, t.len() as int, '(');
    let close = find_char(t, open + 1, t.len() as int, ')');
    if on >= t.len() || open >= t.len() {
        Seq::empty()
    } else {
        split_columns(t, open + 1, close)
    }
}

fn seek_on(t: &Vec<char>) -> (r: usize)
    ensures
        r == find_on(t@, 0),
        r == t@.len() || r + 1 < t@.len(),
{
    let mut i: usize = 0;
    while t.len() - i > 1
        invariant
            find_on(t@, 0) == find_on(t@, i as int),
            i <= t@.len(),
        decreases t@.len() - i,
    {
        if t[i] == 'O' && t[i + 1] == 'N' {
            return i;
        }
        i += 1;
    }
    t.len()
}

fn seek_char(t: &Vec<char>, from: usize, end: usize, c: char) -> (r: usize)
    requires
        end <= t@.len(),
    ensures
        r == find_char(t@, from as int, end as int, c),
        from <= end ==> from <= r <= end,
{
    let mut i: usize = from;
    while i < end
        invariant
            end <= t@.len(),
            from <= i,
            from <= end ==> i <= end,
            find_char(t@, from as int, end as int, c) == find_char(t@, i as int, end as int, c),
        decreases end - i,
    {
        if t[i] == c {
            return i;
        }
        i += 1;
    }
    end
}

fn read_column(text: &str, t: &Vec<char>, i: usize, j: usize) -> (r: String)
    requires
        text@ == t@,
        i <= j <= t@.len(),
    ensures
        r@ == column_at(t@, i as int, j as int),
{
    let mut a = scan(t, i, CharClass::Space);
    if a > j {
        a = j;
    }
    let mut b: usize = j;
    while a < b && t[b - 1] == ' '
        invariant
            a <= b <= j <= t@.len(),
            trim_end(t@, a as int, j as int) == trim_end(t@, a as int, b as int),
        decreases b - a,
    {
        b -= 1;
    }
    let mut out = String::new();
    append_without(&mut out, text, t, a, b, '`', '"');
    assert(out@ =~= without(t@.subrange(a as int, b as int), '`', '"'));
    out
}

/// The columns of an index, by the statement that created it.
pub fn parse_indexed_columns(sql: &str) -> (r: Vec<String>)
    ensures
        views(r@) == columns_of_sql(sql@),
{
    let t = to_chars(sql);
    let mut out: Vec<String> = Vec::new();
    let on = seek_on(&t);
    if on >= t.len() {
        assert(views(out@) =~= Seq::empty());
        return out;
    }
    let open = seek_char(&t, on + 2, t.len(), '(');
    if open >= t.len() {
        assert(views(out@) =~= Seq::empty());
        return out;
    }
    let close = seek_char(&t, open + 1, t.len(), ')');
    let mut i: usize = open + 1;
    assert(views(out@) + split_columns(t@, i as int, close as int) =~= split_columns(
        t@,
        i as int,
        close as int,
    ));
    loop
        invariant_except_break
            views(out@) + split_columns(t@, i as int, close as int) == split_columns(
                t@,
                open + 1,
                close as int,
            ),
        invariant
            t@ == sql@,
            open + 1 <= i <= close <= t@.len(),
        ensures
            views(out@) == split_columns(t@, open + 1, close as int),
        decreases close - i,
    {
        let j = seek_char(&t, i, close, ',');
        let ghost before = views(out@);
        if j < close {
            let column = read_column(sql, &t, i, j);
            out.push(column);
            assert(views(out@) =~= before + seq![column_at(t@, i as int, j as int)]);
            assert(views(out@) + split_columns(t@, j + 1, close as int) =~= before
                + split_columns(t@, i as int, close as int));
            i = j + 1;
        } else {
            let column = read_column(sql, &t, i, close);
            out.push(column);
            assert(views(out@) =~= before + seq![column_at(t@, i as int, close as int)]);
            break ;
        }
    }
    out
}

impl IndexedColumns {
    /// The index of a row of `sqlite_master`, with the columns that the
    /// row's statement names.
    pub fn new(kind: String, name: String, table: String, root_page: i32, sql: &str) -> (r:
        IndexedColumns)
        ensures
            r.kind == kind,
            r.name == name,
            r.table == table,
            r.root_page == root_page,
            views(r.indexed_columns@) == columns_of_sql(sql@),
    {
        IndexedColumns { kind, name, table, root_page, indexed_columns: parse_indexed_columns(sql) }
    }
}

} // verus!
