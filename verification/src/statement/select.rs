//! `SELECT` statements on the catalog.

use sea_query::ExprTrait;
use vstd::prelude::*;

verus! {

/// `sea_query::SelectStatement`, a `SELECT` statement of the builder;
/// nothing is known of it but what the functions below state of its model.
#[verifier::external_type_specification]
#[verifier::external_body]
pub struct ExSelectStatement(sea_query::SelectStatement);

/// `sea_query::Expr`, an expression of the builder; nothing is known of it
/// but what the functions below state of its model.
#[verifier::external_type_specification]
#[verifier::external_body]
pub struct ExExpr(sea_query::Expr);

/// What is selected.
pub enum SelectedModel {
    /// A column.
    Column(Seq<char>),
    /// A column under another name.
    ColumnAs(Seq<char>, Seq<char>),
}

/// An expression, as far as the queries make one.
pub enum ExprModel {
    /// Text that the builder writes as it is.
    Custom(Seq<char>),
    /// Any other expression.
    Other,
}

/// A condition that the rows must meet.
pub enum FilterModel {
    /// The column equals the text.
    ColumnEquals(Seq<char>, Seq<char>),
    /// The expression equals the column of the table.
    ExprEqualsColumn(ExprModel, Seq<char>, Seq<char>),
}

/// What the queries put into a `SELECT` statement.
pub struct SelectModel {
    /// What is selected, in order.
    pub selected: Seq<SelectedModel>,
    /// The tables selected from, each with its schema.
    pub from: Seq<(Seq<char>, Seq<char>)>,
    /// The conditions, all of which the rows must meet.
    pub filters: Seq<FilterModel>,
    /// The columns that the rows are sorted by, ascending.
    pub order: Seq<Seq<char>>,
    /// Whether the conditions were started with `and_or_where`, after which
    /// the builder refuses `and_where`.
    pub chained: bool,
}

/// The selected expressions, tables, conditions and sort columns that a
/// `sea_query::SelectStatement` holds.
pub uninterp spec fn select_model(s: sea_query::SelectStatement) -> SelectModel;

/// What a `sea_query::Expr` holds.
pub uninterp spec fn expr_model(e: sea_query::Expr) -> ExprModel;

/// `sea_query::Expr::cust`: an expression of the given text.
#[verifier::external_body]
pub(crate) fn expr_custom(text: &str) -> (e: sea_query::Expr)
    ensures
        expr_model(e) == ExprModel::Custom(text@),
{
    sea_query::Expr::cust(text.to_owned())
}

/// `sea_query::Query::select`: a statement that holds nothing.
#[verifier::external_body]
pub(crate) fn select_new() -> (s: sea_query::SelectStatement)
    ensures
        select_model(s) == (SelectModel {
            selected: Seq::empty(),
            from: Seq::empty(),
            filters: Seq::empty(),
            order: Seq::empty(),
            chained: false,
        }),
{
    sea_query::Query::select()
}

/// `sea_query::SelectStatement::column` with an `Alias`: puts the column
/// behind what is selected and leaves the rest.
#[verifier::external_body]
pub(crate) fn select_column(s: &mut sea_query::SelectStatement, column: &str)
    ensures
        select_model(*final(s)) == (SelectModel {
            selected: select_model(*old(s)).selected.push(SelectedModel::Column(column@)),
            ..select_model(*old(s))
        }),
{
    s.column(sea_query::Alias::new(column));
}

/// `sea_query::SelectStatement::expr_as` with `sea_query::Expr::col`: puts
/// the column, under the other name, behind what is selected and leaves
/// the rest.
#[verifier::external_body]
pub(crate) fn select_column_as(s: &mut sea_query::SelectStatement, column: &str, alias: &str)
    ensures
        select_model(*final(s)) == (SelectModel {
            selected: select_model(*old(s)).selected.push(
                SelectedModel::ColumnAs(column@, alias@),
            ),
            ..select_model(*old(s))
        }),
{
    s.expr_as(sea_query::Expr::col(sea_query::Alias::new(column)), sea_query::Alias::new(alias));
}

/// `sea_query::SelectStatement::from` with a pair of `Alias`: puts the
/// table of the schema behind the tables selected from and leaves the
/// rest.
#[verifier::external_body]
pub(crate) fn select_from(s: &mut sea_query::SelectStatement, schema: &str, table: &str)
    ensures
        select_model(*final(s)) == (SelectModel {
            from: select_model(*old(s)).from.push((schema@, table@)),
            ..select_model(*old(s))
        }),
{
    s.from((sea_query::Alias::new(schema), sea_query::Alias::new(table)));
}

/// `sea_query::SelectStatement::and_where` with the column compared to the
/// text by `ExprTrait::eq`: puts the condition behind the conditions that
/// are there and leaves the rest. The builder panics where the conditions
/// were started with `and_or_where`.
#[verifier::external_body]
pub(crate) fn select_where_equals(s: &mut sea_query::SelectStatement, column: &str, value: &str)
    requires
        !select_model(*old(s)).chained,
    ensures
        select_model(*final(s)) == (SelectModel {
            filters: select_model(*old(s)).filters.push(
                FilterModel::ColumnEquals(column@, value@),
            ),
            ..select_model(*old(s))
        }),
{
    s.and_where(sea_query::Expr::col(sea_query::Alias::new(column)).eq(value.to_owned()));
}

/// `sea_query::SelectStatement::and_where` with the expression compared to
/// the column of the table by `ExprTrait::equals`: puts the condition
/// behind the conditions that are there and leaves the rest. The builder
/// panics where the conditions were started with `and_or_where`.
#[verifier::external_body]
pub(crate) fn select_where_expr_equals_column(
    s: &mut sea_query::SelectStatement,
    e: sea_query::Expr,
    table: &str,
    column: &str,
)
    requires
        !select_model(*old(s)).chained,
    ensures
        select_model(*final(s)) == (SelectModel {
            filters: select_model(*old(s)).filters.push(
                FilterModel::ExprEqualsColumn(expr_model(e), table@, column@),
            ),
            ..select_model(*old(s))
        }),
{
    s.and_where(e.equals((sea_query::Alias::new(table), sea_query::Alias::new(column))));
}

/// `sea_query::SelectStatement::order_by` with an `Alias` and
/// `sea_query::Order::Asc`: puts the column behind the sort columns and
/// leaves the rest.
#[verifier::external_body]
pub(crate) fn select_order_by_asc(s: &mut sea_query::SelectStatement, column: &str)
    ensures
        select_model(*final(s)) == (SelectModel {
            order: select_model(*old(s)).order.push(column@),
            ..select_model(*old(s))
        }),
{
    s.order_by(sea_query::Alias::new(column), sea_query::Order::Asc);
}

} // verus!
