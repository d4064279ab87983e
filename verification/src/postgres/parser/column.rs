//! Decoding of column rows.

use vstd::prelude::*;
use vstd::string::*;
use crate::error::{CatalogField, SchemaError};
use crate::postgres::def::column::{
    expression_view, unique_views, ColumnExpression, ColumnInfo, ColumnInfoView, ColumnType,
};
use crate::postgres::def::constraints::{NotNull, Unique};
use crate::postgres::def::types::{
    is_arbitrary_precision, ArbitraryPrecisionNumericAttr, Type, TypeView,
};
use crate::postgres::parser::constraints::{parse_unique_query_results, unique_of_rows};
use crate::postgres::parser::sentinel::{yes_or_no, yes_or_no_to_bool};
use crate::postgres::query::column::{ColumnQueryResult, ColumnRow};
use crate::postgres::query::constraints::unique::UniqueQueryResult;
use crate::text::{lower, lower_eq, scan, span_end, to_chars, CharClass};

verus! {

/// What is put behind a type name that is not known.
pub open spec fn unknown_reason() -> Seq<char> {
    " is unknown or unimplemented"@
}

/// The type that a type name stands for, letter case aside; a name that
/// is not known gives `Unknown` with the name and the reason.
pub open spec fn type_of_name(name: Seq<char>) -> TypeView {
    let w = lower(name);
    if w == "smallint"@ || w == "int2"@ {
        TypeView::SmallInt
    } else if w == "integer"@ || w == "int"@ || w == "int4"@ {
        TypeView::Integer
    } else if w == "bigint"@ || w == "int8"@ {
        TypeView::BigInt
    } else if w == "decimal"@ {
        TypeView::Decimal(ArbitraryPrecisionNumericAttr { precision: None, scale: None })
    } else if w == "numeric"@ {
        TypeView::Numeric(ArbitraryPrecisionNumericAttr { precision: None, scale: None })
    } else if w == "real"@ || w == "float4"@ {
        TypeView::Real
    } else if w == "double precision"@ || w == "double"@ || w == "float8"@ {
        TypeView::DoublePrecision
    } else if w == "smallserial"@ || w == "serial2"@ {
        TypeView::SmallSerial
    } else if w == "serial"@ || w == "serial4"@ {
        TypeView::Serial
    } else if w == "bigserial"@ || w == "serial8"@ {
        TypeView::BigSerial
    } else {
        TypeView::Unknown(name + unknown_reason())
    }
}

/// A number of the catalog as an attribute; a number that does not fit is
/// left out.
pub open spec fn attribute_of(n: Option<i32>) -> Option<u16> {
    match n {
        Some(v) => if 0 <= v <= u16::MAX {
            Some(v as u16)
        } else {
            None
        },
        None => None,
    }
}

/// The type with precision and scale filled in from the catalog; `None`
/// for a type that carries no such attributes.
pub open spec fn with_numeric_attributes(
    precision: Option<i32>,
    scale: Option<i32>,
    v: TypeView,
) -> Option<TypeView> {
    let attr = ArbitraryPrecisionNumericAttr {
        precision: attribute_of(precision),
        scale: attribute_of(scale),
    };
    match v {
        TypeView::Decimal(_) => Some(TypeView::Decimal(attr)),
        TypeView::Numeric(_) => Some(TypeView::Numeric(attr)),
        _ => None,
    }
}

/// The type of a column row: the type of the name that its declaration
/// starts with, the longest run of letters, digits and underscores, with
/// precision and scale from the row where the type carries them. The
/// empty declaration is `Unknown` with an empty text.
pub open spec fn type_of_row(r: ColumnRow) -> TypeView {
    if r.column_type.len() == 0 {
        TypeView::Unknown(Seq::empty())
    } else {
        let e = span_end(r.column_type, 0, CharClass::Name);
        let v = type_of_name(r.column_type.subrange(0, e));
        if is_arbitrary_precision(v) {
            with_numeric_attributes(r.numeric_precision, r.numeric_scale, v)->0
        } else {
            v
        }
    }
}

/// The unique constraints that the rows of each constraint make; the
/// first constraint in error decides. No constraint at all is `None`.
pub open spec fn uniques_of(results: Seq<Vec<UniqueQueryResult>>) -> Result<
    Seq<Seq<Seq<char>>>,
    SchemaError,
>
    decreases results.len(),
{
    if results.len() == 0 {
        Ok(Seq::empty())
    } else {
        match uniques_of(results.drop_last()) {
            Err(e) => Err(e),
            Ok(before) => match unique_of_rows(results.last()@) {
                Err(e) => Err(e),
                Ok(u) => Ok(before.push(u)),
            },
        }
    }
}

/// What a column row and the rows of its unique constraints decode to.
/// The nullability flag is looked at first.
pub open spec fn decode_column_row(r: ColumnRow, uniques: Seq<Vec<UniqueQueryResult>>) -> Result<
    ColumnInfoView,
    SchemaError,
> {
    if yes_or_no(r.is_nullable) is None {
        Err(SchemaError::MalformedSentinel(CatalogField::IsNullable))
    } else {
        match uniques_of(uniques) {
            Err(e) => Err(e),
            Ok(u) => Ok(
                ColumnInfoView {
                    name: r.column_name,
                    col_type: type_of_row(r),
                    default: r.column_default,
                    generated: r.column_generated,
                    not_null: !(yes_or_no(r.is_nullable)->0),
                    unique: if u.len() == 0 {
                        None
                    } else {
                        Some(u)
                    },
                    primary_key: None,
                    references: None,
                },
            ),
        }
    }
}

/// Decodes a column row and the rows of the unique constraints that the
/// column is part of, one list of rows for each constraint.
///
/// The column is `NOT NULL` where the catalog says that it is not
/// nullable. A flag outside its closed set, and a constraint whose rows
/// cannot be consolidated, is an error.
pub fn parse_column_query_reulst(
    result: ColumnQueryResult,
    unique_results: Vec<Vec<UniqueQueryResult>>,
) -> (r: Result<ColumnInfo, SchemaError>)
    ensures
        match r {
            Ok(info) => decode_column_row(result@, unique_results@) == Ok::<
                ColumnInfoView,
                SchemaError,
            >(info@),
            Err(e) => decode_column_row(result@, unique_results@) == Err::<
                ColumnInfoView,
                SchemaError,
            >(e),
        },
{
    let nullable = match yes_or_no_to_bool(result.is_nullable.as_str()) {
        Ok(b) => b,
        Err(e) => {
            return Err(e);
        },
    };
    let col_type = parse_column_type(&result);
    let unique = match parse_unique_query_result_vecs(unique_results) {
        Ok(u) => u,
        Err(e) => {
            return Err(e);
        },
    };
    Ok(
        ColumnInfo {
            name: result.column_name,
            col_type,
            default: ColumnExpression::from_option_string(result.column_default),
            generated: ColumnExpression::from_option_string(result.column_generated),
            not_null: NotNull::from_bool(!nullable),
            unique,
            primary_key: None,
            references: None,
        },
    )
}

/// Consolidates the rows of each unique constraint; hands the first error
/// on instead of leaving the constraint out.
pub fn parse_unique_query_result_vecs(results: Vec<Vec<UniqueQueryResult>>) -> (r: Result<
    Option<Vec<Unique>>,
    SchemaError,
>)
    ensures
        match r {
            Ok(None) => uniques_of(results@) == Ok::<Seq<Seq<Seq<char>>>, SchemaError>(
                Seq::empty(),
            ),
            Ok(Some(u)) => u@.len() > 0 && uniques_of(results@) == Ok::<
                Seq<Seq<Seq<char>>>,
                SchemaError,
            >(unique_views(u@)),
            Err(e) => uniques_of(results@) == Err::<Seq<Seq<Seq<char>>>, SchemaError>(e),
        },
{
    let ghost all = results@;
    let mut out: Vec<Unique> = Vec::new();
    let mut pending: Vec<Vec<UniqueQueryResult>> = Vec::new();
    let mut rest = results;
    while rest.len() > 0
        invariant
            rest@ + pending@.reverse() =~= all,
        decreases rest@.len(),
    {
        let ghost r0 = rest@;
        let ghost p0 = pending@;
        let rows = rest.pop().unwrap();
        pending.push(rows);
        assert(rest@ + pending@.reverse() =~= r0 + p0.reverse());
    }
    assert(pending@.reverse() =~= all);
    let ghost mut done: int = 0;
    assert(all.take(0) =~= Seq::empty());
    assert(unique_views(out@) =~= Seq::empty());
    while pending.len() > 0
        invariant
            all == results@,
            0 <= done <= all.len(),
            done + pending@.len() == all.len(),
            all.take(done) + pending@.reverse() =~= all,
            uniques_of(all.take(done)) == Ok::<Seq<Seq<Seq<char>>>, SchemaError>(
                unique_views(out@),
            ),
            out@.len() == done,
        decreases pending@.len(),
    {
        let ghost p0 = pending@;
        let ghost before = unique_views(out@);
        let rows = pending.pop().unwrap();
        proof {
            assert(p0.reverse()[0] == rows);
            assert(all[done] == rows);
            assert(all.take(done + 1).drop_last() =~= all.take(done));
            assert(all.take(done + 1).last() == rows);
        }
        match parse_unique_query_results(rows) {
            Ok(u) => {
                out.push(u);
                assert(unique_views(out@) =~= before.push(u@));
            },
            Err(e) => {
                proof {
                    assert(uniques_of(all.take(done + 1)) == Err::<
                        Seq<Seq<Seq<char>>>,
                        SchemaError,
                    >(e));
                    lemma_uniques_error_stays(all, done + 1);
                }
                return Err(e);
            },
        }
        proof {
            done = done + 1;
        }
        assert(all.take(done) + pending@.reverse() =~= all);
    }
    assert(all.take(done) =~= all);
    if out.len() == 0 {
        assert(unique_views(out@) =~= Seq::empty());
        Ok(None)
    } else {
        Ok(Some(out))
    }
}

/// An error among the first constraints is the error of them all.
proof fn lemma_uniques_error_stays(all: Seq<Vec<UniqueQueryResult>>, n: int)
    requires
        0 <= n <= all.len(),
        uniques_of(all.take(n)) is Err,
    ensures
        uniques_of(all) == uniques_of(all.take(n)),
    decreases all.len() - n,
{
    if n < all.len() {
        assert(all.take(n + 1).drop_last() =~= all.take(n));
        lemma_uniques_error_stays(all, n + 1);
    } else {
        assert(all.take(n) =~= all);
    }
}

/// Decodes the type of a column row.
pub fn parse_column_type(result: &ColumnQueryResult) -> (r: ColumnType)
    ensures
        r@ == type_of_row(result@),
{
    let text = result.column_type.as_str();
    let t = to_chars(text);
    if t.len() == 0 {
        return Type::Unknown(String::new());
    }
    let e = scan(&t, 0, CharClass::Name);
    let ctype = parse_type_name(text.substring_char(0, e));
    fill_numeric_attributes(result.numeric_precision, result.numeric_scale, ctype)
}

fn name_is(t: &Vec<char>, lit: &str) -> (r: bool)
    ensures
        r == (lower(t@) == lit@),
{
    assert(t@.subrange(0, t@.len() as int) =~= t@);
    lower_eq(t, 0, t.len(), lit)
}

/// The type that a type name stands for, letter case aside.
pub fn parse_type_name(word: &str) -> (r: Type)
    ensures
        r@ == type_of_name(word@),
{
    let t = to_chars(word);
    if name_is(&t, "smallint") || name_is(&t, "int2") {
        Type::SmallInt
    } else if name_is(&t, "integer") || name_is(&t, "int") || name_is(&t, "int4") {
        Type::Integer
    } else if name_is(&t, "bigint") || name_is(&t, "int8") {
        Type::BigInt
    } else if name_is(&t, "decimal") {
        Type::Decimal(ArbitraryPrecisionNumericAttr { precision: None, scale: None })
    } else if name_is(&t, "numeric") {
        Type::Numeric(ArbitraryPrecisionNumericAttr { precision: None, scale: None })
    } else if name_is(&t, "real") || name_is(&t, "float4") {
        Type::Real
    } else if name_is(&t, "double precision") || name_is(&t, "double") || name_is(&t, "float8") {
        Type::DoublePrecision
    } else if name_is(&t, "smallserial") || name_is(&t, "serial2") {
        Type::SmallSerial
    } else if name_is(&t, "serial") || name_is(&t, "serial4") {
        Type::Serial
    } else if name_is(&t, "bigserial") || name_is(&t, "serial8") {
        Type::BigSerial
    } else {
        Type::Unknown(String::from_str(word).concat(" is unknown or unimplemented"))
    }
}

fn narrow(n: Option<i32>) -> (r: Option<u16>)
    ensures
        r == attribute_of(n),
{
    match n {
        Some(v) => {
            if 0 <= v && v <= 0xffff {
                Some(v as u16)
            } else {
                None
            }
        },
        None => None,
    }
}

fn fill_numeric_attributes(precision: Option<i32>, scale: Option<i32>, ctype: ColumnType) -> (r:
    ColumnType)
    ensures
        r@ == (if is_arbitrary_precision(ctype@) {
            with_numeric_attributes(precision, scale, ctype@)->0
        } else {
            ctype@
        }),
{
    let attr = ArbitraryPrecisionNumericAttr { precision: narrow(precision), scale: narrow(scale) };
    match ctype {
        Type::Decimal(_) => Type::Decimal(attr),
        Type::Numeric(_) => Type::Numeric(attr),
        other => other,
    }
}

/// Fills precision and scale from the catalog into a decimal or numeric
/// type. The radix is read by no dialect and is passed over.
///
/// Any other type is a mistake of the caller and is reported as
/// [`SchemaError::InternalContractViolation`].
pub fn parse_numeric_attributes(
    num_precision: Option<i32>,
    num_precision_radix: Option<i32>,
    num_scale: Option<i32>,
    ctype: ColumnType,
) -> (r: Result<ColumnType, SchemaError>)
    ensures
        match r {
            Ok(t) => with_numeric_attributes(num_precision, num_scale, ctype@) == Some(t@),
            Err(e) => e == SchemaError::InternalContractViolation && with_numeric_attributes(
                num_precision,
                num_scale,
                ctype@,
            ) is None,
        },
{
    if ctype.has_numeric_attr() {
        Ok(fill_numeric_attributes(num_precision, num_scale, ctype))
    } else {
        Err(SchemaError::InternalContractViolation)
    }
}

} // verus!
