//! What is written is what is read: the laws that tie the writer of column
//! types to the parser of declarations.

use vstd::prelude::*;
use crate::mysql::def::types::{
    class_of, AttrClass, NumericAttr, StringAttrView, TimeAttr, TypeName, TypeView,
};
use crate::mysql::parser::column::{
    lookup_type_name, malformed_reason, numeric_args, parse_attributes,
    parse_numeric_modifiers, parse_string_modifiers, parse_type_text, string_args, time_args,
    unknown_reason,
};
use crate::mysql::writer::types::{
    args_of_length, args_of_numeric, args_of_time, args_text, charset_text, collation_text,
    ends_with, keyword, original_text, type_text, unsigned_text, zero_fill_text,
};
use crate::text::{
    all_in_class, digits, in_class, lemma_number_digits, lemma_span_end, lemma_span_end_bounds,
    lower, number, parse_args, span_end, Args, CharClass,
};

verus! {

/// Whether a name written as a modifier's value is read back as one word:
/// it is not empty and holds no space.
pub open spec fn is_word(w: Option<Seq<char>>) -> bool {
    w matches Some(s) ==> s.len() > 0 && all_in_class(s, CharClass::Word)
}

/// The types that the parser can give, `Unknown` aside: the attributes are
/// those of the name's class, decimal digits come only with a maximum, a
/// flag is set or absent, and the names of character set and collation are
/// single words.
pub open spec fn canonical(v: TypeView) -> bool {
    match v {
        TypeView::Plain(n) => class_of(n) == AttrClass::Plain,
        TypeView::Numeric(n, a) => {
            &&& class_of(n) == AttrClass::Numeric
            &&& a.maximum is None ==> a.decimal is None
            &&& a.unsigned != Some(false)
            &&& a.zero_fill != Some(false)
        },
        TypeView::Time(n, a) => class_of(n) == AttrClass::Time,
        TypeView::Text(n, a) => {
            &&& class_of(n) == AttrClass::Text
            &&& is_word(a.charset)
            &&& is_word(a.collation)
        },
        TypeView::Unknown(_) => false,
    }
}

proof fn lemma_lower_names()
    ensures
        "serial"@.len() == 6 && "serial"@[0] == 's',
        "bit"@.len() == 3 && "bit"@[0] == 'b',
        "tinyint"@.len() == 7 && "tinyint"@[0] == 't',
        "bool"@.len() == 4 && "bool"@[0] == 'b' && "bool"@[1] == 'o',
        "boolean"@.len() == 7 && "boolean"@[0] == 'b',
        "smallint"@.len() == 8 && "smallint"@[0] == 's',
        "mediumint"@.len() == 9 && "mediumint"@[0] == 'm',
        "int"@.len() == 3 && "int"@[0] == 'i',
        "integer"@.len() == 7 && "integer"@[0] == 'i',
        "bigint"@.len() == 6 && "bigint"@[0] == 'b' && "bigint"@[2] == 'g',
        "decimal"@.len() == 7 && "decimal"@[0] == 'd',
        "dec"@.len() == 3 && "dec"@[0] == 'd',
        "numeric"@.len() == 7 && "numeric"@[0] == 'n',
        "fixed"@.len() == 5 && "fixed"@[0] == 'f' && "fixed"@[1] == 'i',
        "float"@.len() == 5 && "float"@[0] == 'f' && "float"@[1] == 'l',
        "double"@.len() == 6 && "double"@[0] == 'd',
        "real"@.len() == 4 && "real"@[0] == 'r',
        "date"@.len() == 4 && "date"@[0] == 'd',
        "time"@.len() == 4 && "time"@[0] == 't' && "time"@[1] == 'i',
        "datetime"@.len() == 8 && "datetime"@[0] == 'd',
        "timestamp"@.len() == 9 && "timestamp"@[0] == 't',
        "year"@.len() == 4 && "year"@[0] == 'y',
        "char"@.len() == 4 && "char"@[0] == 'c',
        "nchar"@.len() == 5 && "nchar"@[0] == 'n',
        "varchar"@.len() == 7 && "varchar"@[0] == 'v',
        "nvarchar"@.len() == 8 && "nvarchar"@[0] == 'n',
        "binary"@.len() == 6 && "binary"@[0] == 'b' && "binary"@[2] == 'n',
        "varbinary"@.len() == 9 && "varbinary"@[0] == 'v',
        "text"@.len() == 4 && "text"@[0] == 't' && "text"@[1] == 'e',
        "tinytext"@.len() == 8 && "tinytext"@[0] == 't' && "tinytext"@[4] == 't',
        "mediumtext"@.len() == 10 && "mediumtext"@[6] == 't',
        "longtext"@.len() == 8 && "longtext"@[0] == 'l' && "longtext"@[4] == 't',
        "blob"@.len() == 4 && "blob"@[0] == 'b' && "blob"@[1] == 'l',
        "tinyblob"@.len() == 8 && "tinyblob"@[0] == 't' && "tinyblob"@[4] == 'b',
        "mediumblob"@.len() == 10 && "mediumblob"@[6] == 'b',
        "longblob"@.len() == 8 && "longblob"@[0] == 'l' && "longblob"@[4] == 'b',
        "json"@.len() == 4 && "json"@[0] == 'j',
{
    reveal_strlit("serial");
    reveal_strlit("bit");
    reveal_strlit("tinyint");
    reveal_strlit("bool");
    reveal_strlit("boolean");
    reveal_strlit("smallint");
    reveal_strlit("mediumint");
    reveal_strlit("int");
    reveal_strlit("integer");
    reveal_strlit("bigint");
    reveal_strlit("decimal");
    reveal_strlit("dec");
    reveal_strlit("numeric");
    reveal_strlit("fixed");
    reveal_strlit("float");
    reveal_strlit("double");
    reveal_strlit("real");
    reveal_strlit("date");
    reveal_strlit("time");
    reveal_strlit("datetime");
    reveal_strlit("timestamp");
    reveal_strlit("year");
    reveal_strlit("char");
    reveal_strlit("nchar");
    reveal_strlit("varchar");
    reveal_strlit("nvarchar");
    reveal_strlit("binary");
    reveal_strlit("varbinary");
    reveal_strlit("text");
    reveal_strlit("tinytext");
    reveal_strlit("mediumtext");
    reveal_strlit("longtext");
    reveal_strlit("blob");
    reveal_strlit("tinyblob");
    reveal_strlit("mediumblob");
    reveal_strlit("longblob");
    reveal_strlit("json");
}

/// The lower-case name that the parser looks a keyword up by.
spec fn lower_name(name: TypeName) -> Seq<char> {
    match name {
        TypeName::Serial => "serial"@,
        TypeName::Bit => "bit"@,
        TypeName::TinyInt => "tinyint"@,
        TypeName::Bool => "bool"@,
        TypeName::SmallInt => "smallint"@,
        TypeName::MediumInt => "mediumint"@,
        TypeName::Int => "int"@,
        TypeName::BigInt => "bigint"@,
        TypeName::Decimal => "decimal"@,
        TypeName::Float => "float"@,
        TypeName::Double => "double"@,
        TypeName::Date => "date"@,
        TypeName::Time => "time"@,
        TypeName::DateTime => "datetime"@,
        TypeName::Timestamp => "timestamp"@,
        TypeName::Year => "year"@,
        TypeName::Char => "char"@,
        TypeName::NChar => "nchar"@,
        TypeName::Varchar => "varchar"@,
        TypeName::NVarchar => "nvarchar"@,
        TypeName::Binary => "binary"@,
        TypeName::Varbinary => "varbinary"@,
        TypeName::Text => "text"@,
        TypeName::TinyText => "tinytext"@,
        TypeName::MediumText => "mediumtext"@,
        TypeName::LongText => "longtext"@,
        TypeName::Blob => "blob"@,
        TypeName::TinyBlob => "tinyblob"@,
        TypeName::MediumBlob => "mediumblob"@,
        TypeName::LongBlob => "longblob"@,
        TypeName::Json => "json"@,
    }
}

proof fn lemma_lookup_lower_name(name: TypeName)
    ensures
        lookup_type_name(lower_name(name)) == Some(name),
{
    lemma_lower_names();
}

proof fn lemma_keyword_lower_a(name: TypeName)
    requires
        name is Serial || name is Bit || name is TinyInt || name is Bool || name is SmallInt
            || name is MediumInt || name is Int || name is BigInt || name is Decimal
            || name is Float,
    ensures
        lower(keyword(name)) == lower_name(name),
        keyword(name).len() > 0,
        all_in_class(keyword(name), CharClass::Name),
{
    reveal_strlit("serial");
    reveal_strlit("bit");
    reveal_strlit("tinyint");
    reveal_strlit("bool");
    reveal_strlit("smallint");
    reveal_strlit("mediumint");
    reveal_strlit("int");
    reveal_strlit("bigint");
    reveal_strlit("decimal");
    reveal_strlit("float");
    reveal_strlit("SERIAL");
    reveal_strlit("BIT");
    reveal_strlit("TINYINT");
    reveal_strlit("BOOL");
    reveal_strlit("SMALLINT");
    reveal_strlit("MEDIUMINT");
    reveal_strlit("INT");
    reveal_strlit("BIGINT");
    reveal_strlit("DECIMAL");
    reveal_strlit("FLOAT");
    assert(lower(keyword(name)) =~= lower_name(name));
}

proof fn lemma_keyword_lower_b(name: TypeName)
    requires
        name is Double || name is Date || name is Time || name is DateTime || name is Timestamp
            || name is Year || name is Char || name is NChar || name is Varchar
            || name is NVarchar,
    ensures
        lower(keyword(name)) == lower_name(name),
        keyword(name).len() > 0,
        all_in_class(keyword(name), CharClass::Name),
{
    reveal_strlit("double");
    reveal_strlit("date");
    reveal_strlit("time");
    reveal_strlit("datetime");
    reveal_strlit("timestamp");
    reveal_strlit("year");
    reveal_strlit("char");
    reveal_strlit("nchar");
    reveal_strlit("varchar");
    reveal_strlit("nvarchar");
    reveal_strlit("DOUBLE");
    reveal_strlit("DATE");
    reveal_strlit("TIME");
    reveal_strlit("DATETIME");
    reveal_strlit("TIMESTAMP");
    reveal_strlit("YEAR");
    reveal_strlit("CHAR");
    reveal_strlit("NCHAR");
    reveal_strlit("VARCHAR");
    reveal_strlit("NVARCHAR");
    assert(lower(keyword(name)) =~= lower_name(name));
}

proof fn lemma_keyword_lower_c(name: TypeName)
    requires
        name is Binary || name is Varbinary || name is Text || name is TinyText
            || name is MediumText || name is LongText || name is Blob || name is TinyBlob
            || name is MediumBlob || name is LongBlob || name is Json,
    ensures
        lower(keyword(name)) == lower_name(name),
        keyword(name).len() > 0,
        all_in_class(keyword(name), CharClass::Name),
{
    reveal_strlit("binary");
    reveal_strlit("varbinary");
    reveal_strlit("text");
    reveal_strlit("tinytext");
    reveal_strlit("mediumtext");
    reveal_strlit("longtext");
    reveal_strlit("blob");
    reveal_strlit("tinyblob");
    reveal_strlit("mediumblob");
    reveal_strlit("longblob");
    reveal_strlit("json");
    reveal_strlit("BINARY");
    reveal_strlit("VARBINARY");
    reveal_strlit("TEXT");
    reveal_strlit("TINYTEXT");
    reveal_strlit("MEDIUMTEXT");
    reveal_strlit("LONGTEXT");
    reveal_strlit("BLOB");
    reveal_strlit("TINYBLOB");
    reveal_strlit("MEDIUMBLOB");
    reveal_strlit("LONGBLOB");
    reveal_strlit("JSON");
    assert(lower(keyword(name)) =~= lower_name(name));
}

/// A keyword is a non-empty run of name characters, and the parser knows
/// it, in whatever letter case, as the name that it was written for.
pub proof fn lemma_keyword_is_known(name: TypeName)
    ensures
        keyword(name).len() > 0,
        all_in_class(keyword(name), CharClass::Name),
        lookup_type_name(lower(keyword(name))) == Some(name),
{
    lemma_lookup_lower_name(name);
    if name is Serial || name is Bit || name is TinyInt || name is Bool || name is SmallInt
        || name is MediumInt || name is Int || name is BigInt || name is Decimal
        || name is Float {
        lemma_keyword_lower_a(name);
    } else if name is Double || name is Date || name is Time || name is DateTime
        || name is Timestamp || name is Year || name is Char || name is NChar
        || name is Varchar || name is NVarchar {
        lemma_keyword_lower_b(name);
    } else {
        lemma_keyword_lower_c(name);
    }
}

/// A declaration that starts with a keyword has that keyword as its name.
proof fn lemma_head(kw: Seq<char>, rest: Seq<char>)
    requires
        all_in_class(kw, CharClass::Name),
        rest.len() == 0 || !in_class(rest[0], CharClass::Name),
    ensures
        span_end(kw + rest, 0, CharClass::Name) == kw.len(),
        (kw + rest).subrange(0, kw.len() as int) == kw,
{
    let t = kw + rest;
    assert forall|k: int| 0 <= k < kw.len() implies in_class(#[trigger] t[k], CharClass::Name) by {
        assert(t[k] == kw[k]);
    }
    if kw.len() < t.len() {
        assert(t[kw.len() as int] == rest[0]);
    }
    lemma_span_end(t, 0, kw.len() as int, CharClass::Name);
    assert(t.subrange(0, kw.len() as int) =~= kw);
}

/// An argument list that was written is read back as it was.
proof fn lemma_parse_args(pre: Seq<char>, args: Args, post: Seq<char>)
    requires
        post.len() == 0 || post[0] == ' ',
    ensures
        parse_args(pre + args_text(args) + post, pre.len() as int) == Some(
            (args, (pre.len() + args_text(args).len()) as int),
        ),
{
    let t = pre + args_text(args) + post;
    let i = pre.len() as int;
    match args {
        Args::Absent => {
            if i < t.len() {
                assert(t[i] == post[0]);
            }
        },
        Args::One(n) => {
            let d = digits(n as nat);
            lemma_number_digits(n as nat);
            let d1 = i + 1 + d.len();
            assert(t[i] == '(');
            assert forall|k: int| i + 1 <= k < d1 implies in_class(
                #[trigger] t[k],
                CharClass::Digit,
            ) by {
                assert(t[k] == d[k - i - 1]);
            }
            assert(t[d1] == ')');
            lemma_span_end(t, i + 1, d1, CharClass::Digit);
            assert(t.subrange(i + 1, d1) =~= d);
        },
        Args::Two(m, n) => {
            let dm = digits(m as nat);
            let dn = digits(n as nat);
            lemma_number_digits(m as nat);
            lemma_number_digits(n as nat);
            let d1 = i + 1 + dm.len();
            let d2 = d1 + 1 + dn.len();
            assert(t[i] == '(');
            assert forall|k: int| i + 1 <= k < d1 implies in_class(
                #[trigger] t[k],
                CharClass::Digit,
            ) by {
                assert(t[k] == dm[k - i - 1]);
            }
            assert(t[d1] == ',');
            lemma_span_end(t, i + 1, d1, CharClass::Digit);
            assert(t.subrange(i + 1, d1) =~= dm);
            assert forall|k: int| d1 + 1 <= k < d2 implies in_class(
                #[trigger] t[k],
                CharClass::Digit,
            ) by {
                assert(t[k] == dn[k - d1 - 1]);
            }
            assert(t[d1 + 1] == dn[0]);
            assert(in_class(t[d1 + 1], CharClass::Digit));
            lemma_span_end(t, d1 + 1, d1 + 1, CharClass::Space);
            assert(t[d2] == ')');
            lemma_span_end(t, d1 + 1, d2, CharClass::Digit);
            assert(t.subrange(d1 + 1, d2) =~= dn);
        },
    }
}

/// Behind a space, a word runs to the next space or to the end.
proof fn lemma_next_word(t: Seq<char>, i: int, w: Seq<char>)
    requires
        0 <= i,
        i + 1 + w.len() <= t.len(),
        t[i] == ' ',
        w.len() > 0,
        all_in_class(w, CharClass::Word),
        t.subrange(i + 1, i + 1 + w.len()) == w,
        i + 1 + w.len() == t.len() || t[i + 1 + w.len()] == ' ',
    ensures
        span_end(t, i, CharClass::Space) == i + 1,
        span_end(t, i + 1, CharClass::Word) == i + 1 + w.len(),
{
    assert(t[i + 1] == w[0]);
    assert(in_class(w[0], CharClass::Word));
    lemma_span_end(t, i, i + 1, CharClass::Space);
    assert forall|k: int| i + 1 <= k < i + 1 + w.len() implies in_class(
        #[trigger] t[k],
        CharClass::Word,
    ) by {
        assert(t[k] == w[k - i - 1]);
    }
    lemma_span_end(t, i + 1, i + 1 + w.len(), CharClass::Word);
}

proof fn lemma_unsigned_step(t: Seq<char>, i: int, a: NumericAttr)
    requires
        0 <= i,
        i + 9 <= t.len(),
        t.subrange(i, i + 9) == " UNSIGNED"@,
        i + 9 == t.len() || t[i + 9] == ' ',
    ensures
        parse_numeric_modifiers(t, i, a) == parse_numeric_modifiers(
            t,
            i + 9,
            NumericAttr { unsigned: Some(true), ..a },
        ),
{
    reveal_strlit(" UNSIGNED");
    reveal_strlit("unsigned");
    let m = " UNSIGNED"@;
    let w = m.subrange(1, 9);
    assert forall|k: int| 0 <= k < 9 implies t[i + k] == #[trigger] m[k] by {
        assert(t.subrange(i, i + 9)[k] == t[i + k]);
    }
    assert(t[i] == m[0]);
    assert(t.subrange(i + 1, i + 9) =~= w);
    assert(all_in_class(w, CharClass::Word));
    lemma_next_word(t, i, w);
    assert(lower(w) =~= "unsigned"@);
}

proof fn lemma_zero_fill_step(t: Seq<char>, i: int, a: NumericAttr)
    requires
        0 <= i,
        i + 9 <= t.len(),
        t.subrange(i, i + 9) == " ZEROFILL"@,
        i + 9 == t.len() || t[i + 9] == ' ',
    ensures
        parse_numeric_modifiers(t, i, a) == parse_numeric_modifiers(
            t,
            i + 9,
            NumericAttr { zero_fill: Some(true), ..a },
        ),
{
    reveal_strlit(" ZEROFILL");
    reveal_strlit("zerofill");
    reveal_strlit("unsigned");
    let m = " ZEROFILL"@;
    let w = m.subrange(1, 9);
    assert forall|k: int| 0 <= k < 9 implies t[i + k] == #[trigger] m[k] by {
        assert(t.subrange(i, i + 9)[k] == t[i + k]);
    }
    assert(t[i] == m[0]);
    assert(t.subrange(i + 1, i + 9) =~= w);
    assert(all_in_class(w, CharClass::Word));
    lemma_next_word(t, i, w);
    assert(lower(w) =~= "zerofill"@);
    assert("zerofill"@[0] != "unsigned"@[0]);
}

/// The modifiers of a numeric type that were written are read back.
proof fn lemma_parse_numeric_modifiers(
    pre: Seq<char>,
    a: NumericAttr,
    u: Option<bool>,
    z: Option<bool>,
)
    ensures
        parse_numeric_modifiers(pre + unsigned_text(u) + zero_fill_text(z), pre.len() as int, a)
            == Some(
            NumericAttr {
                unsigned: if u == Some(true) {
                    Some(true)
                } else {
                    a.unsigned
                },
                zero_fill: if z == Some(true) {
                    Some(true)
                } else {
                    a.zero_fill
                },
                ..a
            },
        ),
{
    reveal_strlit(" UNSIGNED");
    reveal_strlit(" ZEROFILL");
    let t = pre + unsigned_text(u) + zero_fill_text(z);
    let i = pre.len() as int;
    let j = i + unsigned_text(u).len();
    let a1 = NumericAttr {
        unsigned: if u == Some(true) {
            Some(true)
        } else {
            a.unsigned
        },
        ..a
    };
    let a2 = NumericAttr {
        zero_fill: if z == Some(true) {
            Some(true)
        } else {
            a.zero_fill
        },
        ..a1
    };
    assert(parse_numeric_modifiers(t, t.len() as int, a2) == Some(a2));
    if z == Some(true) {
        assert(t.subrange(j, j + 9) =~= " ZEROFILL"@);
        lemma_zero_fill_step(t, j, a1);
    }
    assert(parse_numeric_modifiers(t, j, a1) == Some(a2));
    if u == Some(true) {
        assert(t.subrange(i, i + 9) =~= " UNSIGNED"@);
        if j < t.len() {
            assert(t[j] == " ZEROFILL"@[0]);
        }
        lemma_unsigned_step(t, i, a);
    }
}

proof fn lemma_charset_step(t: Seq<char>, i: int, a: StringAttrView, cs: Seq<char>)
    requires
        0 <= i,
        i + 15 + cs.len() <= t.len(),
        t.subrange(i, i + 15) == " CHARACTER SET "@,
        t.subrange(i + 15, i + 15 + cs.len()) == cs,
        cs.len() > 0,
        all_in_class(cs, CharClass::Word),
        i + 15 + cs.len() == t.len() || t[i + 15 + cs.len()] == ' ',
    ensures
        parse_string_modifiers(t, i, a) == parse_string_modifiers(
            t,
            i + 15 + cs.len(),
            StringAttrView { charset: Some(cs), ..a },
        ),
{
    reveal_strlit(" CHARACTER SET ");
    reveal_strlit("character");
    reveal_strlit("charset");
    reveal_strlit("collate");
    reveal_strlit("set");
    let m = " CHARACTER SET "@;
    let w1 = m.subrange(1, 10);
    let w2 = m.subrange(11, 14);
    assert forall|k: int| 0 <= k < 15 implies t[i + k] == #[trigger] m[k] by {
        assert(t.subrange(i, i + 15)[k] == t[i + k]);
    }
    assert(t[i] == m[0]);
    assert(t.subrange(i + 1, i + 10) =~= w1);
    assert(all_in_class(w1, CharClass::Word));
    assert(t[i + 10] == m[10]);
    lemma_next_word(t, i, w1);
    assert(lower(w1) =~= "character"@);
    assert(t.subrange(i + 11, i + 14) =~= w2);
    assert(all_in_class(w2, CharClass::Word));
    assert(t[i + 14] == m[14]);
    lemma_next_word(t, i + 10, w2);
    assert(lower(w2) =~= "set"@);
    lemma_next_word(t, i + 14, cs);
}

proof fn lemma_collate_step(t: Seq<char>, i: int, a: StringAttrView, co: Seq<char>)
    requires
        0 <= i,
        i + 9 + co.len() <= t.len(),
        t.subrange(i, i + 9) == " COLLATE "@,
        t.subrange(i + 9, i + 9 + co.len()) == co,
        co.len() > 0,
        all_in_class(co, CharClass::Word),
        i + 9 + co.len() == t.len() || t[i + 9 + co.len()] == ' ',
    ensures
        parse_string_modifiers(t, i, a) == parse_string_modifiers(
            t,
            i + 9 + co.len(),
            StringAttrView { collation: Some(co), ..a },
        ),
{
    reveal_strlit(" COLLATE ");
    reveal_strlit("character");
    reveal_strlit("charset");
    reveal_strlit("collate");
    let m = " COLLATE "@;
    let w1 = m.subrange(1, 8);
    assert forall|k: int| 0 <= k < 9 implies t[i + k] == #[trigger] m[k] by {
        assert(t.subrange(i, i + 9)[k] == t[i + k]);
    }
    assert(t[i] == m[0]);
    assert(t.subrange(i + 1, i + 8) =~= w1);
    assert(all_in_class(w1, CharClass::Word));
    assert(t[i + 8] == m[8]);
    lemma_next_word(t, i, w1);
    assert(lower(w1) =~= "collate"@);
    assert("collate"@[1] != "charset"@[1]);
    lemma_next_word(t, i + 8, co);
}

/// The modifiers of a string type that were written are read back.
proof fn lemma_parse_string_modifiers(
    pre: Seq<char>,
    a: StringAttrView,
    cs: Option<Seq<char>>,
    co: Option<Seq<char>>,
)
    requires
        is_word(cs),
        is_word(co),
    ensures
        parse_string_modifiers(pre + charset_text(cs) + collation_text(co), pre.len() as int, a)
            == Some(
            StringAttrView {
                charset: if cs is Some {
                    cs
                } else {
                    a.charset
                },
                collation: if co is Some {
                    co
                } else {
                    a.collation
                },
                ..a
            },
        ),
{
    reveal_strlit(" CHARACTER SET ");
    reveal_strlit(" COLLATE ");
    let t = pre + charset_text(cs) + collation_text(co);
    let i = pre.len() as int;
    let j = i + charset_text(cs).len();
    let a1 = StringAttrView {
        charset: if cs is Some {
            cs
        } else {
            a.charset
        },
        ..a
    };
    let a2 = StringAttrView {
        collation: if co is Some {
            co
        } else {
            a.collation
        },
        ..a1
    };
    assert(parse_string_modifiers(t, t.len() as int, a2) == Some(a2));
    if co is Some {
        assert(t.subrange(j, j + 9) =~= " COLLATE "@);
        assert(t.subrange(j + 9, j + 9 + co->0.len()) =~= co->0);
        lemma_collate_step(t, j, a1, co->0);
    }
    assert(parse_string_modifiers(t, j, a1) == Some(a2));
    if cs is Some {
        assert(t.subrange(i, i + 15) =~= " CHARACTER SET "@);
        assert(t.subrange(i + 15, i + 15 + cs->0.len()) =~= cs->0);
        if j < t.len() {
            assert(t[j] == " COLLATE "@[0]);
        }
        lemma_charset_step(t, i, a, cs->0);
    }
}

/// What stands behind a keyword in a written type does not go on the name.
proof fn lemma_tail_starts(args: Args, rest: Seq<char>)
    requires
        rest.len() == 0 || rest[0] == ' ',
    ensures
        (args_text(args) + rest).len() == 0 || !in_class(
            (args_text(args) + rest)[0],
            CharClass::Name,
        ),
{
}

proof fn lemma_numeric_modifiers_start(u: Option<bool>, z: Option<bool>)
    ensures
        (unsigned_text(u) + zero_fill_text(z)).len() == 0 || (unsigned_text(u) + zero_fill_text(
            z,
        ))[0] == ' ',
{
    reveal_strlit(" UNSIGNED");
    reveal_strlit(" ZEROFILL");
}

proof fn lemma_string_modifiers_start(cs: Option<Seq<char>>, co: Option<Seq<char>>)
    ensures
        (charset_text(cs) + collation_text(co)).len() == 0 || (charset_text(cs) + collation_text(
            co,
        ))[0] == ' ',
{
    reveal_strlit(" CHARACTER SET ");
    reveal_strlit(" COLLATE ");
}

/// A declaration that starts with a keyword is decoded by its attributes.
proof fn lemma_parse_known(n: TypeName, rest: Seq<char>)
    requires
        rest.len() == 0 || !in_class(rest[0], CharClass::Name),
    ensures
        parse_type_text(keyword(n) + rest) == (match parse_attributes(
            n,
            keyword(n) + rest,
            keyword(n).len() as int,
        ) {
            None => TypeView::Unknown(keyword(n) + rest + malformed_reason()),
            Some(v) => v,
        }),
{
    lemma_keyword_is_known(n);
    lemma_head(keyword(n), rest);
}

proof fn lemma_attributes_numeric(n: TypeName, a: NumericAttr, kw: Seq<char>)
    requires
        canonical(TypeView::Numeric(n, a)),
    ensures
        parse_attributes(
            n,
            kw + (args_text(args_of_numeric(a)) + (unsigned_text(a.unsigned) + zero_fill_text(
                a.zero_fill,
            ))),
            kw.len() as int,
        ) == Some(TypeView::Numeric(n, a)),
{
    let args = args_of_numeric(a);
    let mods = unsigned_text(a.unsigned) + zero_fill_text(a.zero_fill);
    let t = kw + (args_text(args) + mods);
    let pre = kw + args_text(args);
    let a0 = NumericAttr { unsigned: None, zero_fill: None, ..a };
    assert(parse_args(t, kw.len() as int) == Some((args, pre.len() as int))) by {
        lemma_numeric_modifiers_start(a.unsigned, a.zero_fill);
        assert(t =~= kw + args_text(args) + mods);
        lemma_parse_args(kw, args, mods);
    }
    assert(numeric_args(args) == Some(a0));
    assert(parse_numeric_modifiers(t, pre.len() as int, a0) == Some(a)) by {
        assert(t =~= pre + unsigned_text(a.unsigned) + zero_fill_text(a.zero_fill));
        lemma_parse_numeric_modifiers(pre, a0, a.unsigned, a.zero_fill);
        assert(a.unsigned is None || a.unsigned == Some(true)) by {
            if a.unsigned is Some {
                assert(a.unsigned == Some(a.unsigned->0));
            }
        }
        assert(a.zero_fill is None || a.zero_fill == Some(true)) by {
            if a.zero_fill is Some {
                assert(a.zero_fill == Some(a.zero_fill->0));
            }
        }
        let r = NumericAttr {
            unsigned: if a.unsigned == Some(true) {
                Some(true)
            } else {
                a0.unsigned
            },
            zero_fill: if a.zero_fill == Some(true) {
                Some(true)
            } else {
                a0.zero_fill
            },
            ..a0
        };
        assert(r == a);
    }
}

proof fn lemma_attributes_time(n: TypeName, a: TimeAttr, kw: Seq<char>)
    requires
        canonical(TypeView::Time(n, a)),
    ensures
        parse_attributes(n, kw + args_text(args_of_time(a)), kw.len() as int) == Some(
            TypeView::Time(n, a),
        ),
{
    let args = args_of_time(a);
    let t = kw + args_text(args);
    assert(parse_args(t, kw.len() as int) == Some((args, t.len() as int))) by {
        assert(t =~= kw + args_text(args) + Seq::<char>::empty());
        lemma_parse_args(kw, args, Seq::empty());
    }
    assert(time_args(args) == Some(a));
    assert(span_end(t, t.len() as int, CharClass::Space) == t.len());
}

proof fn lemma_attributes_text(n: TypeName, a: StringAttrView, kw: Seq<char>)
    requires
        canonical(TypeView::Text(n, a)),
    ensures
        parse_attributes(
            n,
            kw + (args_text(args_of_length(a.length)) + (charset_text(a.charset) + collation_text(
                a.collation,
            ))),
            kw.len() as int,
        ) == Some(TypeView::Text(n, a)),
{
    let args = args_of_length(a.length);
    let mods = charset_text(a.charset) + collation_text(a.collation);
    let t = kw + (args_text(args) + mods);
    let pre = kw + args_text(args);
    let a0 = StringAttrView { length: a.length, charset: None, collation: None };
    assert(parse_args(t, kw.len() as int) == Some((args, pre.len() as int))) by {
        lemma_string_modifiers_start(a.charset, a.collation);
        assert(t =~= kw + args_text(args) + mods);
        lemma_parse_args(kw, args, mods);
    }
    assert(string_args(args) == Some(a0));
    assert(parse_string_modifiers(t, pre.len() as int, a0) == Some(a)) by {
        assert(t =~= pre + charset_text(a.charset) + collation_text(a.collation));
        lemma_parse_string_modifiers(pre, a0, a.charset, a.collation);
    }
}

proof fn lemma_write_then_parse_plain(n: TypeName)
    requires
        class_of(n) == AttrClass::Plain,
    ensures
        parse_type_text(keyword(n)) == TypeView::Plain(n),
{
    let kw = keyword(n);
    lemma_parse_known(n, Seq::empty());
    assert(kw + Seq::<char>::empty() =~= kw);
    assert(parse_args(kw, kw.len() as int) == Some((Args::Absent, kw.len() as int)));
    assert(span_end(kw, kw.len() as int, CharClass::Space) == kw.len());
    assert(parse_attributes(n, kw, kw.len() as int) == Some(TypeView::Plain(n)));
}

proof fn lemma_write_then_parse_numeric(n: TypeName, a: NumericAttr)
    requires
        canonical(TypeView::Numeric(n, a)),
    ensures
        parse_type_text(type_text(TypeView::Numeric(n, a))) == TypeView::Numeric(n, a),
{
    let args = args_of_numeric(a);
    let mods = unsigned_text(a.unsigned) + zero_fill_text(a.zero_fill);
    let rest = args_text(args) + mods;
    lemma_numeric_modifiers_start(a.unsigned, a.zero_fill);
    lemma_tail_starts(args, mods);
    lemma_parse_known(n, rest);
    lemma_attributes_numeric(n, a, keyword(n));
    assert(type_text(TypeView::Numeric(n, a)) =~= keyword(n) + rest);
}

proof fn lemma_write_then_parse_time(n: TypeName, a: TimeAttr)
    requires
        canonical(TypeView::Time(n, a)),
    ensures
        parse_type_text(type_text(TypeView::Time(n, a))) == TypeView::Time(n, a),
{
    let args = args_of_time(a);
    let rest = args_text(args);
    lemma_tail_starts(args, Seq::empty());
    assert(args_text(args) + Seq::<char>::empty() =~= rest);
    lemma_parse_known(n, rest);
    lemma_attributes_time(n, a, keyword(n));
}

proof fn lemma_write_then_parse_text(n: TypeName, a: StringAttrView)
    requires
        canonical(TypeView::Text(n, a)),
    ensures
        parse_type_text(type_text(TypeView::Text(n, a))) == TypeView::Text(n, a),
{
    let args = args_of_length(a.length);
    let mods = charset_text(a.charset) + collation_text(a.collation);
    let rest = args_text(args) + mods;
    lemma_string_modifiers_start(a.charset, a.collation);
    lemma_tail_starts(args, mods);
    lemma_parse_known(n, rest);
    lemma_attributes_text(n, a, keyword(n));
    assert(type_text(TypeView::Text(n, a)) =~= keyword(n) + rest);
}

/// Writing a type and reading the text gives the type back: for every type
/// that the parser can give, `Unknown` aside, the declaration that the
/// writer makes of it decodes to the same type, with every attribute.
pub proof fn lemma_write_then_parse(v: TypeView)
    requires
        canonical(v),
    ensures
        parse_type_text(type_text(v)) == v,
{
    match v {
        TypeView::Plain(n) => {
            lemma_write_then_parse_plain(n);
        },
        TypeView::Numeric(n, a) => {
            lemma_write_then_parse_numeric(n, a);
        },
        TypeView::Time(n, a) => {
            lemma_write_then_parse_time(n, a);
        },
        TypeView::Text(n, a) => {
            lemma_write_then_parse_text(n, a);
        },
        TypeView::Unknown(_) => {},
    }
}

proof fn lemma_numeric_modifiers_keep(t: Seq<char>, i: int, a: NumericAttr)
    requires
        a.unsigned != Some(false),
        a.zero_fill != Some(false),
    ensures
        parse_numeric_modifiers(t, i, a) matches Some(r) ==> {
            &&& r.maximum == a.maximum
            &&& r.decimal == a.decimal
            &&& r.unsigned != Some(false)
            &&& r.zero_fill != Some(false)
        },
    decreases t.len() - i,
{
    let s = span_end(t, i, CharClass::Space);
    let e = span_end(t, s, CharClass::Word);
    if s >= t.len() {
    } else if s == i || !(i < e <= t.len()) {
    } else if lower(t.subrange(s, e)) == "unsigned"@ {
        lemma_numeric_modifiers_keep(t, e, NumericAttr { unsigned: Some(true), ..a });
    } else if lower(t.subrange(s, e)) == "zerofill"@ {
        lemma_numeric_modifiers_keep(t, e, NumericAttr { zero_fill: Some(true), ..a });
    }
}

/// What stands between the end of a run of spaces and the end of the word
/// behind it is a word.
proof fn lemma_value_is_word(t: Seq<char>, e: int)
    requires
        0 <= e <= t.len(),
        span_end(t, e, CharClass::Space) < t.len(),
    ensures
        is_word(
            Some(
                t.subrange(
                    span_end(t, e, CharClass::Space),
                    span_end(t, span_end(t, e, CharClass::Space), CharClass::Word),
                ),
            ),
        ),
{
    let s = span_end(t, e, CharClass::Space);
    lemma_span_end_bounds(t, e, CharClass::Space);
    lemma_span_end_bounds(t, s, CharClass::Word);
    lemma_span_end_bounds(t, s + 1, CharClass::Word);
    let e2 = span_end(t, s, CharClass::Word);
    assert(in_class(t[s], CharClass::Word));
    let w = t.subrange(s, e2);
    assert forall|k: int| 0 <= k < w.len() implies in_class(#[trigger] w[k], CharClass::Word) by {
        assert(w[k] == t[s + k]);
    }
}

proof fn lemma_string_modifiers_keep(t: Seq<char>, i: int, a: StringAttrView)
    requires
        0 <= i <= t.len(),
        is_word(a.charset),
        is_word(a.collation),
    ensures
        parse_string_modifiers(t, i, a) matches Some(r) ==> {
            &&& r.length == a.length
            &&& is_word(r.charset)
            &&& is_word(r.collation)
        },
    decreases t.len() - i,
{
    let s = span_end(t, i, CharClass::Space);
    let e = span_end(t, s, CharClass::Word);
    let w = lower(t.subrange(s, e));
    if s >= t.len() {
    } else if s == i || !(i < e <= t.len()) {
    } else if w == "charset"@ || w == "collate"@ {
        let s2 = span_end(t, e, CharClass::Space);
        let e2 = span_end(t, s2, CharClass::Word);
        if s2 >= t.len() || !(e < e2 <= t.len()) {
        } else {
            lemma_value_is_word(t, e);
            if w == "charset"@ {
                lemma_string_modifiers_keep(
                    t,
                    e2,
                    StringAttrView { charset: Some(t.subrange(s2, e2)), ..a },
                );
            } else {
                lemma_string_modifiers_keep(
                    t,
                    e2,
                    StringAttrView { collation: Some(t.subrange(s2, e2)), ..a },
                );
            }
        }
    } else if w == "character"@ {
        let s1 = span_end(t, e, CharClass::Space);
        let e1 = span_end(t, s1, CharClass::Word);
        let s2 = span_end(t, e1, CharClass::Space);
        let e2 = span_end(t, s2, CharClass::Word);
        if s1 >= t.len() || !(e < e1 <= t.len()) || lower(t.subrange(s1, e1)) != "set"@ || s2
            >= t.len() || !(e1 < e2 <= t.len()) {
        } else {
            lemma_value_is_word(t, e1);
            lemma_string_modifiers_keep(
                t,
                e2,
                StringAttrView { charset: Some(t.subrange(s2, e2)), ..a },
            );
        }
    }
}

/// Whatever the declaration, the parser gives `Unknown` or a type that the
/// writer gives back unchanged.
pub proof fn lemma_parsed_is_canonical(t: Seq<char>)
    ensures
        parse_type_text(t) is Unknown || canonical(parse_type_text(t)),
{
    if t.len() > 0 {
        let e = span_end(t, 0, CharClass::Name);
        lemma_span_end_bounds(t, 0, CharClass::Name);
        match lookup_type_name(lower(t.subrange(0, e))) {
            None => {},
            Some(name) => {
                match parse_args(t, e) {
                    None => {},
                    Some((args, i)) => {
                        if e < t.len() && t[e] == '(' {
                            lemma_span_end_bounds(t, e + 1, CharClass::Digit);
                            let d1 = span_end(t, e + 1, CharClass::Digit);
                            if d1 < t.len() {
                                lemma_span_end_bounds(t, d1 + 1, CharClass::Space);
                                lemma_span_end_bounds(
                                    t,
                                    span_end(t, d1 + 1, CharClass::Space),
                                    CharClass::Digit,
                                );
                            }
                        }
                        assert(0 <= i <= t.len());
                        match class_of(name) {
                            AttrClass::Numeric => {
                                if numeric_args(args) is Some {
                                    lemma_numeric_modifiers_keep(t, i, numeric_args(args)->0);
                                }
                            },
                            AttrClass::Text => {
                                if string_args(args) is Some {
                                    lemma_string_modifiers_keep(t, i, string_args(args)->0);
                                }
                            },
                            _ => {},
                        }
                    },
                }
            },
        }
    }
}

/// Reading a declaration and writing the type gives a declaration that
/// reads as the same type: one more round changes nothing.
pub proof fn lemma_parse_write_parse(t: Seq<char>)
    ensures
        !(parse_type_text(t) is Unknown) ==> parse_type_text(type_text(parse_type_text(t)))
            == parse_type_text(t),
{
    lemma_parsed_is_canonical(t);
    if !(parse_type_text(t) is Unknown) {
        lemma_write_then_parse(parse_type_text(t));
    }
}

/// A declaration that could not be decoded is written as it was read.
pub proof fn lemma_unknown_is_passed_through(t: Seq<char>)
    ensures
        parse_type_text(t) is Unknown ==> type_text(parse_type_text(t)) == t,
{
    reveal_strlit(" is unknown or unimplemented");
    reveal_strlit(" has malformed attributes");
    let u = unknown_reason();
    let m = malformed_reason();
    if parse_type_text(t) is Unknown {
        let p = parse_type_text(t)->Unknown_0;
        if t.len() == 0 {
            assert(p =~= Seq::<char>::empty());
            assert(original_text(p) =~= t);
        } else if p == t + u {
            assert(p.subrange(p.len() - u.len(), p.len() as int) =~= u);
            assert(p.subrange(0, p.len() - u.len()) =~= t);
        } else {
            assert(p == t + m);
            assert(p.subrange(p.len() - m.len(), p.len() as int) =~= m);
            assert(p.subrange(0, p.len() - m.len()) =~= t);
            if ends_with(p, u) {
                let tail = p.subrange(p.len() - u.len(), p.len() as int);
                assert(tail[u.len() - 1] == p[p.len() - 1]);
                assert(p[p.len() - 1] == m[m.len() - 1]);
                assert(false);
            }
        }
    }
}

} // verus!
