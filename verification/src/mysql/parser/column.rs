//! Decoding of column type declarations.
//!
//! A declaration is a type name, an optional argument list in parentheses
//! and modifiers set off by spaces, as in `decimal(10,2) unsigned zerofill`,
//! `varchar(45) character set utf8mb4` or `timestamp(3)`. Letter case does
//! not matter in names and modifiers. A declaration that does not follow
//! this grammar is not an error: it is kept as [`Type::Unknown`].

use vstd::prelude::*;
use vstd::string::*;
use crate::error::{CatalogField, SchemaError};
use crate::mysql::def::column::{
    ColumnDefault, ColumnExtra, ColumnInfo, ColumnInfoView, ColumnKey,
};
use crate::mysql::def::types::{
    class_of, AttrClass, NumericAttr, StringAttr, StringAttrView, TimeAttr, Type, TypeName,
    TypeView,
};
use crate::mysql::query::column::{ColumnQueryResult, ColumnRow};
use crate::text::{
    lemma_word_not_empty, lower, lower_eq, parse_args, read_args, scan, span_end, str_eq,
    to_chars, Args, CharClass,
};

verus! {

/// The type name that a word in lower case stands for.
pub open spec fn lookup_type_name(w: Seq<char>) -> Option<TypeName> {
    if w == "serial"@ {
        Some(TypeName::Serial)
    } else if w == "bit"@ {
        Some(TypeName::Bit)
    } else if w == "tinyint"@ {
        Some(TypeName::TinyInt)
    } else if w == "bool"@ || w == "boolean"@ {
        Some(TypeName::Bool)
    } else if w == "smallint"@ {
        Some(TypeName::SmallInt)
    } else if w == "mediumint"@ {
        Some(TypeName::MediumInt)
    } else if w == "int"@ || w == "integer"@ {
        Some(TypeName::Int)
    } else if w == "bigint"@ {
        Some(TypeName::BigInt)
    } else if w == "decimal"@ || w == "dec"@ || w == "numeric"@ || w == "fixed"@ {
        Some(TypeName::Decimal)
    } else if w == "float"@ {
        Some(TypeName::Float)
    } else if w == "double"@ || w == "real"@ {
        Some(TypeName::Double)
    } else if w == "date"@ {
        Some(TypeName::Date)
    } else if w == "time"@ {
        Some(TypeName::Time)
    } else if w == "datetime"@ {
        Some(TypeName::DateTime)
    } else if w == "timestamp"@ {
        Some(TypeName::Timestamp)
    } else if w == "year"@ {
        Some(TypeName::Year)
    } else if w == "char"@ {
        Some(TypeName::Char)
    } else if w == "nchar"@ {
        Some(TypeName::NChar)
    } else if w == "varchar"@ {
        Some(TypeName::Varchar)
    } else if w == "nvarchar"@ {
        Some(TypeName::NVarchar)
    } else if w == "binary"@ {
        Some(TypeName::Binary)
    } else if w == "varbinary"@ {
        Some(TypeName::Varbinary)
    } else if w == "text"@ {
        Some(TypeName::Text)
    } else if w == "tinytext"@ {
        Some(TypeName::TinyText)
    } else if w == "mediumtext"@ {
        Some(TypeName::MediumText)
    } else if w == "longtext"@ {
        Some(TypeName::LongText)
    } else if w == "blob"@ {
        Some(TypeName::Blob)
    } else if w == "tinyblob"@ {
        Some(TypeName::TinyBlob)
    } else if w == "mediumblob"@ {
        Some(TypeName::MediumBlob)
    } else if w == "longblob"@ {
        Some(TypeName::LongBlob)
    } else if w == "json"@ {
        Some(TypeName::Json)
    } else {
        None
    }
}

/// The numeric attributes that an argument list gives; `None` when a
/// number is too large.
pub open spec fn numeric_args(args: Args) -> Option<NumericAttr> {
    match args {
        Args::Absent => Some(
            NumericAttr { maximum: None, decimal: None, unsigned: None, zero_fill: None },
        ),
        Args::One(m) => if m <= u16::MAX {
            Some(
                NumericAttr {
                    maximum: Some(m as u16),
                    decimal: None,
                    unsigned: None,
                    zero_fill: None,
                },
            )
        } else {
            None
        },
        Args::Two(m, d) => if m <= u16::MAX && d <= u16::MAX {
            Some(
                NumericAttr {
                    maximum: Some(m as u16),
                    decimal: Some(d as u16),
                    unsigned: None,
                    zero_fill: None,
                },
            )
        } else {
            None
        },
    }
}

/// The temporal attributes that an argument list gives; `None` when there
/// are two numbers or the number is too large.
pub open spec fn time_args(args: Args) -> Option<TimeAttr> {
    match args {
        Args::Absent => Some(TimeAttr { fractional: None }),
        Args::One(n) => if n <= u8::MAX {
            Some(TimeAttr { fractional: Some(n as u8) })
        } else {
            None
        },
        Args::Two(_, _) => None,
    }
}

/// The declared length that an argument list gives; `None` when there are
/// two numbers.
pub open spec fn string_args(args: Args) -> Option<StringAttrView> {
    match args {
        Args::Absent => Some(StringAttrView { length: None, charset: None, collation: None }),
        Args::One(n) => Some(StringAttrView { length: Some(n), charset: None, collation: None }),
        Args::Two(_, _) => None,
    }
}

/// The modifiers of a numeric type from `i` on, applied to `attr`: the
/// words `unsigned` and `zerofill`, each set off by spaces, in any order.
/// `None` when anything else stands there.
pub open spec fn parse_numeric_modifiers(t: Seq<char>, i: int, attr: NumericAttr) -> Option<
    NumericAttr,
>
    decreases t.len() - i,
{
    let s = span_end(t, i, CharClass::Space);
    let e = span_end(t, s, CharClass::Word);
    if s >= t.len() {
        Some(attr)
    } else if s == i || !(i < e <= t.len()) {
        None
    } else if lower(t.subrange(s, e)) == "unsigned"@ {
        parse_numeric_modifiers(t, e, NumericAttr { unsigned: Some(true), ..attr })
    } else if lower(t.subrange(s, e)) == "zerofill"@ {
        parse_numeric_modifiers(t, e, NumericAttr { zero_fill: Some(true), ..attr })
    } else {
        None
    }
}

/// The modifiers of a string type from `i` on, applied to `attr`: the
/// clauses `character set <name>`, `charset <name>` and `collate <name>`,
/// each word set off by spaces, in any order. `None` when anything else
/// stands there.
pub open spec fn parse_string_modifiers(t: Seq<char>, i: int, attr: StringAttrView) -> Option<
    StringAttrView,
>
    decreases t.len() - i,
{
    let s = span_end(t, i, CharClass::Space);
    let e = span_end(t, s, CharClass::Word);
    let w = lower(t.subrange(s, e));
    if s >= t.len() {
        Some(attr)
    } else if s == i || !(i < e <= t.len()) {
        None
    } else if w == "charset"@ || w == "collate"@ {
        let s2 = span_end(t, e, CharClass::Space);
        let e2 = span_end(t, s2, CharClass::Word);
        if s2 >= t.len() || !(e < e2 <= t.len()) {
            None
        } else if w == "charset"@ {
            parse_string_modifiers(
                t,
                e2,
                StringAttrView { charset: Some(t.subrange(s2, e2)), ..attr },
            )
        } else {
            parse_string_modifiers(
                t,
                e2,
                StringAttrView { collation: Some(t.subrange(s2, e2)), ..attr },
            )
        }
    } else if w == "character"@ {
        let s1 = span_end(t, e, CharClass::Space);
        let e1 = span_end(t, s1, CharClass::Word);
        let s2 = span_end(t, e1, CharClass::Space);
        let e2 = span_end(t, s2, CharClass::Word);
        if s1 >= t.len() || !(e < e1 <= t.len()) || lower(t.subrange(s1, e1)) != "set"@ || s2
            >= t.len() || !(e1 < e2 <= t.len()) {
            None
        } else {
            parse_string_modifiers(
                t,
                e2,
                StringAttrView { charset: Some(t.subrange(s2, e2)), ..attr },
            )
        }
    } else {
        None
    }
}

/// The type of `name` with the attributes that stand behind the name,
/// from `e` on; `None` when they do not follow the grammar.
pub open spec fn parse_attributes(name: TypeName, t: Seq<char>, e: int) -> Option<TypeView> {
    match parse_args(t, e) {
        None => None,
        Some((args, i)) => match class_of(name) {
            AttrClass::Plain => if args == Args::Absent && span_end(t, i, CharClass::Space)
                == t.len() {
                Some(TypeView::Plain(name))
            } else {
                None
            },
            AttrClass::Numeric => match numeric_args(args) {
                None => None,
                Some(a) => match parse_numeric_modifiers(t, i, a) {
                    None => None,
                    Some(a) => Some(TypeView::Numeric(name, a)),
                },
            },
            AttrClass::Time => match time_args(args) {
                None => None,
                Some(a) => if span_end(t, i, CharClass::Space) == t.len() {
                    Some(TypeView::Time(name, a))
                } else {
                    None
                },
            },
            AttrClass::Text => match string_args(args) {
                None => None,
                Some(a) => match parse_string_modifiers(t, i, a) {
                    None => None,
                    Some(a) => Some(TypeView::Text(name, a)),
                },
            },
        },
    }
}

/// What is put behind a declaration whose type name is not known.
pub open spec fn unknown_reason() -> Seq<char> {
    " is unknown or unimplemented"@
}

/// What is put behind a declaration whose attributes do not follow the
/// grammar.
pub open spec fn malformed_reason() -> Seq<char> {
    " has malformed attributes"@
}

/// The type that a declaration stands for.
///
/// The empty declaration is `Unknown` with an empty text. Any other
/// declaration starts with its type name, the longest run of letters,
/// digits and underscores. Where the name is not known, or the attributes
/// do not follow the grammar, the result is `Unknown` with the whole
/// declaration followed by the reason.
pub open spec fn parse_type_text(t: Seq<char>) -> TypeView {
    if t.len() == 0 {
        TypeView::Unknown(Seq::empty())
    } else {
        let e = span_end(t, 0, CharClass::Name);
        match lookup_type_name(lower(t.subrange(0, e))) {
            None => TypeView::Unknown(t + unknown_reason()),
            Some(name) => match parse_attributes(name, t, e) {
                None => TypeView::Unknown(t + malformed_reason()),
                Some(v) => v,
            },
        }
    }
}

fn find_type_name(t: &Vec<char>, e: usize) -> (r: Option<TypeName>)
    requires
        e <= t@.len(),
    ensures
        r == lookup_type_name(lower(t@.subrange(0, e as int))),
{
    if lower_eq(t, 0, e, "serial") {
        Some(TypeName::Serial)
    } else if lower_eq(t, 0, e, "bit") {
        Some(TypeName::Bit)
    } else if lower_eq(t, 0, e, "tinyint") {
        Some(TypeName::TinyInt)
    } else if lower_eq(t, 0, e, "bool") || lower_eq(t, 0, e, "boolean") {
        Some(TypeName::Bool)
    } else if lower_eq(t, 0, e, "smallint") {
        Some(TypeName::SmallInt)
    } else if lower_eq(t, 0, e, "mediumint") {
        Some(TypeName::MediumInt)
    } else if lower_eq(t, 0, e, "int") || lower_eq(t, 0, e, "integer") {
        Some(TypeName::Int)
    } else if lower_eq(t, 0, e, "bigint") {
        Some(TypeName::BigInt)
    } else if lower_eq(t, 0, e, "decimal") || lower_eq(t, 0, e, "dec") || lower_eq(
        t,
        0,
        e,
        "numeric",
    ) || lower_eq(t, 0, e, "fixed") {
        Some(TypeName::Decimal)
    } else if lower_eq(t, 0, e, "float") {
        Some(TypeName::Float)
    } else if lower_eq(t, 0, e, "double") || lower_eq(t, 0, e, "real") {
        Some(TypeName::Double)
    } else if lower_eq(t, 0, e, "date") {
        Some(TypeName::Date)
    } else if lower_eq(t, 0, e, "time") {
        Some(TypeName::Time)
    } else if lower_eq(t, 0, e, "datetime") {
        Some(TypeName::DateTime)
    } else if lower_eq(t, 0, e, "timestamp") {
        Some(TypeName::Timestamp)
    } else if lower_eq(t, 0, e, "year") {
        Some(TypeName::Year)
    } else if lower_eq(t, 0, e, "char") {
        Some(TypeName::Char)
    } else if lower_eq(t, 0, e, "nchar") {
        Some(TypeName::NChar)
    } else if lower_eq(t, 0, e, "varchar") {
        Some(TypeName::Varchar)
    } else if lower_eq(t, 0, e, "nvarchar") {
        Some(TypeName::NVarchar)
    } else if lower_eq(t, 0, e, "binary") {
        Some(TypeName::Binary)
    } else if lower_eq(t, 0, e, "varbinary") {
        Some(TypeName::Varbinary)
    } else if lower_eq(t, 0, e, "text") {
        Some(TypeName::Text)
    } else if lower_eq(t, 0, e, "tinytext") {
        Some(TypeName::TinyText)
    } else if lower_eq(t, 0, e, "mediumtext") {
        Some(TypeName::MediumText)
    } else if lower_eq(t, 0, e, "longtext") {
        Some(TypeName::LongText)
    } else if lower_eq(t, 0, e, "blob") {
        Some(TypeName::Blob)
    } else if lower_eq(t, 0, e, "tinyblob") {
        Some(TypeName::TinyBlob)
    } else if lower_eq(t, 0, e, "mediumblob") {
        Some(TypeName::MediumBlob)
    } else if lower_eq(t, 0, e, "longblob") {
        Some(TypeName::LongBlob)
    } else if lower_eq(t, 0, e, "json") {
        Some(TypeName::Json)
    } else {
        None
    }
}

/// The type name that a word stands for, letter case aside.
pub fn parse_type_name(word: &str) -> (r: Option<TypeName>)
    ensures
        r == lookup_type_name(lower(word@)),
{
    let t = to_chars(word);
    assert(t@.subrange(0, t@.len() as int) =~= word@);
    find_type_name(&t, t.len())
}

fn numeric_attr_of(args: Args) -> (r: Option<NumericAttr>)
    ensures
        r == numeric_args(args),
{
    match args {
        Args::Absent => Some(
            NumericAttr { maximum: None, decimal: None, unsigned: None, zero_fill: None },
        ),
        Args::One(m) => {
            if m <= 0xffff {
                Some(
                    NumericAttr {
                        maximum: Some(m as u16),
                        decimal: None,
                        unsigned: None,
                        zero_fill: None,
                    },
                )
            } else {
                None
            }
        },
        Args::Two(m, d) => {
            if m <= 0xffff && d <= 0xffff {
                Some(
                    NumericAttr {
                        maximum: Some(m as u16),
                        decimal: Some(d as u16),
                        unsigned: None,
                        zero_fill: None,
                    },
                )
            } else {
                None
            }
        },
    }
}

fn time_attr_of(args: Args) -> (r: Option<TimeAttr>)
    ensures
        r == time_args(args),
{
    match args {
        Args::Absent => Some(TimeAttr { fractional: None }),
        Args::One(n) => {
            if n <= 0xff {
                Some(TimeAttr { fractional: Some(n as u8) })
            } else {
                None
            }
        },
        Args::Two(_, _) => None,
    }
}

fn read_numeric_modifiers(t: &Vec<char>, from: usize, attr: NumericAttr) -> (r: Option<
    NumericAttr,
>)
    requires
        from <= t@.len(),
    ensures
        r == parse_numeric_modifiers(t@, from as int, attr),
{
    let mut i: usize = from;
    let mut a = attr;
    loop
        invariant
            i <= t@.len(),
            parse_numeric_modifiers(t@, from as int, attr) == parse_numeric_modifiers(
                t@,
                i as int,
                a,
            ),
        decreases t@.len() - i,
    {
        let s = scan(t, i, CharClass::Space);
        if s >= t.len() {
            return Some(a);
        }
        if s == i {
            return None;
        }
        let e = scan(t, s, CharClass::Word);
        proof {
            lemma_word_not_empty(t@, i as int);
        }
        if lower_eq(t, s, e, "unsigned") {
            a = NumericAttr { unsigned: Some(true), ..a };
        } else if lower_eq(t, s, e, "zerofill") {
            a = NumericAttr { zero_fill: Some(true), ..a };
        } else {
            return None;
        }
        i = e;
    }
}

fn word_at(text: &str, t: &Vec<char>, from: usize, to: usize) -> (r: String)
    requires
        text@ == t@,
        from <= to <= t@.len(),
    ensures
        r@ == t@.subrange(from as int, to as int),
{
    String::from_str(text.substring_char(from, to))
}

fn read_string_modifiers(text: &str, t: &Vec<char>, from: usize, attr: StringAttr) -> (r: Option<
    StringAttr,
>)
    requires
        text@ == t@,
        from <= t@.len(),
    ensures
        match r {
            Some(a) => parse_string_modifiers(t@, from as int, attr@) == Some(a@),
            None => parse_string_modifiers(t@, from as int, attr@) is None,
        },
{
    let mut i: usize = from;
    let mut a = attr;
    loop
        invariant
            text@ == t@,
            i <= t@.len(),
            parse_string_modifiers(t@, from as int, attr@) == parse_string_modifiers(
                t@,
                i as int,
                a@,
            ),
        decreases t@.len() - i,
    {
        let s = scan(t, i, CharClass::Space);
        if s >= t.len() {
            return Some(a);
        }
        if s == i {
            return None;
        }
        let e = scan(t, s, CharClass::Word);
        proof {
            lemma_word_not_empty(t@, i as int);
        }
        let is_charset = lower_eq(t, s, e, "charset");
        let is_collate = lower_eq(t, s, e, "collate");
        if is_charset || is_collate {
            let s2 = scan(t, e, CharClass::Space);
            if s2 >= t.len() {
                return None;
            }
            let e2 = scan(t, s2, CharClass::Word);
            proof {
                lemma_word_not_empty(t@, e as int);
            }
            let value = word_at(text, t, s2, e2);
            if is_charset {
                a = StringAttr { length: a.length, charset: Some(value), collation: a.collation };
            } else {
                a = StringAttr { length: a.length, charset: a.charset, collation: Some(value) };
            }
            i = e2;
        } else if lower_eq(t, s, e, "character") {
            let s1 = scan(t, e, CharClass::Space);
            if s1 >= t.len() {
                return None;
            }
            let e1 = scan(t, s1, CharClass::Word);
            proof {
                lemma_word_not_empty(t@, e as int);
            }
            if !lower_eq(t, s1, e1, "set") {
                return None;
            }
            let s2 = scan(t, e1, CharClass::Space);
            if s2 >= t.len() {
                return None;
            }
            let e2 = scan(t, s2, CharClass::Word);
            proof {
                lemma_word_not_empty(t@, e1 as int);
            }
            let value = word_at(text, t, s2, e2);
            a = StringAttr { length: a.length, charset: Some(value), collation: a.collation };
            i = e2;
        } else {
            return None;
        }
    }
}

fn read_attributes(name: TypeName, text: &str, t: &Vec<char>, e: usize) -> (r: Option<Type>)
    requires
        text@ == t@,
        e <= t@.len(),
    ensures
        match r {
            Some(ty) => parse_attributes(name, t@, e as int) == Some(ty@),
            None => parse_attributes(name, t@, e as int) is None,
        },
{
    let (args, i) = match read_args(t, e) {
        Some(found) => found,
        None => {
            return None;
        },
    };
    match name.attr_class() {
        AttrClass::Plain => {
            let is_absent = match args {
                Args::Absent => true,
                _ => false,
            };
            if is_absent && scan(t, i, CharClass::Space) == t.len() {
                Some(Type::plain(name))
            } else {
                None
            }
        },
        AttrClass::Numeric => {
            match numeric_attr_of(args) {
                None => None,
                Some(a) => match read_numeric_modifiers(t, i, a) {
                    None => None,
                    Some(a) => Some(Type::numeric(name, a)),
                },
            }
        },
        AttrClass::Time => {
            match time_attr_of(args) {
                None => None,
                Some(a) => {
                    if scan(t, i, CharClass::Space) == t.len() {
                        Some(Type::temporal(name, a))
                    } else {
                        None
                    }
                },
            }
        },
        AttrClass::Text => {
            let length = match args {
                Args::Absent => None,
                Args::One(n) => Some(n),
                Args::Two(_, _) => {
                    return None;
                },
            };
            let a = StringAttr { length, charset: None, collation: None };
            match read_string_modifiers(text, t, i, a) {
                None => None,
                Some(a) => Some(Type::string(name, a)),
            }
        },
    }
}

/// Decodes the declaration of a column type.
///
/// Never fails: a declaration with an unknown name or with attributes
/// that do not follow the grammar comes back as [`Type::Unknown`], holding
/// the declaration followed by the reason.
pub fn parse_column_type(column_type: &str) -> (r: Type)
    ensures
        r@ == parse_type_text(column_type@),
{
    let t = to_chars(column_type);
    if t.len() == 0 {
        return Type::Unknown(String::new());
    }
    let e = scan(&t, 0, CharClass::Name);
    match find_type_name(&t, e) {
        None => Type::Unknown(
            String::from_str(column_type).concat(" is unknown or unimplemented"),
        ),
        Some(name) => match read_attributes(name, column_type, &t, e) {
            None => Type::Unknown(
                String::from_str(column_type).concat(" has malformed attributes"),
            ),
            Some(ty) => ty,
        },
    }
}

/// Whether a column can hold null, by its catalog flag.
pub open spec fn nullable_of(flag: Seq<char>) -> Option<bool> {
    if flag == "YES"@ {
        Some(true)
    } else if flag == "NO"@ {
        Some(false)
    } else {
        None
    }
}

/// The key class that a catalog marker stands for.
pub open spec fn column_key_of(marker: Seq<char>) -> Option<ColumnKey> {
    if marker == "PRI"@ {
        Some(ColumnKey::Primary)
    } else if marker == "UNI"@ {
        Some(ColumnKey::Unique)
    } else if marker == "MUL"@ {
        Some(ColumnKey::Multiple)
    } else if marker.len() == 0 {
        Some(ColumnKey::NotKey)
    } else {
        None
    }
}

/// The flags that the words of the catalog's `extra` field set, from `i`
/// on, added to `x`. Letter case does not matter; words that set no flag
/// are passed over.
pub open spec fn parse_extra(t: Seq<char>, i: int, x: ColumnExtra) -> ColumnExtra
    decreases t.len() - i,
{
    let s = span_end(t, i, CharClass::Space);
    let e = span_end(t, s, CharClass::Word);
    let w = lower(t.subrange(s, e));
    let s1 = span_end(t, e, CharClass::Space);
    let e1 = span_end(t, s1, CharClass::Word);
    let w1 = lower(t.subrange(s1, e1));
    let s2 = span_end(t, e1, CharClass::Space);
    let e2 = span_end(t, s2, CharClass::Word);
    let w2 = lower(t.subrange(s2, e2));
    if s >= t.len() || !(i < e <= t.len()) {
        x
    } else if w == "auto_increment"@ {
        parse_extra(t, e, ColumnExtra { auto_increment: true, ..x })
    } else if w == "default_generated"@ {
        parse_extra(t, e, ColumnExtra { default_generated: true, ..x })
    } else if w == "on"@ && w1 == "update"@ && w2 == "current_timestamp"@ && e < e2 <= t.len() {
        parse_extra(t, e2, ColumnExtra { on_update_current_timestamp: true, ..x })
    } else if (w == "stored"@ || w == "virtual"@) && w1 == "generated"@ && e < e1 <= t.len() {
        parse_extra(t, e1, ColumnExtra { generated: true, ..x })
    } else {
        parse_extra(t, e, x)
    }
}

/// The flags that the catalog's `extra` field sets.
pub open spec fn column_extra_of(extra: Seq<char>) -> ColumnExtra {
    parse_extra(
        extra,
        0,
        ColumnExtra {
            auto_increment: false,
            on_update_current_timestamp: false,
            generated: false,
            default_generated: false,
        },
    )
}

/// The generation expression of a column; an empty one counts as none.
pub open spec fn generation_of(expression: Option<Seq<char>>) -> Option<Seq<char>> {
    match expression {
        Some(e) => if e.len() == 0 {
            None
        } else {
            Some(e)
        },
        None => None,
    }
}

/// What one column row decodes to. The nullability flag is looked at
/// before the key class.
pub open spec fn decode_column_row(r: ColumnRow) -> Result<ColumnInfoView, SchemaError> {
    if nullable_of(r.is_nullable) is None {
        Err(SchemaError::MalformedSentinel(CatalogField::IsNullable))
    } else if column_key_of(r.column_key) is None {
        Err(SchemaError::MalformedSentinel(CatalogField::ColumnKey))
    } else {
        Ok(
            ColumnInfoView {
                name: r.column_name,
                col_type: parse_type_text(r.column_type),
                null: nullable_of(r.is_nullable)->0,
                key: column_key_of(r.column_key)->0,
                default: r.column_default,
                extra: column_extra_of(r.extra),
                expression: generation_of(r.generation_expression),
                comment: r.column_comment,
            },
        )
    }
}

/// Decodes the catalog's nullability flag.
pub fn parse_nullable(flag: &str) -> (r: Option<bool>)
    ensures
        r == nullable_of(flag@),
{
    if str_eq(flag, "YES") {
        Some(true)
    } else if str_eq(flag, "NO") {
        Some(false)
    } else {
        None
    }
}

/// Decodes the catalog's key class marker.
pub fn parse_column_key(marker: &str) -> (r: Option<ColumnKey>)
    ensures
        r == column_key_of(marker@),
{
    if str_eq(marker, "PRI") {
        Some(ColumnKey::Primary)
    } else if str_eq(marker, "UNI") {
        Some(ColumnKey::Unique)
    } else if str_eq(marker, "MUL") {
        Some(ColumnKey::Multiple)
    } else if marker.unicode_len() == 0 {
        Some(ColumnKey::NotKey)
    } else {
        None
    }
}

/// Decodes the catalog's `extra` field.
pub fn parse_column_extra(extra: &str) -> (r: ColumnExtra)
    ensures
        r == column_extra_of(extra@),
{
    let t = to_chars(extra);
    let mut x = ColumnExtra {
        auto_increment: false,
        on_update_current_timestamp: false,
        generated: false,
        default_generated: false,
    };
    let mut i: usize = 0;
    loop
        invariant
            i <= t@.len(),
            t@ == extra@,
            column_extra_of(extra@) == parse_extra(t@, i as int, x),
        decreases t@.len() - i,
    {
        let s = scan(&t, i, CharClass::Space);
        if s >= t.len() {
            return x;
        }
        let e = scan(&t, s, CharClass::Word);
        proof {
            lemma_word_not_empty(t@, i as int);
        }
        let s1 = scan(&t, e, CharClass::Space);
        let e1 = scan(&t, s1, CharClass::Word);
        let s2 = scan(&t, e1, CharClass::Space);
        let e2 = scan(&t, s2, CharClass::Word);
        if lower_eq(&t, s, e, "auto_increment") {
            x = ColumnExtra { auto_increment: true, ..x };
            i = e;
        } else if lower_eq(&t, s, e, "default_generated") {
            x = ColumnExtra { default_generated: true, ..x };
            i = e;
        } else if lower_eq(&t, s, e, "on") && lower_eq(&t, s1, e1, "update") && lower_eq(
            &t,
            s2,
            e2,
            "current_timestamp",
        ) && e < e2 {
            x = ColumnExtra { on_update_current_timestamp: true, ..x };
            i = e2;
        } else if (lower_eq(&t, s, e, "stored") || lower_eq(&t, s, e, "virtual")) && lower_eq(
            &t,
            s1,
            e1,
            "generated",
        ) && e < e1 {
            x = ColumnExtra { generated: true, ..x };
            i = e1;
        } else {
            i = e;
        }
    }
}

/// Decodes one column row, leaving the row as it is.
pub fn decode_column_query_result(result: &ColumnQueryResult) -> (r: Result<ColumnInfo, SchemaError>)
    ensures
        match r {
            Ok(info) => decode_column_row(result@) == Ok::<ColumnInfoView, SchemaError>(info@),
            Err(e) => decode_column_row(result@) == Err::<ColumnInfoView, SchemaError>(e),
        },
{
    let null = match parse_nullable(result.is_nullable.as_str()) {
        Some(b) => b,
        None => {
            return Err(SchemaError::MalformedSentinel(CatalogField::IsNullable));
        },
    };
    let key = match parse_column_key(result.column_key.as_str()) {
        Some(k) => k,
        None => {
            return Err(SchemaError::MalformedSentinel(CatalogField::ColumnKey));
        },
    };
    let default = match &result.column_default {
        Some(d) => Some(ColumnDefault { expr: d.clone() }),
        None => None,
    };
    let expression = match &result.generation_expression {
        Some(e) => {
            if e.as_str().unicode_len() == 0 {
                None
            } else {
                Some(e.clone())
            }
        },
        None => None,
    };
    Ok(
        ColumnInfo {
            name: result.column_name.clone(),
            col_type: parse_column_type(result.column_type.as_str()),
            null,
            key,
            default,
            extra: parse_column_extra(result.extra.as_str()),
            expression,
            comment: result.column_comment.clone(),
        },
    )
}

/// Decodes one column row into the column it describes.
///
/// A nullability flag or key class outside its closed set is reported as
/// [`SchemaError::MalformedSentinel`]; a type that cannot be decoded is
/// not an error but [`Type::Unknown`].
pub fn parse_column_query_result(result: ColumnQueryResult) -> (r: Result<ColumnInfo, SchemaError>)
    ensures
        match r {
            Ok(info) => decode_column_row(result@) == Ok::<ColumnInfoView, SchemaError>(info@),
            Err(e) => decode_column_row(result@) == Err::<ColumnInfoView, SchemaError>(e),
        },
{
    decode_column_query_result(&result)
}

} // verus!
