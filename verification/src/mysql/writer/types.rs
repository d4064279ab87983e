//! The text of column types in table definitions.
//!
//! What is written here is what the parser of declarations reads: the
//! type's keyword in upper case, its numbers in parentheses, its modifiers.

use vstd::prelude::*;
use vstd::string::*;
use crate::mysql::def::types::{
    NumericAttr, StringAttr, StringAttrView, TimeAttr, Type, TypeName, TypeView,
};
use crate::mysql::parser::column::{malformed_reason, unknown_reason};
use crate::text::{digits, opt_view, to_chars, write_number, Args};

verus! {

/// The keyword of a type name.
pub open spec fn keyword(name: TypeName) -> Seq<char> {
    match name {
        TypeName::Serial => "SERIAL"@,
        TypeName::Bit => "BIT"@,
        TypeName::TinyInt => "TINYINT"@,
        TypeName::Bool => "BOOL"@,
        TypeName::SmallInt => "SMALLINT"@,
        TypeName::MediumInt => "MEDIUMINT"@,
        TypeName::Int => "INT"@,
        TypeName::BigInt => "BIGINT"@,
        TypeName::Decimal => "DECIMAL"@,
        TypeName::Float => "FLOAT"@,
        TypeName::Double => "DOUBLE"@,
        TypeName::Date => "DATE"@,
        TypeName::Time => "TIME"@,
        TypeName::DateTime => "DATETIME"@,
        TypeName::Timestamp => "TIMESTAMP"@,
        TypeName::Year => "YEAR"@,
        TypeName::Char => "CHAR"@,
        TypeName::NChar => "NCHAR"@,
        TypeName::Varchar => "VARCHAR"@,
        TypeName::NVarchar => "NVARCHAR"@,
        TypeName::Binary => "BINARY"@,
        TypeName::Varbinary => "VARBINARY"@,
        TypeName::Text => "TEXT"@,
        TypeName::TinyText => "TINYTEXT"@,
        TypeName::MediumText => "MEDIUMTEXT"@,
        TypeName::LongText => "LONGTEXT"@,
        TypeName::Blob => "BLOB"@,
        TypeName::TinyBlob => "TINYBLOB"@,
        TypeName::MediumBlob => "MEDIUMBLOB"@,
        TypeName::LongBlob => "LONGBLOB"@,
        TypeName::Json => "JSON"@,
    }
}

/// The text of an argument list.
pub open spec fn args_text(args: Args) -> Seq<char> {
    match args {
        Args::Absent => Seq::empty(),
        Args::One(n) => seq!['('] + digits(n as nat) + seq![')'],
        Args::Two(m, d) => seq!['('] + digits(m as nat) + seq![','] + digits(d as nat) + seq![
            ')',
        ],
    }
}

/// The argument list that numeric attributes are written with. Decimal
/// digits are written only behind a maximum.
pub open spec fn args_of_numeric(a: NumericAttr) -> Args {
    match a.maximum {
        None => Args::Absent,
        Some(m) => match a.decimal {
            None => Args::One(m as u32),
            Some(d) => Args::Two(m as u32, d as u32),
        },
    }
}

/// The argument list that temporal attributes are written with.
pub open spec fn args_of_time(a: TimeAttr) -> Args {
    match a.fractional {
        None => Args::Absent,
        Some(f) => Args::One(f as u32),
    }
}

/// The argument list that a declared length is written with.
pub open spec fn args_of_length(length: Option<u32>) -> Args {
    match length {
        None => Args::Absent,
        Some(n) => Args::One(n),
    }
}

/// ` UNSIGNED` where the flag is set, else nothing.
pub open spec fn unsigned_text(flag: Option<bool>) -> Seq<char> {
    if flag == Some(true) {
        " UNSIGNED"@
    } else {
        Seq::empty()
    }
}

/// ` ZEROFILL` where the flag is set, else nothing.
pub open spec fn zero_fill_text(flag: Option<bool>) -> Seq<char> {
    if flag == Some(true) {
        " ZEROFILL"@
    } else {
        Seq::empty()
    }
}

/// ` CHARACTER SET ` and the name where there is one, else nothing.
pub open spec fn charset_text(charset: Option<Seq<char>>) -> Seq<char> {
    match charset {
        Some(c) => " CHARACTER SET "@ + c,
        None => Seq::empty(),
    }
}

/// ` COLLATE ` and the name where there is one, else nothing.
pub open spec fn collation_text(collation: Option<Seq<char>>) -> Seq<char> {
    match collation {
        Some(c) => " COLLATE "@ + c,
        None => Seq::empty(),
    }
}

/// Whether `p` ends with `suffix`.
pub open spec fn ends_with(p: Seq<char>, suffix: Seq<char>) -> bool {
    p.len() >= suffix.len() && p.subrange(p.len() - suffix.len(), p.len() as int) == suffix
}

/// The declaration that the text of an `Unknown` type was made from: the
/// text without the reason at its end.
pub open spec fn original_text(p: Seq<char>) -> Seq<char> {
    if ends_with(p, unknown_reason()) {
        p.subrange(0, p.len() - unknown_reason().len())
    } else if ends_with(p, malformed_reason()) {
        p.subrange(0, p.len() - malformed_reason().len())
    } else {
        p
    }
}

/// The text that a type is written as.
pub open spec fn type_text(v: TypeView) -> Seq<char> {
    match v {
        TypeView::Plain(n) => keyword(n),
        TypeView::Numeric(n, a) => keyword(n) + args_text(args_of_numeric(a)) + unsigned_text(
            a.unsigned,
        ) + zero_fill_text(a.zero_fill),
        TypeView::Time(n, a) => keyword(n) + args_text(args_of_time(a)),
        TypeView::Text(n, a) => keyword(n) + args_text(args_of_length(a.length)) + charset_text(
            a.charset,
        ) + collation_text(a.collation),
        TypeView::Unknown(p) => original_text(p),
    }
}

/// The keyword of a type name.
pub fn keyword_of(name: TypeName) -> (r: &'static str)
    ensures
        r@ == keyword(name),
{
    match name {
        TypeName::Serial => "SERIAL",
        TypeName::Bit => "BIT",
        TypeName::TinyInt => "TINYINT",
        TypeName::Bool => "BOOL",
        TypeName::SmallInt => "SMALLINT",
        TypeName::MediumInt => "MEDIUMINT",
        TypeName::Int => "INT",
        TypeName::BigInt => "BIGINT",
        TypeName::Decimal => "DECIMAL",
        TypeName::Float => "FLOAT",
        TypeName::Double => "DOUBLE",
        TypeName::Date => "DATE",
        TypeName::Time => "TIME",
        TypeName::DateTime => "DATETIME",
        TypeName::Timestamp => "TIMESTAMP",
        TypeName::Year => "YEAR",
        TypeName::Char => "CHAR",
        TypeName::NChar => "NCHAR",
        TypeName::Varchar => "VARCHAR",
        TypeName::NVarchar => "NVARCHAR",
        TypeName::Binary => "BINARY",
        TypeName::Varbinary => "VARBINARY",
        TypeName::Text => "TEXT",
        TypeName::TinyText => "TINYTEXT",
        TypeName::MediumText => "MEDIUMTEXT",
        TypeName::LongText => "LONGTEXT",
        TypeName::Blob => "BLOB",
        TypeName::TinyBlob => "TINYBLOB",
        TypeName::MediumBlob => "MEDIUMBLOB",
        TypeName::LongBlob => "LONGBLOB",
        TypeName::Json => "JSON",
    }
}

fn write_args(out: &mut String, args: Args)
    ensures
        final(out)@ == old(out)@ + args_text(args),
{
    proof {
        reveal_strlit("(");
        reveal_strlit(")");
        reveal_strlit(",");
    }
    match args {
        Args::Absent => {
            assert(out@ =~= old(out)@ + args_text(args));
        },
        Args::One(n) => {
            out.append("(");
            write_number(out, n);
            out.append(")");
            assert("("@ =~= seq!['(']);
            assert(")"@ =~= seq![')']);
            assert(out@ =~= old(out)@ + args_text(args));
        },
        Args::Two(m, d) => {
            out.append("(");
            write_number(out, m);
            out.append(",");
            write_number(out, d);
            out.append(")");
            assert("("@ =~= seq!['(']);
            assert(")"@ =~= seq![')']);
            assert(","@ =~= seq![',']);
            assert(out@ =~= old(out)@ + args_text(args));
        },
    }
}

fn numeric_args_of(a: &NumericAttr) -> (r: Args)
    ensures
        r == args_of_numeric(*a),
{
    match a.maximum {
        None => Args::Absent,
        Some(m) => match a.decimal {
            None => Args::One(m as u32),
            Some(d) => Args::Two(m as u32, d as u32),
        },
    }
}

fn is_set(flag: Option<bool>) -> (r: bool)
    ensures
        r == (flag == Some(true)),
{
    match flag {
        Some(b) => b,
        None => false,
    }
}

fn tail_is(t: &Vec<char>, suffix: &str) -> (r: bool)
    ensures
        r == ends_with(t@, suffix@),
{
    let n = suffix.unicode_len();
    if t.len() < n {
        return false;
    }
    let from: usize = t.len() - n;
    let ghost tail = t@.subrange(from as int, t@.len() as int);
    let mut k: usize = 0;
    while k < n
        invariant
            k <= n,
            n == suffix@.len(),
            from + n == t@.len(),
            from + n <= usize::MAX,
            tail == t@.subrange(from as int, t@.len() as int),
            forall|j: int| 0 <= j < k ==> tail[j] == suffix@[j],
        decreases n - k,
    {
        if t[from + k] != suffix.get_char(k) {
            assert(tail[k as int] != suffix@[k as int]);
            return false;
        }
        k += 1;
    }
    assert(tail =~= suffix@);
    true
}

fn write_original(p: &String) -> (s: String)
    ensures
        s@ == original_text(p@),
{
    let text = p.as_str();
    let t = to_chars(text);
    if tail_is(&t, " is unknown or unimplemented") {
        let n = " is unknown or unimplemented".unicode_len();
        String::from_str(text.substring_char(0, t.len() - n))
    } else if tail_is(&t, " has malformed attributes") {
        let n = " has malformed attributes".unicode_len();
        String::from_str(text.substring_char(0, t.len() - n))
    } else {
        p.clone()
    }
}

fn write_string_attr(out: &mut String, a: &StringAttr)
    ensures
        final(out)@ == old(out)@ + args_text(args_of_length(a@.length)) + charset_text(
            a@.charset,
        ) + collation_text(a@.collation),
{
    let args = match a.length {
        None => Args::Absent,
        Some(n) => Args::One(n),
    };
    write_args(out, args);
    let ghost mid = out@;
    match &a.charset {
        Some(c) => {
            out.append(" CHARACTER SET ");
            out.append(c.as_str());
            assert(out@ =~= mid + charset_text(a@.charset));
        },
        None => {
            assert(out@ =~= mid + charset_text(a@.charset));
        },
    }
    let ghost mid2 = out@;
    match &a.collation {
        Some(c) => {
            out.append(" COLLATE ");
            out.append(c.as_str());
            assert(out@ =~= mid2 + collation_text(a@.collation));
        },
        None => {
            assert(out@ =~= mid2 + collation_text(a@.collation));
        },
    }
}

impl Type {
    /// The text of this type in a table definition.
    ///
    /// The text of an [`Type::Unknown`] is the declaration that it was made
    /// from.
    pub fn write_text(&self) -> (s: String)
        ensures
            s@ == type_text(self@),
    {
        let name = match self.name() {
            Some(n) => n,
            None => {
                match self.unknown_text() {
                    Some(p) => {
                        return write_original(p);
                    },
                    None => {
                        return String::new();
                    },
                }
            },
        };
        let mut out = String::from_str(keyword_of(name));
        match self.numeric_attr() {
            Some(a) => {
                write_args(&mut out, numeric_args_of(&a));
                let ghost mid = out@;
                if is_set(a.unsigned) {
                    out.append(" UNSIGNED");
                }
                assert(out@ =~= mid + unsigned_text(a.unsigned));
                let ghost mid2 = out@;
                if is_set(a.zero_fill) {
                    out.append(" ZEROFILL");
                }
                assert(out@ =~= mid2 + zero_fill_text(a.zero_fill));
                return out;
            },
            None => {},
        }
        match self.time_attr() {
            Some(a) => {
                let args = match a.fractional {
                    None => Args::Absent,
                    Some(f) => Args::One(f as u32),
                };
                write_args(&mut out, args);
                return out;
            },
            None => {},
        }
        match self.string_attr() {
            Some(a) => {
                write_string_attr(&mut out, a);
                return out;
            },
            None => {},
        }
        out
    }
}

} // verus!
