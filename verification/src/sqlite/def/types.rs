//! The column types and default values of SQLite.

use vstd::prelude::*;
use vstd::string::*;
use crate::text::{
    append_without, int_of_text, lower, lower_eq, parse_args, read_args, read_int, scan,
    span_end, str_eq, to_chars, without, Args, CharClass,
};

verus! {

/// A column type.
#[derive(Clone, Debug, PartialEq)]
pub enum Type {
    Int,
    Integer,
    TinyInt,
    SmallInt,
    MediumInt,
    BigInt,
    Real,
    Double,
    Float,
    Numeric,
    Decimal { precision: Option<u32>, scale: Option<u32> },
    Boolean,
    Date,
    DateTime,
    Timestamp,
    Text,
    Blob,
    Char { length: Option<u32> },
    Varchar { length: Option<u32> },
    /// A declaration that could not be decoded: its text, followed by the
    /// reason.
    Unknown(String),
}

/// The mathematical model of a [`Type`].
pub enum TypeView {
    Int,
    Integer,
    TinyInt,
    SmallInt,
    MediumInt,
    BigInt,
    Real,
    Double,
    Float,
    Numeric,
    Decimal { precision: Option<u32>, scale: Option<u32> },
    Boolean,
    Date,
    DateTime,
    Timestamp,
    Text,
    Blob,
    Char { length: Option<u32> },
    Varchar { length: Option<u32> },
    Unknown(Seq<char>),
}

impl View for Type {
    type V = TypeView;

    open spec fn view(&self) -> TypeView {
        match *self {
            Type::Int => TypeView::Int,
            Type::Integer => TypeView::Integer,
            Type::TinyInt => TypeView::TinyInt,
            Type::SmallInt => TypeView::SmallInt,
            Type::MediumInt => TypeView::MediumInt,
            Type::BigInt => TypeView::BigInt,
            Type::Real => TypeView::Real,
            Type::Double => TypeView::Double,
            Type::Float => TypeView::Float,
            Type::Numeric => TypeView::Numeric,
            Type::Decimal { precision, scale } => TypeView::Decimal { precision, scale },
            Type::Boolean => TypeView::Boolean,
            Type::Date => TypeView::Date,
            Type::DateTime => TypeView::DateTime,
            Type::Timestamp => TypeView::Timestamp,
            Type::Text => TypeView::Text,
            Type::Blob => TypeView::Blob,
            Type::Char { length } => TypeView::Char { length },
            Type::Varchar { length } => TypeView::Varchar { length },
            Type::Unknown(s) => TypeView::Unknown(s@),
        }
    }
}

/// The type of a name in lower case with its argument list; `None` where
/// the name is not known or does not take such arguments.
pub open spec fn type_of(w: Seq<char>, args: Args) -> Option<TypeView> {
    if w == "decimal"@ {
        match args {
            Args::Absent => Some(TypeView::Decimal { precision: None, scale: None }),
            Args::One(p) => Some(TypeView::Decimal { precision: Some(p), scale: None }),
            Args::Two(p, s) => Some(TypeView::Decimal { precision: Some(p), scale: Some(s) }),
        }
    } else if w == "char"@ || w == "character"@ {
        match args {
            Args::Absent => Some(TypeView::Char { length: None }),
            Args::One(n) => Some(TypeView::Char { length: Some(n) }),
            Args::Two(_, _) => None,
        }
    } else if w == "varchar"@ {
        match args {
            Args::Absent => Some(TypeView::Varchar { length: None }),
            Args::One(n) => Some(TypeView::Varchar { length: Some(n) }),
            Args::Two(_, _) => None,
        }
    } else if args != Args::Absent {
        None
    } else if w == "int"@ {
        Some(TypeView::Int)
    } else if w == "integer"@ {
        Some(TypeView::Integer)
    } else if w == "tinyint"@ {
        Some(TypeView::TinyInt)
    } else if w == "smallint"@ {
        Some(TypeView::SmallInt)
    } else if w == "mediumint"@ {
        Some(TypeView::MediumInt)
    } else if w == "bigint"@ {
        Some(TypeView::BigInt)
    } else if w == "real"@ {
        Some(TypeView::Real)
    } else if w == "double"@ {
        Some(TypeView::Double)
    } else if w == "float"@ {
        Some(TypeView::Float)
    } else if w == "numeric"@ {
        Some(TypeView::Numeric)
    } else if w == "boolean"@ {
        Some(TypeView::Boolean)
    } else if w == "date"@ {
        Some(TypeView::Date)
    } else if w == "datetime"@ {
        Some(TypeView::DateTime)
    } else if w == "timestamp"@ {
        Some(TypeView::Timestamp)
    } else if w == "text"@ {
        Some(TypeView::Text)
    } else if w == "blob"@ {
        Some(TypeView::Blob)
    } else {
        None
    }
}

/// What is put behind a declaration that is not decoded.
pub open spec fn unknown_reason() -> Seq<char> {
    " is unknown or unimplemented"@
}

/// The type that a declaration stands for: a type name, letter case
/// aside, an optional argument list and nothing but spaces behind it.
/// Any other declaration is `Unknown`, with the declaration and the
/// reason; the empty declaration with an empty text.
pub open spec fn type_of_text(t: Seq<char>) -> TypeView {
    if t.len() == 0 {
        TypeView::Unknown(Seq::empty())
    } else {
        let e = span_end(t, 0, CharClass::Name);
        match parse_args(t, e) {
            Some((args, i)) => if span_end(t, i, CharClass::Space) == t.len() && type_of(
                lower(t.subrange(0, e)),
                args,
            ) is Some {
                type_of(lower(t.subrange(0, e)), args)->0
            } else {
                TypeView::Unknown(t + unknown_reason())
            },
            None => TypeView::Unknown(t + unknown_reason()),
        }
    }
}

fn find_type(t: &Vec<char>, e: usize, args: Args) -> (r: Option<Type>)
    requires
        e <= t@.len(),
    ensures
        match r {
            Some(ty) => type_of(lower(t@.subrange(0, e as int)), args) == Some(ty@),
            None => type_of(lower(t@.subrange(0, e as int)), args) is None,
        },
{
    if lower_eq(t, 0, e, "decimal") {
        match args {
            Args::Absent => Some(Type::Decimal { precision: None, scale: None }),
            Args::One(p) => Some(Type::Decimal { precision: Some(p), scale: None }),
            Args::Two(p, s) => Some(Type::Decimal { precision: Some(p), scale: Some(s) }),
        }
    } else if lower_eq(t, 0, e, "char") || lower_eq(t, 0, e, "character") {
        match args {
            Args::Absent => Some(Type::Char { length: None }),
            Args::One(n) => Some(Type::Char { length: Some(n) }),
            Args::Two(_, _) => None,
        }
    } else if lower_eq(t, 0, e, "varchar") {
        match args {
            Args::Absent => Some(Type::Varchar { length: None }),
            Args::One(n) => Some(Type::Varchar { length: Some(n) }),
            Args::Two(_, _) => None,
        }
    } else if !(match args {
        Args::Absent => true,
        _ => false,
    }) {
        None
    } else if lower_eq(t, 0, e, "int") {
        Some(Type::Int)
    } else if lower_eq(t, 0, e, "integer") {
        Some(Type::Integer)
    } else if lower_eq(t, 0, e, "tinyint") {
        Some(Type::TinyInt)
    } else if lower_eq(t, 0, e, "smallint") {
        Some(Type::SmallInt)
    } else if lower_eq(t, 0, e, "mediumint") {
        Some(Type::MediumInt)
    } else if lower_eq(t, 0, e, "bigint") {
        Some(Type::BigInt)
    } else if lower_eq(t, 0, e, "real") {
        Some(Type::Real)
    } else if lower_eq(t, 0, e, "double") {
        Some(Type::Double)
    } else if lower_eq(t, 0, e, "float") {
        Some(Type::Float)
    } else if lower_eq(t, 0, e, "numeric") {
        Some(Type::Numeric)
    } else if lower_eq(t, 0, e, "boolean") {
        Some(Type::Boolean)
    } else if lower_eq(t, 0, e, "date") {
        Some(Type::Date)
    } else if lower_eq(t, 0, e, "datetime") {
        Some(Type::DateTime)
    } else if lower_eq(t, 0, e, "timestamp") {
        Some(Type::Timestamp)
    } else if lower_eq(t, 0, e, "text") {
        Some(Type::Text)
    } else if lower_eq(t, 0, e, "blob") {
        Some(Type::Blob)
    } else {
        None
    }
}

impl Type {
    /// Decodes the declaration of a column type. Never fails: what cannot
    /// be decoded comes back as [`Type::Unknown`].
    pub fn to_type(data_type: &str) -> (r: Type)
        ensures
            r@ == type_of_text(data_type@),
    {
        let t = to_chars(data_type);
        if t.len() == 0 {
            return Type::Unknown(String::new());
        }
        let e = scan(&t, 0, CharClass::Name);
        match read_args(&t, e) {
            Some((args, i)) => {
                if scan(&t, i, CharClass::Space) == t.len() {
                    match find_type(&t, e, args) {
                        Some(ty) => {
                            return ty;
                        },
                        None => {},
                    }
                }
            },
            None => {},
        }
        Type::Unknown(String::from_str(data_type).concat(" is unknown or unimplemented"))
    }
}

/// The default value of a column.
#[derive(Clone, Debug, PartialEq)]
pub enum DefaultType {
    /// A whole number.
    Integer(i32),
    /// Any other value, without its quotes.
    String(String),
    /// The value null.
    Null,
    /// No default value.
    Unspecified,
}

/// The mathematical model of a [`DefaultType`].
pub enum DefaultTypeView {
    Integer(i32),
    String(Seq<char>),
    Null,
    Unspecified,
}

impl View for DefaultType {
    type V = DefaultTypeView;

    open spec fn view(&self) -> DefaultTypeView {
        match *self {
            DefaultType::Integer(n) => DefaultTypeView::Integer(n),
            DefaultType::String(s) => DefaultTypeView::String(s@),
            DefaultType::Null => DefaultTypeView::Null,
            DefaultType::Unspecified => DefaultTypeView::Unspecified,
        }
    }
}

/// The default value that the catalog's text stands for: `NULL` is null,
/// the empty text is no default; any other text loses its single quotes
/// and is a whole number where it reads as one.
pub open spec fn default_of(text: Seq<char>) -> DefaultTypeView {
    if text == "NULL"@ {
        DefaultTypeView::Null
    } else if text.len() == 0 {
        DefaultTypeView::Unspecified
    } else {
        let value = without(text, '\'', '\'');
        match int_of_text(value) {
            Some(n) => DefaultTypeView::Integer(n as i32),
            None => DefaultTypeView::String(value),
        }
    }
}

impl DefaultType {
    /// Decodes the default value of a column.
    pub fn parse(default_value: &str) -> (r: DefaultType)
        ensures
            r@ == default_of(default_value@),
    {
        if str_eq(default_value, "NULL") {
            return DefaultType::Null;
        }
        let t = to_chars(default_value);
        if t.len() == 0 {
            return DefaultType::Unspecified;
        }
        let mut value = String::new();
        append_without(&mut value, default_value, &t, 0, t.len(), '\'', '\'');
        assert(t@.subrange(0, t@.len() as int) =~= t@);
        assert(value@ =~= without(default_value@, '\'', '\''));
        let v = to_chars(value.as_str());
        match read_int(&v) {
            Some(n) => DefaultType::Integer(n),
            None => DefaultType::String(value),
        }
    }
}

} // verus!
