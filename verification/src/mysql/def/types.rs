//! The column types of MySQL.

use vstd::prelude::*;
use crate::text::opt_view;

verus! {

/// A column type with its attributes.
#[derive(Clone, Debug, PartialEq)]
pub enum Type {
    Serial,
    Bit(NumericAttr),
    TinyInt(NumericAttr),
    Bool,
    SmallInt(NumericAttr),
    MediumInt(NumericAttr),
    Int(NumericAttr),
    BigInt(NumericAttr),
    Decimal(NumericAttr),
    Float(NumericAttr),
    Double(NumericAttr),
    Date,
    Time(TimeAttr),
    DateTime(TimeAttr),
    Timestamp(TimeAttr),
    Year,
    Char(StringAttr),
    NChar(StringAttr),
    Varchar(StringAttr),
    NVarchar(StringAttr),
    Binary(StringAttr),
    Varbinary(StringAttr),
    Text(StringAttr),
    TinyText(StringAttr),
    MediumText(StringAttr),
    LongText(StringAttr),
    Blob,
    TinyBlob,
    MediumBlob,
    LongBlob,
    Json,
    /// A declaration that could not be decoded: its text, followed by the
    /// reason.
    Unknown(String),
}

/// The attributes of a numeric type.
#[derive(Clone, Copy, Debug, PartialEq, Eq, Structural)]
pub struct NumericAttr {
    /// For integer types, the maximum display width; for decimal types, the
    /// precision
    pub maximum: Option<u16>,
    /// Number of decimal digits
    pub decimal: Option<u16>,
    /// Whether this number is unsigned
    pub unsigned: Option<bool>,
    /// Whether this number is zero filled
    pub zero_fill: Option<bool>,
}

/// The attributes of a temporal type.
#[derive(Clone, Copy, Debug, PartialEq, Eq, Structural)]
pub struct TimeAttr {
    /// Digits of the fractional seconds
    pub fractional: Option<u8>,
}

/// The attributes of a character or binary string type.
#[derive(Clone, Debug, PartialEq, Eq)]
pub struct StringAttr {
    /// Declared length
    pub length: Option<u32>,
    /// Name of the character set
    pub charset: Option<String>,
    /// Name of the collation
    pub collation: Option<String>,
}

/// The mathematical model of a [`StringAttr`].
pub struct StringAttrView {
    pub length: Option<u32>,
    pub charset: Option<Seq<char>>,
    pub collation: Option<Seq<char>>,
}

impl View for StringAttr {
    type V = StringAttrView;

    open spec fn view(&self) -> StringAttrView {
        StringAttrView {
            length: self.length,
            charset: opt_view(self.charset),
            collation: opt_view(self.collation),
        }
    }
}

impl Default for NumericAttr {
    fn default() -> (r: NumericAttr)
        ensures
            r == (NumericAttr { maximum: None, decimal: None, unsigned: None, zero_fill: None }),
    {
        NumericAttr { maximum: None, decimal: None, unsigned: None, zero_fill: None }
    }
}

impl Default for TimeAttr {
    fn default() -> (r: TimeAttr)
        ensures
            r == (TimeAttr { fractional: None }),
    {
        TimeAttr { fractional: None }
    }
}

impl Default for StringAttr {
    fn default() -> (r: StringAttr)
        ensures
            r@ == (StringAttrView { length: None, charset: None, collation: None }),
    {
        StringAttr { length: None, charset: None, collation: None }
    }
}

/// The name of a known column type.
#[derive(Clone, Copy, Debug, PartialEq, Eq, Structural)]
pub enum TypeName {
    Serial,
    Bit,
    TinyInt,
    Bool,
    SmallInt,
    MediumInt,
    Int,
    BigInt,
    Decimal,
    Float,
    Double,
    Date,
    Time,
    DateTime,
    Timestamp,
    Year,
    Char,
    NChar,
    Varchar,
    NVarchar,
    Binary,
    Varbinary,
    Text,
    TinyText,
    MediumText,
    LongText,
    Blob,
    TinyBlob,
    MediumBlob,
    LongBlob,
    Json,
}

/// The kind of attributes that a type carries.
#[derive(Clone, Copy, Debug, PartialEq, Eq, Structural)]
pub enum AttrClass {
    /// No attributes.
    Plain,
    /// A [`NumericAttr`].
    Numeric,
    /// A [`TimeAttr`].
    Time,
    /// A [`StringAttr`].
    Text,
}

/// The kind of attributes that the type of a name carries.
pub open spec fn class_of(name: TypeName) -> AttrClass {
    match name {
        TypeName::Bit
        | TypeName::TinyInt
        | TypeName::SmallInt
        | TypeName::MediumInt
        | TypeName::Int
        | TypeName::BigInt
        | TypeName::Decimal
        | TypeName::Float
        | TypeName::Double => AttrClass::Numeric,
        TypeName::Time | TypeName::DateTime | TypeName::Timestamp => AttrClass::Time,
        TypeName::Char
        | TypeName::NChar
        | TypeName::Varchar
        | TypeName::NVarchar
        | TypeName::Binary
        | TypeName::Varbinary
        | TypeName::Text
        | TypeName::TinyText
        | TypeName::MediumText
        | TypeName::LongText => AttrClass::Text,
        _ => AttrClass::Plain,
    }
}

impl TypeName {
    /// The kind of attributes that the type of this name carries.
    pub fn attr_class(self) -> (c: AttrClass)
        ensures
            c == class_of(self),
    {
        match self {
            TypeName::Bit
            | TypeName::TinyInt
            | TypeName::SmallInt
            | TypeName::MediumInt
            | TypeName::Int
            | TypeName::BigInt
            | TypeName::Decimal
            | TypeName::Float
            | TypeName::Double => AttrClass::Numeric,
            TypeName::Time | TypeName::DateTime | TypeName::Timestamp => AttrClass::Time,
            TypeName::Char
            | TypeName::NChar
            | TypeName::Varchar
            | TypeName::NVarchar
            | TypeName::Binary
            | TypeName::Varbinary
            | TypeName::Text
            | TypeName::TinyText
            | TypeName::MediumText
            | TypeName::LongText => AttrClass::Text,
            _ => AttrClass::Plain,
        }
    }
}

/// The mathematical model of a [`Type`]: its name with the attributes of
/// its class, or the text of a declaration that was not decoded.
pub enum TypeView {
    Plain(TypeName),
    Numeric(TypeName, NumericAttr),
    Time(TypeName, TimeAttr),
    Text(TypeName, StringAttrView),
    Unknown(Seq<char>),
}

impl View for Type {
    type V = TypeView;

    open spec fn view(&self) -> TypeView {
        match *self {
            Type::Serial => TypeView::Plain(TypeName::Serial),
            Type::Bit(a) => TypeView::Numeric(TypeName::Bit, a),
            Type::TinyInt(a) => TypeView::Numeric(TypeName::TinyInt, a),
            Type::Bool => TypeView::Plain(TypeName::Bool),
            Type::SmallInt(a) => TypeView::Numeric(TypeName::SmallInt, a),
            Type::MediumInt(a) => TypeView::Numeric(TypeName::MediumInt, a),
            Type::Int(a) => TypeView::Numeric(TypeName::Int, a),
            Type::BigInt(a) => TypeView::Numeric(TypeName::BigInt, a),
            Type::Decimal(a) => TypeView::Numeric(TypeName::Decimal, a),
            Type::Float(a) => TypeView::Numeric(TypeName::Float, a),
            Type::Double(a) => TypeView::Numeric(TypeName::Double, a),
            Type::Date => TypeView::Plain(TypeName::Date),
            Type::Time(a) => TypeView::Time(TypeName::Time, a),
            Type::DateTime(a) => TypeView::Time(TypeName::DateTime, a),
            Type::Timestamp(a) => TypeView::Time(TypeName::Timestamp, a),
            Type::Year => TypeView::Plain(TypeName::Year),
            Type::Char(a) => TypeView::Text(TypeName::Char, a@),
            Type::NChar(a) => TypeView::Text(TypeName::NChar, a@),
            Type::Varchar(a) => TypeView::Text(TypeName::Varchar, a@),
            Type::NVarchar(a) => TypeView::Text(TypeName::NVarchar, a@),
            Type::Binary(a) => TypeView::Text(TypeName::Binary, a@),
            Type::Varbinary(a) => TypeView::Text(TypeName::Varbinary, a@),
            Type::Text(a) => TypeView::Text(TypeName::Text, a@),
            Type::TinyText(a) => TypeView::Text(TypeName::TinyText, a@),
            Type::MediumText(a) => TypeView::Text(TypeName::MediumText, a@),
            Type::LongText(a) => TypeView::Text(TypeName::LongText, a@),
            Type::Blob => TypeView::Plain(TypeName::Blob),
            Type::TinyBlob => TypeView::Plain(TypeName::TinyBlob),
            Type::MediumBlob => TypeView::Plain(TypeName::MediumBlob),
            Type::LongBlob => TypeView::Plain(TypeName::LongBlob),
            Type::Json => TypeView::Plain(TypeName::Json),
            Type::Unknown(s) => TypeView::Unknown(s@),
        }
    }
}

impl Type {
    /// The type of a name that carries no attributes.
    pub(crate) fn plain(name: TypeName) -> (r: Type)
        requires
            class_of(name) == AttrClass::Plain,
        ensures
            r@ == TypeView::Plain(name),
    {
        match name {
            TypeName::Serial => Type::Serial,
            TypeName::Bool => Type::Bool,
            TypeName::Date => Type::Date,
            TypeName::Year => Type::Year,
            TypeName::Blob => Type::Blob,
            TypeName::TinyBlob => Type::TinyBlob,
            TypeName::MediumBlob => Type::MediumBlob,
            TypeName::LongBlob => Type::LongBlob,
            _ => Type::Json,
        }
    }

    /// The numeric type of a name, with its attributes.
    pub(crate) fn numeric(name: TypeName, attr: NumericAttr) -> (r: Type)
        requires
            class_of(name) == AttrClass::Numeric,
        ensures
            r@ == TypeView::Numeric(name, attr),
    {
        match name {
            TypeName::Bit => Type::Bit(attr),
            TypeName::TinyInt => Type::TinyInt(attr),
            TypeName::SmallInt => Type::SmallInt(attr),
            TypeName::MediumInt => Type::MediumInt(attr),
            TypeName::Int => Type::Int(attr),
            TypeName::BigInt => Type::BigInt(attr),
            TypeName::Decimal => Type::Decimal(attr),
            TypeName::Float => Type::Float(attr),
            _ => Type::Double(attr),
        }
    }

    /// The temporal type of a name, with its attributes.
    pub(crate) fn temporal(name: TypeName, attr: TimeAttr) -> (r: Type)
        requires
            class_of(name) == AttrClass::Time,
        ensures
            r@ == TypeView::Time(name, attr),
    {
        match name {
            TypeName::Time => Type::Time(attr),
            TypeName::DateTime => Type::DateTime(attr),
            _ => Type::Timestamp(attr),
        }
    }

    /// The string type of a name, with its attributes.
    pub(crate) fn string(name: TypeName, attr: StringAttr) -> (r: Type)
        requires
            class_of(name) == AttrClass::Text,
        ensures
            r@ == TypeView::Text(name, attr@),
    {
        match name {
            TypeName::Char => Type::Char(attr),
            TypeName::NChar => Type::NChar(attr),
            TypeName::Varchar => Type::Varchar(attr),
            TypeName::NVarchar => Type::NVarchar(attr),
            TypeName::Binary => Type::Binary(attr),
            TypeName::Varbinary => Type::Varbinary(attr),
            TypeName::Text => Type::Text(attr),
            TypeName::TinyText => Type::TinyText(attr),
            TypeName::MediumText => Type::MediumText(attr),
            _ => Type::LongText(attr),
        }
    }

    /// The name of this type; `None` for a declaration that was not decoded.
    pub fn name(&self) -> (r: Option<TypeName>)
        ensures
            r == type_name_of(self@),
    {
        match self {
            Type::Serial => Some(TypeName::Serial),
            Type::Bit(_) => Some(TypeName::Bit),
            Type::TinyInt(_) => Some(TypeName::TinyInt),
            Type::Bool => Some(TypeName::Bool),
            Type::SmallInt(_) => Some(TypeName::SmallInt),
            Type::MediumInt(_) => Some(TypeName::MediumInt),
            Type::Int(_) => Some(TypeName::Int),
            Type::BigInt(_) => Some(TypeName::BigInt),
            Type::Decimal(_) => Some(TypeName::Decimal),
            Type::Float(_) => Some(TypeName::Float),
            Type::Double(_) => Some(TypeName::Double),
            Type::Date => Some(TypeName::Date),
            Type::Time(_) => Some(TypeName::Time),
            Type::DateTime(_) => Some(TypeName::DateTime),
            Type::Timestamp(_) => Some(TypeName::Timestamp),
            Type::Year => Some(TypeName::Year),
            Type::Char(_) => Some(TypeName::Char),
            Type::NChar(_) => Some(TypeName::NChar),
            Type::Varchar(_) => Some(TypeName::Varchar),
            Type::NVarchar(_) => Some(TypeName::NVarchar),
            Type::Binary(_) => Some(TypeName::Binary),
            Type::Varbinary(_) => Some(TypeName::Varbinary),
            Type::Text(_) => Some(TypeName::Text),
            Type::TinyText(_) => Some(TypeName::TinyText),
            Type::MediumText(_) => Some(TypeName::MediumText),
            Type::LongText(_) => Some(TypeName::LongText),
            Type::Blob => Some(TypeName::Blob),
            Type::TinyBlob => Some(TypeName::TinyBlob),
            Type::MediumBlob => Some(TypeName::MediumBlob),
            Type::LongBlob => Some(TypeName::LongBlob),
            Type::Json => Some(TypeName::Json),
            Type::Unknown(_) => None,
        }
    }

    /// The numeric attributes of this type, if it is numeric.
    pub fn numeric_attr(&self) -> (r: Option<NumericAttr>)
        ensures
            r == (match self@ {
                TypeView::Numeric(_, a) => Some(a),
                _ => None,
            }),
    {
        match self {
            Type::Bit(a)
            | Type::TinyInt(a)
            | Type::SmallInt(a)
            | Type::MediumInt(a)
            | Type::Int(a)
            | Type::BigInt(a)
            | Type::Decimal(a)
            | Type::Float(a)
            | Type::Double(a) => Some(*a),
            _ => None,
        }
    }

    /// The temporal attributes of this type, if it is temporal.
    pub fn time_attr(&self) -> (r: Option<TimeAttr>)
        ensures
            r == (match self@ {
                TypeView::Time(_, a) => Some(a),
                _ => None,
            }),
    {
        match self {
            Type::Time(a) | Type::DateTime(a) | Type::Timestamp(a) => Some(*a),
            _ => None,
        }
    }

    /// The string attributes of this type, if it is a string type.
    pub fn string_attr(&self) -> (r: Option<&StringAttr>)
        ensures
            match self@ {
                TypeView::Text(_, a) => r is Some && r->0@ == a,
                _ => r is None,
            },
    {
        match self {
            Type::Char(a)
            | Type::NChar(a)
            | Type::Varchar(a)
            | Type::NVarchar(a)
            | Type::Binary(a)
            | Type::Varbinary(a)
            | Type::Text(a)
            | Type::TinyText(a)
            | Type::MediumText(a)
            | Type::LongText(a) => Some(a),
            _ => None,
        }
    }

    /// The text of a declaration that was not decoded, with the reason.
    pub fn unknown_text(&self) -> (r: Option<&String>)
        ensures
            match self@ {
                TypeView::Unknown(p) => r is Some && r->0@ == p,
                _ => r is None,
            },
    {
        match self {
            Type::Unknown(s) => Some(s),
            _ => None,
        }
    }
}

/// The name of a type; `None` for a declaration that was not decoded.
pub open spec fn type_name_of(v: TypeView) -> Option<TypeName> {
    match v {
        TypeView::Plain(n) => Some(n),
        TypeView::Numeric(n, _) => Some(n),
        TypeView::Time(n, _) => Some(n),
        TypeView::Text(n, _) => Some(n),
        TypeView::Unknown(_) => None,
    }
}

/// Every model of a type pairs a name with the attributes of its class.
pub proof fn lemma_view_is_classed(t: Type)
    ensures
        match t@ {
            TypeView::Plain(n) => class_of(n) == AttrClass::Plain,
            TypeView::Numeric(n, _) => class_of(n) == AttrClass::Numeric,
            TypeView::Time(n, _) => class_of(n) == AttrClass::Time,
            TypeView::Text(n, _) => class_of(n) == AttrClass::Text,
            TypeView::Unknown(_) => true,
        },
{
}

} // verus!
