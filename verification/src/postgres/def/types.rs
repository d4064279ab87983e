//! The column types of PostgreSQL.

use vstd::prelude::*;

verus! {

/// A column type with its attributes.
#[derive(Clone, Debug, PartialEq)]
pub enum Type {
    SmallInt,
    Integer,
    BigInt,
    Decimal(ArbitraryPrecisionNumericAttr),
    Numeric(ArbitraryPrecisionNumericAttr),
    Real,
    DoublePrecision,
    SmallSerial,
    Serial,
    BigSerial,
    /// A declaration that could not be decoded: its type name, followed by
    /// the reason.
    Unknown(String),
}

/// The attributes of a number of arbitrary precision.
#[derive(Clone, Copy, Debug, PartialEq, Eq, Structural)]
pub struct ArbitraryPrecisionNumericAttr {
    /// The number of significant digits in the number; a maximum of 131072
    /// digits before the decimal point
    pub precision: Option<u16>,
    /// The count of decimal digits in the fractional part
    pub scale: Option<u16>,
}

impl Default for ArbitraryPrecisionNumericAttr {
    fn default() -> (r: ArbitraryPrecisionNumericAttr)
        ensures
            r == (ArbitraryPrecisionNumericAttr { precision: None, scale: None }),
    {
        ArbitraryPrecisionNumericAttr { precision: None, scale: None }
    }
}

/// The mathematical model of a [`Type`].
pub enum TypeView {
    SmallInt,
    Integer,
    BigInt,
    Decimal(ArbitraryPrecisionNumericAttr),
    Numeric(ArbitraryPrecisionNumericAttr),
    Real,
    DoublePrecision,
    SmallSerial,
    Serial,
    BigSerial,
    Unknown(Seq<char>),
}

impl View for Type {
    type V = TypeView;

    open spec fn view(&self) -> TypeView {
        match *self {
            Type::SmallInt => TypeView::SmallInt,
            Type::Integer => TypeView::Integer,
            Type::BigInt => TypeView::BigInt,
            Type::Decimal(a) => TypeView::Decimal(a),
            Type::Numeric(a) => TypeView::Numeric(a),
            Type::Real => TypeView::Real,
            Type::DoublePrecision => TypeView::DoublePrecision,
            Type::SmallSerial => TypeView::SmallSerial,
            Type::Serial => TypeView::Serial,
            Type::BigSerial => TypeView::BigSerial,
            Type::Unknown(s) => TypeView::Unknown(s@),
        }
    }
}

/// Whether a type carries the attributes of a number of arbitrary
/// precision.
pub open spec fn is_arbitrary_precision(v: TypeView) -> bool {
    v is Decimal || v is Numeric
}

impl Type {
    /// Whether this type carries the attributes of a number of arbitrary
    /// precision.
    pub fn has_numeric_attr(&self) -> (r: bool)
        ensures
            r == is_arbitrary_precision(self@),
    {
        match self {
            Type::Decimal(_) | Type::Numeric(_) => true,
            _ => false,
        }
    }
}

} // verus!
