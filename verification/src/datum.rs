//! Column types and the values that columns take.

use vstd::prelude::*;

verus! {

pub const BOOLOID: u32 = 16;

pub const INT8OID: u32 = 20;

pub const INT2OID: u32 = 21;

pub const INT4OID: u32 = 23;

pub const TEXTOID: u32 = 25;

pub const JSONOID: u32 = 114;

pub const XMLOID: u32 = 142;

pub const POINTOID: u32 = 600;

pub const BOXOID: u32 = 603;

pub const FLOAT4OID: u32 = 700;

pub const FLOAT8OID: u32 = 701;

pub const CIRCLEOID: u32 = 718;

pub const INETOID: u32 = 869;

pub const FLOAT4ARRAYOID: u32 = 1021;

pub const FLOAT8ARRAYOID: u32 = 1022;

pub const BPCHAROID: u32 = 1042;

pub const VARCHAROID: u32 = 1043;

pub const DATEOID: u32 = 1082;

pub const TIMEOID: u32 = 1083;

pub const TIMESTAMPOID: u32 = 1114;

pub const INTERVALOID: u32 = 1186;

pub const NUMERICOID: u32 = 1700;

pub const UUIDOID: u32 = 2950;

/// The kind of a column. Every type identifier maps to exactly one kind; those without a
/// generator map to `Unsupported`.
#[derive(Clone, Copy, Debug, PartialEq, Eq, Structural)]
pub enum TypeTag {
    SmallInt,
    Integer,
    BigInt,
    Single,
    Double,
    Boolean,
    Text,
    VarChar,
    BpChar,
    Numeric,
    Date,
    Time,
    Timestamp,
    Interval,
    Uuid,
    Inet,
    Point,
    BoundingBox,
    Circle,
    Json,
    SingleArray,
    DoubleArray,
    Unsupported,
}

/// The kind that a type identifier stands for.
pub open spec fn tag_of_oid(oid: u32) -> TypeTag {
    if oid == INT2OID {
        TypeTag::SmallInt
    } else if oid == INT4OID {
        TypeTag::Integer
    } else if oid == INT8OID {
        TypeTag::BigInt
    } else if oid == FLOAT4OID {
        TypeTag::Single
    } else if oid == FLOAT8OID {
        TypeTag::Double
    } else if oid == BOOLOID {
        TypeTag::Boolean
    } else if oid == TEXTOID {
        TypeTag::Text
    } else if oid == VARCHAROID {
        TypeTag::VarChar
    } else if oid == BPCHAROID {
        TypeTag::BpChar
    } else if oid == NUMERICOID {
        TypeTag::Numeric
    } else if oid == DATEOID {
        TypeTag::Date
    } else if oid == TIMEOID {
        TypeTag::Time
    } else if oid == TIMESTAMPOID {
        TypeTag::Timestamp
    } else if oid == INTERVALOID {
        TypeTag::Interval
    } else if oid == UUIDOID {
        TypeTag::Uuid
    } else if oid == INETOID {
        TypeTag::Inet
    } else if oid == POINTOID {
        TypeTag::Point
    } else if oid == BOXOID {
        TypeTag::BoundingBox
    } else if oid == CIRCLEOID {
        TypeTag::Circle
    } else if oid == JSONOID {
        TypeTag::Json
    } else if oid == FLOAT4ARRAYOID {
        TypeTag::SingleArray
    } else if oid == FLOAT8ARRAYOID {
        TypeTag::DoubleArray
    } else {
        TypeTag::Unsupported
    }
}

impl TypeTag {
    /// The kind that `oid` stands for.
    pub fn from_oid(oid: u32) -> (tag: TypeTag)
        ensures
            tag == tag_of_oid(oid),
    {
        if oid == INT2OID {
            TypeTag::SmallInt
        } else if oid == INT4OID {
            TypeTag::Integer
        } else if oid == INT8OID {
            TypeTag::BigInt
        } else if oid == FLOAT4OID {
            TypeTag::Single
        } else if oid == FLOAT8OID {
            TypeTag::Double
        } else if oid == BOOLOID {
            TypeTag::Boolean
        } else if oid == TEXTOID {
            TypeTag::Text
        } else if oid == VARCHAROID {
            TypeTag::VarChar
        } else if oid == BPCHAROID {
            TypeTag::BpChar
        } else if oid == NUMERICOID {
            TypeTag::Numeric
        } else if oid == DATEOID {
            TypeTag::Date
        } else if oid == TIMEOID {
            TypeTag::Time
        } else if oid == TIMESTAMPOID {
            TypeTag::Timestamp
        } else if oid == INTERVALOID {
            TypeTag::Interval
        } else if oid == UUIDOID {
            TypeTag::Uuid
        } else if oid == INETOID {
            TypeTag::Inet
        } else if oid == POINTOID {
            TypeTag::Point
        } else if oid == BOXOID {
            TypeTag::BoundingBox
        } else if oid == CIRCLEOID {
            TypeTag::Circle
        } else if oid == JSONOID {
            TypeTag::Json
        } else if oid == FLOAT4ARRAYOID {
            TypeTag::SingleArray
        } else if oid == FLOAT8ARRAYOID {
            TypeTag::DoubleArray
        } else {
            TypeTag::Unsupported
        }
    }

    /// Whether values of this kind are made of floating-point numbers.
    pub open spec fn is_real(self) -> bool {
        self is Single || self is Double || self is Numeric || self is SingleArray
            || self is DoubleArray || self is Point || self is BoundingBox || self is Circle
    }
}

/// A span of time: whole months, whole days and a remainder in microseconds.
#[derive(Clone, Copy, Debug, PartialEq, Eq)]
pub struct Interval {
    pub months: i32,
    pub days: i32,
    pub micros: i64,
}

/// A non-negative decimal number: `whole + fraction / 10^digits`.
#[derive(Clone, Copy, Debug, PartialEq, Eq)]
pub struct Decimal {
    pub whole: i32,
    pub fraction: i32,
    pub digits: u8,
}

/// A draw of floating-point numbers. The library holds no such number: a column of a real
/// kind yields the draw itself, and the host makes it on the session's stream.
#[derive(Clone, Copy, Debug, PartialEq, Eq)]
pub enum RealDraw {
    /// One single-precision number of `[-scale, scale)`.
    Single { scale: u32 },
    /// One double-precision number of `[-scale, scale)`.
    Double { scale: u32 },
    /// One single-precision number of `[-scale, scale)`, converted to a decimal; zero where
    /// the conversion fails.
    Numeric { scale: u32 },
    /// `len` single-precision numbers of `[-scale, scale)`.
    SingleArray { scale: u32, len: u32 },
    /// `len` double-precision numbers of `[-scale, scale)`.
    DoubleArray { scale: u32, len: u32 },
    /// Two coordinates, each drawn from `[-100 * range, 100 * range)`, rounded down to a
    /// whole number and divided by 100.
    Point { range: u32 },
    /// Two points as `Point` draws them: the high corner, then the low one. Neither is
    /// compared with the other.
    BoundingBox { range: u32 },
    /// A centre as `Point` draws it, then a radius of `[0, 10)`.
    Circle { range: u32 },
}

/// The fixed-shape document of a JSON column.
#[derive(Clone, Debug, PartialEq, Eq)]
pub struct JsonDocument {
    pub ts: i32,
    pub text: String,
    pub uuid: [u8; 16],
    pub price: Decimal,
    pub count: i64,
}

/// A `JsonDocument` as contracts see it.
pub struct JsonView {
    pub ts: i32,
    pub text: Seq<char>,
    pub uuid: Seq<u8>,
    pub price: Decimal,
    pub count: i64,
}

impl View for JsonDocument {
    type V = JsonView;

    open spec fn view(&self) -> JsonView {
        JsonView {
            ts: self.ts,
            text: self.text@,
            uuid: self.uuid@,
            price: self.price,
            count: self.count,
        }
    }
}

/// One value of a column.
#[derive(Clone, Debug, PartialEq, Eq)]
pub enum Datum {
    SmallInt(i16),
    Integer(i32),
    BigInt(i64),
    Boolean(bool),
    Text(String),
    Date(String),
    Time(String),
    Timestamp(i64),
    Interval(Interval),
    Uuid([u8; 16]),
    Inet(String),
    Json(JsonDocument),
    Real(RealDraw),
}

/// A `Datum` as contracts see it.
pub enum DatumView {
    SmallInt(i16),
    Integer(i32),
    BigInt(i64),
    Boolean(bool),
    Text(Seq<char>),
    Date(Seq<char>),
    Time(Seq<char>),
    Timestamp(i64),
    Interval(Interval),
    Uuid(Seq<u8>),
    Inet(Seq<char>),
    Json(JsonView),
    Real(RealDraw),
}

impl View for Datum {
    type V = DatumView;

    open spec fn view(&self) -> DatumView {
        match self {
            Datum::SmallInt(v) => DatumView::SmallInt(*v),
            Datum::Integer(v) => DatumView::Integer(*v),
            Datum::BigInt(v) => DatumView::BigInt(*v),
            Datum::Boolean(v) => DatumView::Boolean(*v),
            Datum::Text(v) => DatumView::Text(v@),
            Datum::Date(v) => DatumView::Date(v@),
            Datum::Time(v) => DatumView::Time(v@),
            Datum::Timestamp(v) => DatumView::Timestamp(*v),
            Datum::Interval(v) => DatumView::Interval(*v),
            Datum::Uuid(v) => DatumView::Uuid(v@),
            Datum::Inet(v) => DatumView::Inet(v@),
            Datum::Json(v) => DatumView::Json(v@),
            Datum::Real(v) => DatumView::Real(*v),
        }
    }
}

/// The view of a value that may be absent.
pub open spec fn view_of(value: Option<Datum>) -> Option<DatumView> {
    match value {
        Some(datum) => Some(datum@),
        None => None,
    }
}

} // verus!
