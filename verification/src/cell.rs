use vstd::prelude::*;

verus! {

/// A raw cell as the relational driver yields it: a closed tagged value, one
/// tag per supported source representation, in plain values. Floating-point
/// cells carry their IEEE 754 bit pattern; the pipeline stores and moves the
/// pattern and never interprets the numeric value.
#[derive(PartialEq, Debug)]
pub enum RawCell {
    Null,
    TinyInt(u8),
    SmallInt(i16),
    Int(i32),
    BigInt(i64),
    /// Bit pattern of a 4-byte floating-point value.
    Real(u32),
    /// Bit pattern of an 8-byte floating-point value.
    Float(u64),
    Bool(bool),
    Text(String),
    Bytes(Vec<u8>),
    /// A decimal as its unscaled integer value: the represented number is
    /// `unscaled / 10^scale`.
    Decimal { unscaled: i128, scale: u32 },
    /// Days since the epoch.
    Date { days: i32 },
    /// Microseconds since midnight.
    Time { micros: i64 },
    /// Microseconds since the epoch.
    DateTime { micros: i64 },
}

/// The mathematical value of a raw cell.
#[verifier::ext_equal]
pub enum RawCellV {
    Null,
    TinyInt(int),
    SmallInt(int),
    Int(int),
    BigInt(int),
    Real(int),
    Float(int),
    Bool(bool),
    Text(Seq<char>),
    Bytes(Seq<u8>),
    Decimal { unscaled: int, scale: int },
    Date { days: int },
    Time { micros: int },
    DateTime { micros: int },
}

impl View for RawCell {
    type V = RawCellV;

    open spec fn view(&self) -> RawCellV {
        match self {
            RawCell::Null => RawCellV::Null,
            RawCell::TinyInt(v) => RawCellV::TinyInt(*v as int),
            RawCell::SmallInt(v) => RawCellV::SmallInt(*v as int),
            RawCell::Int(v) => RawCellV::Int(*v as int),
            RawCell::BigInt(v) => RawCellV::BigInt(*v as int),
            RawCell::Real(v) => RawCellV::Real(*v as int),
            RawCell::Float(v) => RawCellV::Float(*v as int),
            RawCell::Bool(v) => RawCellV::Bool(*v),
            RawCell::Text(s) => RawCellV::Text(s@),
            RawCell::Bytes(b) => RawCellV::Bytes(b@),
            RawCell::Decimal { unscaled, scale } => RawCellV::Decimal {
                unscaled: *unscaled as int,
                scale: *scale as int,
            },
            RawCell::Date { days } => RawCellV::Date { days: *days as int },
            RawCell::Time { micros } => RawCellV::Time { micros: *micros as int },
            RawCell::DateTime { micros } => RawCellV::DateTime { micros: *micros as int },
        }
    }
}

impl Clone for RawCell {
    fn clone(&self) -> (r: Self)
        ensures
            r@ == self@,
    {
        match self {
            RawCell::Null => RawCell::Null,
            RawCell::TinyInt(v) => RawCell::TinyInt(*v),
            RawCell::SmallInt(v) => RawCell::SmallInt(*v),
            RawCell::Int(v) => RawCell::Int(*v),
            RawCell::BigInt(v) => RawCell::BigInt(*v),
            RawCell::Real(v) => RawCell::Real(*v),
            RawCell::Float(v) => RawCell::Float(*v),
            RawCell::Bool(v) => RawCell::Bool(*v),
            RawCell::Text(s) => RawCell::Text(s.clone()),
            RawCell::Bytes(b) => {
                let c = b.clone();
                proof {
                    assert(c@ =~= b@);
                }
                RawCell::Bytes(c)
            },
            RawCell::Decimal { unscaled, scale } => RawCell::Decimal {
                unscaled: *unscaled,
                scale: *scale,
            },
            RawCell::Date { days } => RawCell::Date { days: *days },
            RawCell::Time { micros } => RawCell::Time { micros: *micros },
            RawCell::DateTime { micros } => RawCell::DateTime { micros: *micros },
        }
    }
}

/// A converted cell in the representation its mapped column dictates: the
/// physical value that goes into the column batch. Floating-point values are
/// carried as their bit patterns, untouched.
#[derive(PartialEq, Debug)]
pub enum Cell {
    Null,
    Int32(i32),
    Int64(i64),
    /// Bit pattern of a 4-byte floating-point value.
    Float32(u32),
    /// Bit pattern of an 8-byte floating-point value.
    Float64(u64),
    Boolean(bool),
    Text(String),
    Bytes(Vec<u8>),
}

/// The mathematical value of a converted cell.
#[verifier::ext_equal]
pub enum CellV {
    Null,
    Int32(int),
    Int64(int),
    Float32(int),
    Float64(int),
    Boolean(bool),
    Text(Seq<char>),
    Bytes(Seq<u8>),
}

impl View for Cell {
    type V = CellV;

    open spec fn view(&self) -> CellV {
        match self {
            Cell::Null => CellV::Null,
            Cell::Int32(v) => CellV::Int32(*v as int),
            Cell::Int64(v) => CellV::Int64(*v as int),
            Cell::Float32(v) => CellV::Float32(*v as int),
            Cell::Float64(v) => CellV::Float64(*v as int),
            Cell::Boolean(v) => CellV::Boolean(*v),
            Cell::Text(s) => CellV::Text(s@),
            Cell::Bytes(b) => CellV::Bytes(b@),
        }
    }
}

impl Clone for Cell {
    fn clone(&self) -> (r: Self)
        ensures
            r@ == self@,
    {
        match self {
            Cell::Null => Cell::Null,
            Cell::Int32(v) => Cell::Int32(*v),
            Cell::Int64(v) => Cell::Int64(*v),
            Cell::Float32(v) => Cell::Float32(*v),
            Cell::Float64(v) => Cell::Float64(*v),
            Cell::Boolean(v) => Cell::Boolean(*v),
            Cell::Text(s) => Cell::Text(s.clone()),
            Cell::Bytes(b) => {
                let c = b.clone();
                proof {
                    assert(c@ =~= b@);
                }
                Cell::Bytes(c)
            },
        }
    }
}

/// The values of a sequence of converted cells.
pub open spec fn cells_view(s: Seq<Cell>) -> Seq<CellV> {
    s.map_values(|c: Cell| c@)
}

} // verus!
