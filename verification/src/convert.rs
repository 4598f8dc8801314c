use vstd::prelude::*;

use crate::cell::{Cell, CellV, RawCell, RawCellV};
use crate::errors::ExportError;
use crate::schema::{mapping_of, ColumnarSchema, MappedColumn, SourceType};

verus! {

/// Microseconds in one day: the exclusive upper bound of a time-of-day cell.
pub const MICROS_PER_DAY: i64 = 86400000000;

/// Ten to the `e`-th power.
pub open spec fn pow10(e: int) -> int
    decreases e,
{
    if e <= 0 {
        1
    } else {
        10 * pow10(e - 1)
    }
}

proof fn lemma_pow10_pos(e: int)
    ensures
        pow10(e) >= 1,
    decreases e,
{
    if e > 0 {
        lemma_pow10_pos(e - 1);
    }
}

proof fn lemma_pow10_mono(a: int, b: int)
    requires
        a <= b,
    ensures
        pow10(a) <= pow10(b),
    decreases b - a,
{
    if a < b {
        lemma_pow10_mono(a, b - 1);
        lemma_pow10_pos(b - 1);
    }
}

/// Ten to the `e`-th power, executable; `e` at most 18 so that the result
/// fits the widest physical integer type.
pub fn pow10_i64(e: u32) -> (r: i64)
    requires
        e <= 18,
    ensures
        r == pow10(e as int),
{
    proof {
        reveal_with_fuel(pow10, 19);
    }
    let mut r: i64 = 1;
    let mut i: u32 = 0;
    while i < e
        invariant
            i <= e,
            e <= 18,
            r == pow10(i as int),
        decreases e - i,
    {
        proof {
            lemma_pow10_mono(i as int + 1, 18);
            assert(pow10(18) == 1000000000000000000) by {
                reveal_with_fuel(pow10, 19);
            }
        }
        r = r * 10;
        i = i + 1;
    }
    r
}

/// The converted value of one non-null raw cell under one source type, or
/// `None` where the value does not fit the mapped target: a raw tag that
/// disagrees with the column's source type, a decimal whose scale differs
/// from the column's or whose magnitude exceeds its precision, or a
/// time-of-day outside one day.
pub open spec fn converted_cell(t: SourceType, r: RawCellV) -> Option<CellV> {
    match (t, r) {
        (SourceType::TinyInt, RawCellV::TinyInt(v)) => Some(CellV::Int32(v)),
        (SourceType::SmallInt, RawCellV::SmallInt(v)) => Some(CellV::Int32(v)),
        (SourceType::Int, RawCellV::Int(v)) => Some(CellV::Int32(v)),
        (SourceType::BigInt, RawCellV::BigInt(v)) => Some(CellV::Int64(v)),
        (SourceType::Real, RawCellV::Real(v)) => Some(CellV::Float32(v)),
        (SourceType::Float, RawCellV::Float(v)) => Some(CellV::Float64(v)),
        (SourceType::Bit, RawCellV::Bool(v)) => Some(CellV::Boolean(v)),
        (SourceType::VarChar, RawCellV::Text(s)) => Some(CellV::Text(s)),
        (SourceType::NVarChar, RawCellV::Text(s)) => Some(CellV::Text(s)),
        (SourceType::Text, RawCellV::Text(s)) => Some(CellV::Text(s)),
        (SourceType::Binary, RawCellV::Bytes(b)) => Some(CellV::Bytes(b)),
        (SourceType::VarBinary, RawCellV::Bytes(b)) => Some(CellV::Bytes(b)),
        (
            SourceType::Decimal { precision, scale },
            RawCellV::Decimal { unscaled, scale: raw_scale },
        ) => if raw_scale == scale as int && -pow10(precision as int) < unscaled < pow10(
            precision as int,
        ) {
            if precision <= 9 {
                Some(CellV::Int32(unscaled))
            } else {
                Some(CellV::Int64(unscaled))
            }
        } else {
            None
        },
        (SourceType::Date, RawCellV::Date { days }) => Some(CellV::Int32(days)),
        (SourceType::Time, RawCellV::Time { micros }) => if 0 <= micros < MICROS_PER_DAY as int {
            Some(CellV::Int64(micros))
        } else {
            None
        },
        (SourceType::DateTime, RawCellV::DateTime { micros }) => Some(CellV::Int64(micros)),
        (SourceType::DateTime2, RawCellV::DateTime { micros }) => Some(CellV::Int64(micros)),
        _ => None,
    }
}

/// A raw cell is accepted under a mapped column: a null needs the column to
/// be nullable, any other value must convert.
pub open spec fn cell_ok(col: MappedColumn, r: RawCellV) -> bool {
    if r is Null {
        col.nullable
    } else {
        converted_cell(col.source_type, r) is Some
    }
}

/// The converted value of an accepted raw cell: a null stays a null, any
/// other value converts by the table.
pub open spec fn cell_out(col: MappedColumn, r: RawCellV) -> CellV
    recommends
        cell_ok(col, r),
{
    if r is Null {
        CellV::Null
    } else {
        converted_cell(col.source_type, r).unwrap()
    }
}

/// The error a rejected raw cell produces: a nullability violation for a
/// null in a non-nullable column, a conversion error carrying the offending
/// value for everything else; both name the row and the column.
pub open spec fn cell_error(e: ExportError, col: MappedColumn, r: RawCellV, row: int) -> bool {
    if r is Null {
        e matches ExportError::NullabilityViolation { row: erow, column, ordinal } && erow == row
            && column@ == col.name@ && ordinal == col.ordinal
    } else {
        e matches ExportError::TypeConversion { row: erow, column, ordinal, source_type, value }
            && erow == row && column@ == col.name@ && ordinal == col.ordinal && source_type
            == col.source_type && value@ == r
    }
}

/// Converts one raw cell into the representation its mapped column dictates.
/// A null is accepted exactly in a nullable column and stays a null; every
/// other value converts by the table or fails, naming the row, the column
/// and the offending value.
pub fn convert_cell(raw: RawCell, col: &MappedColumn, row_idx: usize) -> (r: Result<
    Cell,
    ExportError,
>)
    requires
        mapping_of(col.source_type) is Some,
    ensures
        r is Ok <==> cell_ok(*col, raw@),
        r matches Ok(c) ==> c@ == cell_out(*col, raw@),
        r matches Ok(c) ==> (c@ is Null <==> raw@ is Null && col.nullable),
        r matches Err(e) ==> cell_error(e, *col, raw@, row_idx as int),
{
    match raw {
        RawCell::Null => {
            if col.nullable {
                Ok(Cell::Null)
            } else {
                Err(
                    ExportError::NullabilityViolation {
                        row: row_idx,
                        column: col.name.clone(),
                        ordinal: col.ordinal,
                    },
                )
            }
        },
        other => {
            let converted: Result<Cell, RawCell> = match (col.source_type, other) {
                (SourceType::TinyInt, RawCell::TinyInt(v)) => Ok(Cell::Int32(v as i32)),
                (SourceType::SmallInt, RawCell::SmallInt(v)) => Ok(Cell::Int32(v as i32)),
                (SourceType::Int, RawCell::Int(v)) => Ok(Cell::Int32(v)),
                (SourceType::BigInt, RawCell::BigInt(v)) => Ok(Cell::Int64(v)),
                (SourceType::Real, RawCell::Real(v)) => Ok(Cell::Float32(v)),
                (SourceType::Float, RawCell::Float(v)) => Ok(Cell::Float64(v)),
                (SourceType::Bit, RawCell::Bool(v)) => Ok(Cell::Boolean(v)),
                (SourceType::VarChar, RawCell::Text(s)) => Ok(Cell::Text(s)),
                (SourceType::NVarChar, RawCell::Text(s)) => Ok(Cell::Text(s)),
                (SourceType::Text, RawCell::Text(s)) => Ok(Cell::Text(s)),
                (SourceType::Binary, RawCell::Bytes(b)) => Ok(Cell::Bytes(b)),
                (SourceType::VarBinary, RawCell::Bytes(b)) => Ok(Cell::Bytes(b)),
                (
                    SourceType::Decimal { precision, scale },
                    RawCell::Decimal { unscaled, scale: raw_scale },
                ) => {
                    proof {
                        lemma_pow10_pos(precision as int);
                        lemma_pow10_mono(precision as int, 18);
                        assert(pow10(18) == 1000000000000000000) by {
                            reveal_with_fuel(pow10, 19);
                        }
                        if precision <= 9 {
                            lemma_pow10_mono(precision as int, 9);
                            assert(pow10(9) == 1000000000) by {
                                reveal_with_fuel(pow10, 10);
                            }
                        }
                    }
                    let limit = pow10_i64(precision) as i128;
                    if raw_scale == scale && -limit < unscaled && unscaled < limit {
                        if precision <= 9 {
                            Ok(Cell::Int32(unscaled as i32))
                        } else {
                            Ok(Cell::Int64(unscaled as i64))
                        }
                    } else {
                        Err(RawCell::Decimal { unscaled, scale: raw_scale })
                    }
                },
                (SourceType::Date, RawCell::Date { days }) => Ok(Cell::Int32(days)),
                (SourceType::Time, RawCell::Time { micros }) => {
                    if 0 <= micros && micros < MICROS_PER_DAY {
                        Ok(Cell::Int64(micros))
                    } else {
                        Err(RawCell::Time { micros })
                    }
                },
                (SourceType::DateTime, RawCell::DateTime { micros }) => Ok(Cell::Int64(micros)),
                (SourceType::DateTime2, RawCell::DateTime { micros }) => Ok(Cell::Int64(micros)),
                (_, mismatched) => Err(mismatched),
            };
            match converted {
                Ok(c) => Ok(c),
                Err(value) => Err(
                    ExportError::TypeConversion {
                        row: row_idx,
                        column: col.name.clone(),
                        ordinal: col.ordinal,
                        source_type: col.source_type,
                        value,
                    },
                ),
            }
        },
    }
}

/// Converts one raw row into the row the schema dictates, cell by cell, in
/// column order. A cell count that differs from the schema's column count
/// fails the row as a shape mismatch; the first rejected cell fails it with
/// that cell's error.
pub fn convert_row(raw: &Vec<RawCell>, schema: &ColumnarSchema, row_idx: usize) -> (r: Result<
    Vec<Cell>,
    ExportError,
>)
    requires
        schema.wf(),
    ensures
        raw@.len() != schema.columns@.len() ==> (r matches Err(e) && (e matches
            ExportError::RowShape { row, expected, actual } && row == row_idx && expected
            == schema.columns@.len() && actual == raw@.len())),
        raw@.len() == schema.columns@.len() ==> (r is Ok <==> (forall|j: int|
            0 <= j < raw@.len() ==> #[trigger] cell_ok(schema.columns@[j], raw@[j]@))),
        r matches Ok(cells) ==> cells@.len() == raw@.len() && (forall|j: int|
            0 <= j < raw@.len() ==> #[trigger] cells@[j]@ == cell_out(
                schema.columns@[j],
                raw@[j]@,
            )),
        raw@.len() == schema.columns@.len() ==> (r matches Err(e) ==> exists|j: int|
            #![auto]
            0 <= j < raw@.len() && !cell_ok(schema.columns@[j], raw@[j]@) && (forall|k: int|
                0 <= k < j ==> #[trigger] cell_ok(schema.columns@[k], raw@[k]@)) && cell_error(
                e,
                schema.columns@[j],
                raw@[j]@,
                row_idx as int,
            )),
{
    if raw.len() != schema.columns.len() {
        return Err(
            ExportError::RowShape {
                row: row_idx,
                expected: schema.columns.len(),
                actual: raw.len(),
            },
        );
    }
    let mut cells: Vec<Cell> = Vec::new();
    let mut j: usize = 0;
    while j < raw.len()
        invariant
            schema.wf(),
            raw@.len() == schema.columns@.len(),
            j <= raw@.len(),
            cells@.len() == j,
            forall|k: int| 0 <= k < j ==> #[trigger] cell_ok(schema.columns@[k], raw@[k]@),
            forall|k: int|
                0 <= k < j ==> #[trigger] cells@[k]@ == cell_out(schema.columns@[k], raw@[k]@),
        decreases raw@.len() - j,
    {
        match convert_cell(raw[j].clone(), &schema.columns[j], row_idx) {
            Ok(c) => {
                cells.push(c);
            },
            Err(e) => {
                return Err(e);
            },
        }
        j = j + 1;
    }
    Ok(cells)
}

/// Null correctness over a whole row: in a converted row a null stands
/// exactly where the raw row held a null in a nullable column.
pub proof fn lemma_null_correct(raw: Seq<RawCell>, schema: ColumnarSchema, cells: Seq<Cell>)
    requires
        raw.len() == schema.columns@.len(),
        cells.len() == raw.len(),
        forall|j: int| 0 <= j < raw.len() ==> #[trigger] cell_ok(schema.columns@[j], raw[j]@),
        forall|j: int|
            0 <= j < raw.len() ==> #[trigger] cells[j]@ == cell_out(schema.columns@[j], raw[j]@),
    ensures
        forall|j: int|
            0 <= j < cells.len() ==> ((#[trigger] cells[j]@ is Null) <==> raw[j]@ is Null
                && schema.columns@[j].nullable),
{
    assert forall|j: int| 0 <= j < cells.len() implies ((#[trigger] cells[j]@ is Null) <==> raw[j]@
        is Null && schema.columns@[j].nullable) by {
        assert(cell_ok(schema.columns@[j], raw[j]@));
        assert(cells[j]@ == cell_out(schema.columns@[j], raw[j]@));
        if !(raw[j]@ is Null) {
            assert(converted_cell(schema.columns@[j].source_type, raw[j]@) is Some);
            assert(!(cell_out(schema.columns@[j], raw[j]@) is Null));
        }
    }
}

} // verus!
