use rustmssql::cell::{Cell, RawCell};
use rustmssql::convert::{convert_cell, convert_row};
use rustmssql::errors::ExportError;
use rustmssql::schema::{map_column, map_schema, ColumnDescriptor, SourceType};

fn mapped(name: &str, ordinal: usize, source_type: SourceType, nullable: bool) -> rustmssql::schema::MappedColumn {
    map_column(&ColumnDescriptor { name: String::from(name), ordinal, source_type, nullable })
        .expect("supported type")
}

#[test]
fn values_convert_to_their_physical_representation() {
    assert_eq!(
        convert_cell(RawCell::TinyInt(200), &mapped("a", 0, SourceType::TinyInt, false), 0),
        Ok(Cell::Int32(200))
    );
    assert_eq!(
        convert_cell(RawCell::SmallInt(-12), &mapped("a", 0, SourceType::SmallInt, false), 0),
        Ok(Cell::Int32(-12))
    );
    assert_eq!(
        convert_cell(RawCell::Int(7), &mapped("a", 0, SourceType::Int, false), 0),
        Ok(Cell::Int32(7))
    );
    assert_eq!(
        convert_cell(RawCell::BigInt(1 << 40), &mapped("a", 0, SourceType::BigInt, false), 0),
        Ok(Cell::Int64(1 << 40))
    );
    assert_eq!(
        convert_cell(RawCell::Real(1.5f32.to_bits()), &mapped("a", 0, SourceType::Real, false), 0),
        Ok(Cell::Float32(1.5f32.to_bits()))
    );
    assert_eq!(
        convert_cell(RawCell::Float(2.25f64.to_bits()), &mapped("a", 0, SourceType::Float, false), 0),
        Ok(Cell::Float64(2.25f64.to_bits()))
    );
    assert_eq!(
        convert_cell(RawCell::Bool(true), &mapped("a", 0, SourceType::Bit, false), 0),
        Ok(Cell::Boolean(true))
    );
    assert_eq!(
        convert_cell(
            RawCell::Text(String::from("hello")),
            &mapped("a", 0, SourceType::NVarChar, false),
            0
        ),
        Ok(Cell::Text(String::from("hello")))
    );
    assert_eq!(
        convert_cell(
            RawCell::Bytes(vec![1, 2, 3]),
            &mapped("a", 0, SourceType::VarBinary, false),
            0
        ),
        Ok(Cell::Bytes(vec![1, 2, 3]))
    );
    assert_eq!(
        convert_cell(
            RawCell::Date { days: 19000 },
            &mapped("a", 0, SourceType::Date, false),
            0
        ),
        Ok(Cell::Int32(19000))
    );
    assert_eq!(
        convert_cell(
            RawCell::Time { micros: 3_600_000_000 },
            &mapped("a", 0, SourceType::Time, false),
            0
        ),
        Ok(Cell::Int64(3_600_000_000))
    );
    assert_eq!(
        convert_cell(
            RawCell::DateTime { micros: 1_700_000_000_000_000 },
            &mapped("a", 0, SourceType::DateTime2, false),
            0
        ),
        Ok(Cell::Int64(1_700_000_000_000_000))
    );
}

#[test]
fn narrow_decimal_is_stored_in_32_bits_and_wide_in_64() {
    let narrow = mapped("d", 0, SourceType::Decimal { precision: 9, scale: 2 }, false);
    assert_eq!(
        convert_cell(RawCell::Decimal { unscaled: 12345, scale: 2 }, &narrow, 0),
        Ok(Cell::Int32(12345))
    );
    let wide = mapped("d", 0, SourceType::Decimal { precision: 18, scale: 4 }, false);
    assert_eq!(
        convert_cell(RawCell::Decimal { unscaled: 9_876_543_210, scale: 4 }, &wide, 0),
        Ok(Cell::Int64(9_876_543_210))
    );
}

#[test]
fn null_in_nullable_column_stays_null() {
    let col = mapped("n", 2, SourceType::Int, true);
    assert_eq!(convert_cell(RawCell::Null, &col, 5), Ok(Cell::Null));
}

#[test]
fn null_in_non_nullable_column_fails() {
    let col = mapped("n", 2, SourceType::Int, false);
    assert_eq!(
        convert_cell(RawCell::Null, &col, 5),
        Err(ExportError::NullabilityViolation { row: 5, column: String::from("n"), ordinal: 2 })
    );
}

#[test]
fn mismatched_value_fails_naming_row_column_and_value() {
    let col = mapped("n", 1, SourceType::Int, true);
    let e = convert_cell(RawCell::Text(String::from("not a number")), &col, 9).unwrap_err();
    assert_eq!(
        e,
        ExportError::TypeConversion {
            row: 9,
            column: String::from("n"),
            ordinal: 1,
            source_type: SourceType::Int,
            value: RawCell::Text(String::from("not a number")),
        }
    );
}

#[test]
fn decimal_out_of_precision_fails() {
    let col = mapped("d", 0, SourceType::Decimal { precision: 4, scale: 1 }, false);
    // 10^4 = 10000 no longer fits 4 digits.
    let e = convert_cell(RawCell::Decimal { unscaled: 10_000, scale: 1 }, &col, 0).unwrap_err();
    assert!(matches!(e, ExportError::TypeConversion { .. }));
    // A scale that differs from the column's is not silently rescaled.
    let e = convert_cell(RawCell::Decimal { unscaled: 123, scale: 2 }, &col, 0).unwrap_err();
    assert!(matches!(e, ExportError::TypeConversion { .. }));
    // The widest value that fits passes.
    assert_eq!(
        convert_cell(RawCell::Decimal { unscaled: 9_999, scale: 1 }, &col, 0),
        Ok(Cell::Int32(9_999))
    );
}

#[test]
fn time_of_day_outside_one_day_fails() {
    let col = mapped("t", 0, SourceType::Time, false);
    let e = convert_cell(RawCell::Time { micros: 86_400_000_000 }, &col, 0).unwrap_err();
    assert!(matches!(e, ExportError::TypeConversion { .. }));
    let e = convert_cell(RawCell::Time { micros: -1 }, &col, 0).unwrap_err();
    assert!(matches!(e, ExportError::TypeConversion { .. }));
}

#[test]
fn row_shape_mismatch_fails_the_row() {
    let descriptors = vec![
        ColumnDescriptor {
            name: String::from("id"),
            ordinal: 0,
            source_type: SourceType::Int,
            nullable: false,
        },
        ColumnDescriptor {
            name: String::from("label"),
            ordinal: 1,
            source_type: SourceType::NVarChar,
            nullable: true,
        },
    ];
    let schema = map_schema(&descriptors).unwrap();
    let short = vec![RawCell::Int(1)];
    assert_eq!(
        convert_row(&short, &schema, 4),
        Err(ExportError::RowShape { row: 4, expected: 2, actual: 1 })
    );
}

#[test]
fn rows_convert_cell_by_cell_in_column_order() {
    let descriptors = vec![
        ColumnDescriptor {
            name: String::from("id"),
            ordinal: 0,
            source_type: SourceType::Int,
            nullable: false,
        },
        ColumnDescriptor {
            name: String::from("label"),
            ordinal: 1,
            source_type: SourceType::NVarChar,
            nullable: true,
        },
    ];
    let schema = map_schema(&descriptors).unwrap();
    let raw = vec![RawCell::Int(1), RawCell::Null];
    assert_eq!(
        convert_row(&raw, &schema, 0),
        Ok(vec![Cell::Int32(1), Cell::Null])
    );
    let raw = vec![RawCell::Null, RawCell::Text(String::from("x"))];
    assert_eq!(
        convert_row(&raw, &schema, 7),
        Err(ExportError::NullabilityViolation { row: 7, column: String::from("id"), ordinal: 0 })
    );
}
