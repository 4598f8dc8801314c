use rustmssql::errors::ExportError;
use rustmssql::schema::{
    map_column, map_schema, resolve_source_type, ColumnDescriptor, LogicalAnnotation,
    PrimitiveKind, SourceType,
};

fn descriptor(name: &str, ordinal: usize, source_type: SourceType, nullable: bool) -> ColumnDescriptor {
    ColumnDescriptor { name: String::from(name), ordinal, source_type, nullable }
}

#[test]
fn every_supported_type_has_exactly_one_mapping() {
    let cases: Vec<(SourceType, PrimitiveKind, LogicalAnnotation)> = vec![
        (SourceType::TinyInt, PrimitiveKind::Int32, LogicalAnnotation::Uint8),
        (SourceType::SmallInt, PrimitiveKind::Int32, LogicalAnnotation::Int16),
        (SourceType::Int, PrimitiveKind::Int32, LogicalAnnotation::Plain),
        (SourceType::BigInt, PrimitiveKind::Int64, LogicalAnnotation::Plain),
        (SourceType::Real, PrimitiveKind::Float, LogicalAnnotation::Plain),
        (SourceType::Float, PrimitiveKind::Double, LogicalAnnotation::Plain),
        (SourceType::Bit, PrimitiveKind::Boolean, LogicalAnnotation::Plain),
        (SourceType::VarChar, PrimitiveKind::ByteArray, LogicalAnnotation::Utf8),
        (SourceType::NVarChar, PrimitiveKind::ByteArray, LogicalAnnotation::Utf8),
        (SourceType::Text, PrimitiveKind::ByteArray, LogicalAnnotation::Utf8),
        (SourceType::Binary, PrimitiveKind::ByteArray, LogicalAnnotation::Plain),
        (SourceType::VarBinary, PrimitiveKind::ByteArray, LogicalAnnotation::Plain),
        (
            SourceType::Decimal { precision: 9, scale: 2 },
            PrimitiveKind::Int32,
            LogicalAnnotation::Decimal { precision: 9, scale: 2 },
        ),
        (
            SourceType::Decimal { precision: 18, scale: 4 },
            PrimitiveKind::Int64,
            LogicalAnnotation::Decimal { precision: 18, scale: 4 },
        ),
        (SourceType::Date, PrimitiveKind::Int32, LogicalAnnotation::Date),
        (SourceType::Time, PrimitiveKind::Int64, LogicalAnnotation::TimeMicros),
        (SourceType::DateTime, PrimitiveKind::Int64, LogicalAnnotation::TimestampMicros),
        (SourceType::DateTime2, PrimitiveKind::Int64, LogicalAnnotation::TimestampMicros),
    ];
    for (i, (source_type, primitive, logical)) in cases.into_iter().enumerate() {
        let d = descriptor("c", i, source_type, i % 2 == 0);
        let m = map_column(&d).expect("supported type must map");
        assert_eq!(m.name, d.name);
        assert_eq!(m.ordinal, d.ordinal);
        assert_eq!(m.source_type, d.source_type);
        assert_eq!(m.nullable, d.nullable);
        assert_eq!(m.primitive, primitive);
        assert_eq!(m.logical, logical);
    }
}

#[test]
fn unsupported_type_is_rejected_naming_the_column() {
    let d = descriptor("payload", 3, SourceType::Xml, true);
    let e = map_column(&d).unwrap_err();
    assert_eq!(
        e,
        ExportError::UnsupportedType {
            column: String::from("payload"),
            ordinal: 3,
            source_type: SourceType::Xml,
        }
    );
}

#[test]
fn too_wide_decimal_is_rejected() {
    let d = descriptor("amount", 0, SourceType::Decimal { precision: 25, scale: 2 }, false);
    assert!(matches!(map_column(&d), Err(ExportError::UnsupportedType { .. })));
    let d = descriptor("amount", 0, SourceType::Decimal { precision: 0, scale: 0 }, false);
    assert!(matches!(map_column(&d), Err(ExportError::UnsupportedType { .. })));
    let d = descriptor("amount", 0, SourceType::Decimal { precision: 5, scale: 7 }, false);
    assert!(matches!(map_column(&d), Err(ExportError::UnsupportedType { .. })));
}

#[test]
fn schema_keeps_order_names_and_nullability() {
    let descriptors = vec![
        descriptor("id", 0, SourceType::Int, false),
        descriptor("label", 1, SourceType::NVarChar, true),
        descriptor("flag", 2, SourceType::Bit, true),
    ];
    let schema = map_schema(&descriptors).expect("all supported");
    assert_eq!(schema.columns.len(), 3);
    for (i, d) in descriptors.iter().enumerate() {
        assert_eq!(schema.columns[i].name, d.name);
        assert_eq!(schema.columns[i].ordinal, d.ordinal);
        assert_eq!(schema.columns[i].nullable, d.nullable);
        assert_eq!(schema.columns[i].source_type, d.source_type);
    }
}

#[test]
fn server_type_ids_resolve_to_source_types() {
    assert_eq!(resolve_source_type(48, 3, 0), Some(SourceType::TinyInt));
    assert_eq!(resolve_source_type(52, 5, 0), Some(SourceType::SmallInt));
    assert_eq!(resolve_source_type(56, 10, 0), Some(SourceType::Int));
    assert_eq!(resolve_source_type(127, 19, 0), Some(SourceType::BigInt));
    assert_eq!(resolve_source_type(59, 24, 0), Some(SourceType::Real));
    assert_eq!(resolve_source_type(62, 53, 0), Some(SourceType::Float));
    assert_eq!(resolve_source_type(104, 1, 0), Some(SourceType::Bit));
    assert_eq!(resolve_source_type(167, 0, 0), Some(SourceType::VarChar));
    assert_eq!(resolve_source_type(231, 0, 0), Some(SourceType::NVarChar));
    assert_eq!(resolve_source_type(165, 0, 0), Some(SourceType::VarBinary));
    assert_eq!(
        resolve_source_type(106, 18, 4),
        Some(SourceType::Decimal { precision: 18, scale: 4 })
    );
    assert_eq!(
        resolve_source_type(108, 9, 2),
        Some(SourceType::Decimal { precision: 9, scale: 2 })
    );
    assert_eq!(resolve_source_type(40, 10, 0), Some(SourceType::Date));
    assert_eq!(resolve_source_type(41, 16, 7), Some(SourceType::Time));
    assert_eq!(resolve_source_type(61, 23, 3), Some(SourceType::DateTime));
    assert_eq!(resolve_source_type(42, 27, 7), Some(SourceType::DateTime2));
    assert_eq!(resolve_source_type(36, 0, 0), Some(SourceType::Guid));
    assert_eq!(resolve_source_type(241, 0, 0), Some(SourceType::Xml));
    // geometry and other CLR types have no mapping at all
    assert_eq!(resolve_source_type(243, 0, 0), None);
}

#[test]
fn schema_fails_on_first_unsupported_column() {
    let descriptors = vec![
        descriptor("id", 0, SourceType::Int, false),
        descriptor("doc", 1, SourceType::Xml, true),
        descriptor("blob", 2, SourceType::Udt, true),
    ];
    let e = map_schema(&descriptors).unwrap_err();
    assert_eq!(
        e,
        ExportError::UnsupportedType {
            column: String::from("doc"),
            ordinal: 1,
            source_type: SourceType::Xml,
        }
    );
}
