use vstd::prelude::*;

use crate::errors::ExportError;

verus! {

/// A source column's type as the relational server reports it: a closed set,
/// so that the mapper's exhaustiveness is checked by construction.
#[derive(Clone, Copy, PartialEq, Eq, Structural, Debug)]
pub enum SourceType {
    TinyInt,
    SmallInt,
    Int,
    BigInt,
    /// 4-byte floating point.
    Real,
    /// 8-byte floating point.
    Float,
    Bit,
    VarChar,
    NVarChar,
    Text,
    Binary,
    VarBinary,
    /// Fixed-precision decimal; `precision` digits in all, `scale` of them
    /// after the point.
    Decimal { precision: u32, scale: u32 },
    Date,
    Time,
    DateTime,
    DateTime2,
    Guid,
    Xml,
    Udt,
}

/// The physical storage type of an output column.
#[derive(Clone, Copy, PartialEq, Eq, Structural, Debug)]
pub enum PrimitiveKind {
    Boolean,
    Int32,
    Int64,
    /// 4-byte floating point storage.
    Float,
    /// 8-byte floating point storage.
    Double,
    ByteArray,
}

/// The logical annotation refining a physical type into a domain type.
#[derive(Clone, Copy, PartialEq, Eq, Structural, Debug)]
pub enum LogicalAnnotation {
    /// No annotation: the physical type stands for itself.
    Plain,
    /// UTF-8 text stored in a byte array.
    Utf8,
    /// An unsigned 8-bit integer stored in 32 bits.
    Uint8,
    /// A signed 16-bit integer stored in 32 bits.
    Int16,
    /// A decimal of `precision` digits, `scale` after the point, stored as
    /// its unscaled integer value.
    Decimal { precision: u32, scale: u32 },
    /// Days since the epoch, stored in 32 bits.
    Date,
    /// Microseconds since midnight, stored in 64 bits.
    TimeMicros,
    /// Microseconds since the epoch, stored in 64 bits.
    TimestampMicros,
}

/// One column as the Schema Inspector reports it: name, position, source
/// type and nullability. Ordinal order is the authoritative column order for
/// the whole pipeline.
#[derive(PartialEq, Debug)]
pub struct ColumnDescriptor {
    pub name: String,
    pub ordinal: usize,
    pub source_type: SourceType,
    pub nullable: bool,
}

/// One output column: the descriptor's name, position and nullability,
/// together with the physical type and logical annotation it maps to.
#[derive(PartialEq, Debug)]
pub struct MappedColumn {
    pub name: String,
    pub ordinal: usize,
    pub source_type: SourceType,
    pub primitive: PrimitiveKind,
    pub logical: LogicalAnnotation,
    pub nullable: bool,
}

/// The ordered output schema, one mapped column per descriptor, same order.
/// Built once before any row is read and never mutated afterwards.
#[derive(PartialEq, Debug)]
pub struct ColumnarSchema {
    pub columns: Vec<MappedColumn>,
}

/// The fixed mapping table: the one target representation of each source
/// type, or `None` for a source type the system does not support. Decimals
/// are supported up to 18 digits of precision (the widest that fits the
/// 64-bit physical type); wider decimals, `Guid`, `Xml` and `Udt` have no
/// mapping, and the mapper rejects them rather than substitute a lossy type.
pub open spec fn mapping_of(t: SourceType) -> Option<(PrimitiveKind, LogicalAnnotation)> {
    match t {
        SourceType::TinyInt => Some((PrimitiveKind::Int32, LogicalAnnotation::Uint8)),
        SourceType::SmallInt => Some((PrimitiveKind::Int32, LogicalAnnotation::Int16)),
        SourceType::Int => Some((PrimitiveKind::Int32, LogicalAnnotation::Plain)),
        SourceType::BigInt => Some((PrimitiveKind::Int64, LogicalAnnotation::Plain)),
        SourceType::Real => Some((PrimitiveKind::Float, LogicalAnnotation::Plain)),
        SourceType::Float => Some((PrimitiveKind::Double, LogicalAnnotation::Plain)),
        SourceType::Bit => Some((PrimitiveKind::Boolean, LogicalAnnotation::Plain)),
        SourceType::VarChar => Some((PrimitiveKind::ByteArray, LogicalAnnotation::Utf8)),
        SourceType::NVarChar => Some((PrimitiveKind::ByteArray, LogicalAnnotation::Utf8)),
        SourceType::Text => Some((PrimitiveKind::ByteArray, LogicalAnnotation::Utf8)),
        SourceType::Binary => Some((PrimitiveKind::ByteArray, LogicalAnnotation::Plain)),
        SourceType::VarBinary => Some((PrimitiveKind::ByteArray, LogicalAnnotation::Plain)),
        SourceType::Decimal { precision, scale } => if 1 <= precision && precision <= 18
            && scale <= precision {
            if precision <= 9 {
                Some(
                    (
                        PrimitiveKind::Int32,
                        LogicalAnnotation::Decimal { precision, scale },
                    ),
                )
            } else {
                Some(
                    (
                        PrimitiveKind::Int64,
                        LogicalAnnotation::Decimal { precision, scale },
                    ),
                )
            }
        } else {
            None
        },
        SourceType::Date => Some((PrimitiveKind::Int32, LogicalAnnotation::Date)),
        SourceType::Time => Some((PrimitiveKind::Int64, LogicalAnnotation::TimeMicros)),
        SourceType::DateTime => Some((PrimitiveKind::Int64, LogicalAnnotation::TimestampMicros)),
        SourceType::DateTime2 => Some((PrimitiveKind::Int64, LogicalAnnotation::TimestampMicros)),
        SourceType::Guid => None,
        SourceType::Xml => None,
        SourceType::Udt => None,
    }
}

/// The source type a server's numeric type id stands for, together with the
/// reported precision and scale: the Schema Inspector's mapping from the
/// metadata the server returns to the closed source-type set. An id outside
/// the table is `None`; a variant that carries no precision ignores it.
pub open spec fn source_type_of_id(id: u8, precision: u32, scale: u32) -> Option<SourceType> {
    if id == 48 {
        Some(SourceType::TinyInt)
    } else if id == 52 {
        Some(SourceType::SmallInt)
    } else if id == 56 {
        Some(SourceType::Int)
    } else if id == 127 {
        Some(SourceType::BigInt)
    } else if id == 59 {
        Some(SourceType::Real)
    } else if id == 62 {
        Some(SourceType::Float)
    } else if id == 104 {
        Some(SourceType::Bit)
    } else if id == 167 || id == 175 {
        Some(SourceType::VarChar)
    } else if id == 231 || id == 239 {
        Some(SourceType::NVarChar)
    } else if id == 35 || id == 99 {
        Some(SourceType::Text)
    } else if id == 173 {
        Some(SourceType::Binary)
    } else if id == 165 || id == 34 {
        Some(SourceType::VarBinary)
    } else if id == 106 || id == 108 {
        Some(SourceType::Decimal { precision, scale })
    } else if id == 40 {
        Some(SourceType::Date)
    } else if id == 41 {
        Some(SourceType::Time)
    } else if id == 61 || id == 58 {
        Some(SourceType::DateTime)
    } else if id == 42 {
        Some(SourceType::DateTime2)
    } else if id == 36 {
        Some(SourceType::Guid)
    } else if id == 241 {
        Some(SourceType::Xml)
    } else if id == 240 {
        Some(SourceType::Udt)
    } else {
        None
    }
}

/// The Schema Inspector's type resolution: turns a server type id with its
/// precision and scale into the source type it stands for.
pub fn resolve_source_type(id: u8, precision: u32, scale: u32) -> (r: Option<SourceType>)
    ensures
        r == source_type_of_id(id, precision, scale),
{
    match id {
        48 => Some(SourceType::TinyInt),
        52 => Some(SourceType::SmallInt),
        56 => Some(SourceType::Int),
        127 => Some(SourceType::BigInt),
        59 => Some(SourceType::Real),
        62 => Some(SourceType::Float),
        104 => Some(SourceType::Bit),
        167 | 175 => Some(SourceType::VarChar),
        231 | 239 => Some(SourceType::NVarChar),
        35 | 99 => Some(SourceType::Text),
        173 => Some(SourceType::Binary),
        165 | 34 => Some(SourceType::VarBinary),
        106 | 108 => Some(SourceType::Decimal { precision, scale }),
        40 => Some(SourceType::Date),
        41 => Some(SourceType::Time),
        61 | 58 => Some(SourceType::DateTime),
        42 => Some(SourceType::DateTime2),
        36 => Some(SourceType::Guid),
        241 => Some(SourceType::Xml),
        240 => Some(SourceType::Udt),
        _ => None,
    }
}

/// The mapped column `m` is the one the table prescribes for descriptor `d`:
/// same name, ordinal and nullability, and the target pair of `d`'s source
/// type.
pub open spec fn maps_descriptor(d: ColumnDescriptor, m: MappedColumn) -> bool {
    &&& m.name@ == d.name@
    &&& m.ordinal == d.ordinal
    &&& m.source_type == d.source_type
    &&& m.nullable == d.nullable
    &&& mapping_of(d.source_type) == Some((m.primitive, m.logical))
}

impl ColumnarSchema {
    /// Every column of the schema carries a supported source type.
    pub open spec fn wf(self) -> bool {
        forall|i: int|
            0 <= i < self.columns@.len() ==> #[trigger] mapping_of(
                self.columns@[i].source_type,
            ) is Some
    }

    /// Number of columns.
    pub fn len(&self) -> (n: usize)
        ensures
            n == self.columns@.len(),
    {
        self.columns.len()
    }
}

/// Maps one descriptor to its output column, or rejects a source type that
/// has no mapping, naming the offending column.
pub fn map_column(d: &ColumnDescriptor) -> (r: Result<MappedColumn, ExportError>)
    ensures
        r is Ok <==> mapping_of(d.source_type) is Some,
        r matches Ok(m) ==> maps_descriptor(*d, m),
        r matches Err(e) ==> e matches ExportError::UnsupportedType { column, ordinal, source_type }
            && column@ == d.name@ && ordinal == d.ordinal && source_type == d.source_type,
{
    let (primitive, logical) = match d.source_type {
        SourceType::TinyInt => (PrimitiveKind::Int32, LogicalAnnotation::Uint8),
        SourceType::SmallInt => (PrimitiveKind::Int32, LogicalAnnotation::Int16),
        SourceType::Int => (PrimitiveKind::Int32, LogicalAnnotation::Plain),
        SourceType::BigInt => (PrimitiveKind::Int64, LogicalAnnotation::Plain),
        SourceType::Real => (PrimitiveKind::Float, LogicalAnnotation::Plain),
        SourceType::Float => (PrimitiveKind::Double, LogicalAnnotation::Plain),
        SourceType::Bit => (PrimitiveKind::Boolean, LogicalAnnotation::Plain),
        SourceType::VarChar => (PrimitiveKind::ByteArray, LogicalAnnotation::Utf8),
        SourceType::NVarChar => (PrimitiveKind::ByteArray, LogicalAnnotation::Utf8),
        SourceType::Text => (PrimitiveKind::ByteArray, LogicalAnnotation::Utf8),
        SourceType::Binary => (PrimitiveKind::ByteArray, LogicalAnnotation::Plain),
        SourceType::VarBinary => (PrimitiveKind::ByteArray, LogicalAnnotation::Plain),
        SourceType::Decimal { precision, scale } => {
            if 1 <= precision && precision <= 18 && scale <= precision {
                if precision <= 9 {
                    (PrimitiveKind::Int32, LogicalAnnotation::Decimal { precision, scale })
                } else {
                    (PrimitiveKind::Int64, LogicalAnnotation::Decimal { precision, scale })
                }
            } else {
                return Err(ExportError::UnsupportedType {
                    column: d.name.clone(),
                    ordinal: d.ordinal,
                    source_type: d.source_type,
                });
            }
        },
        SourceType::Date => (PrimitiveKind::Int32, LogicalAnnotation::Date),
        SourceType::Time => (PrimitiveKind::Int64, LogicalAnnotation::TimeMicros),
        SourceType::DateTime => (PrimitiveKind::Int64, LogicalAnnotation::TimestampMicros),
        SourceType::DateTime2 => (PrimitiveKind::Int64, LogicalAnnotation::TimestampMicros),
        SourceType::Guid | SourceType::Xml | SourceType::Udt => {
            return Err(ExportError::UnsupportedType {
                column: d.name.clone(),
                ordinal: d.ordinal,
                source_type: d.source_type,
            });
        },
    };
    Ok(
        MappedColumn {
            name: d.name.clone(),
            ordinal: d.ordinal,
            source_type: d.source_type,
            primitive,
            logical,
            nullable: d.nullable,
        },
    )
}

/// The Schema Mapper: a pure function from the descriptor list to the
/// columnar schema, one mapped column per descriptor in the same order, or
/// the first unsupported column's error.
pub fn map_schema(descriptors: &Vec<ColumnDescriptor>) -> (r: Result<ColumnarSchema, ExportError>)
    ensures
        r is Ok <==> (forall|i: int|
            0 <= i < descriptors@.len() ==> #[trigger] mapping_of(
                descriptors@[i].source_type,
            ) is Some),
        r matches Ok(s) ==> s.columns@.len() == descriptors@.len() && s.wf() && (forall|i: int|
            0 <= i < descriptors@.len() ==> maps_descriptor(
                descriptors@[i],
                #[trigger] s.columns@[i],
            )),
        r matches Err(e) ==> e matches ExportError::UnsupportedType { column, ordinal, source_type }
            && (exists|i: int|
            #![auto]
            0 <= i < descriptors@.len() && mapping_of(descriptors@[i].source_type) is None && (
            forall|j: int|
                0 <= j < i ==> #[trigger] mapping_of(descriptors@[j].source_type) is Some)
                && column@ == descriptors@[i].name@ && ordinal == descriptors@[i].ordinal
                && source_type == descriptors@[i].source_type),
{
    let mut columns: Vec<MappedColumn> = Vec::new();
    let mut i: usize = 0;
    while i < descriptors.len()
        invariant
            i <= descriptors@.len(),
            columns@.len() == i,
            forall|j: int|
                0 <= j < i ==> #[trigger] mapping_of(descriptors@[j].source_type) is Some,
            forall|j: int|
                0 <= j < i ==> maps_descriptor(descriptors@[j], #[trigger] columns@[j]),
        decreases descriptors@.len() - i,
    {
        match map_column(&descriptors[i]) {
            Ok(m) => {
                columns.push(m);
            },
            Err(e) => {
                return Err(e);
            },
        }
        i = i + 1;
    }
    Ok(ColumnarSchema { columns })
}

} // verus!
