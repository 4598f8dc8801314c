use vstd::prelude::*;

use crate::cell::RawCell;
use crate::schema::SourceType;

verus! {

/// The error taxonomy of one export. Every error is fatal to the export as a
/// whole: there is no partial-row retry, no skip-and-continue mode, and no
/// automatic reconnection. Each variant carries enough context to diagnose
/// the failure without re-running the export.
#[derive(PartialEq, Debug)]
pub enum ExportError {
    /// The server could not be reached or refused the credentials.
    Connection { detail: String },
    /// The server could not resolve result-set metadata for the statement.
    SchemaInference { detail: String },
    /// A source column's type has no mapping rule.
    UnsupportedType { column: String, ordinal: usize, source_type: SourceType },
    /// A row's cell count differs from the schema's column count.
    RowShape { row: usize, expected: usize, actual: usize },
    /// A null value arrived in a column whose descriptor is not nullable.
    NullabilityViolation { row: usize, column: String, ordinal: usize },
    /// A value does not fit the mapped target type; carries the offending
    /// value itself.
    TypeConversion {
        row: usize,
        column: String,
        ordinal: usize,
        source_type: SourceType,
        value: RawCell,
    },
    /// A write or flush of the output file failed.
    Io { detail: String },
}

} // verus!
