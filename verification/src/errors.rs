//! The structured error values of the two operations. Every row-carrying
//! variant reports the 0-based index of the first offending line; the first
//! occurrence of any of these aborts the whole call.

use vstd::prelude::*;

use crate::cells::JsonKind;
use crate::ColumnType;

verus! {

/// Why a call failed, with the row it failed on where one applies.
#[derive(Debug)]
pub enum IngestError {
    /// The schema text is not valid JSON.
    SchemaParse { message: String },
    /// The schema document is not a valid schema of the supported draft.
    SchemaCompile { message: String },
    /// A line is not valid JSON; the message carries the syntax diagnostic.
    Parse { row: usize, message: String },
    /// A row violates the schema; the message describes the first violated
    /// constraint.
    Validation { row: usize, message: String },
    /// A row's top-level JSON value is not an object.
    Shape { row: usize },
    /// A field's JSON type or range is incompatible with its column's type.
    Type { row: usize, column: String, expected: ColumnType, actual: JsonKind },
}

impl IngestError {
    /// The 0-based row index the error reports, where one applies.
    pub fn row_index(&self) -> (r: Option<usize>)
        ensures
            match self {
                IngestError::SchemaParse { .. } => r is None,
                IngestError::SchemaCompile { .. } => r is None,
                IngestError::Parse { row, .. } => r == Some(*row),
                IngestError::Validation { row, .. } => r == Some(*row),
                IngestError::Shape { row } => r == Some(*row),
                IngestError::Type { row, .. } => r == Some(*row),
            },
    {
        match self {
            IngestError::SchemaParse { .. } => None,
            IngestError::SchemaCompile { .. } => None,
            IngestError::Parse { row, .. } => Some(*row),
            IngestError::Validation { row, .. } => Some(*row),
            IngestError::Shape { row } => Some(*row),
            IngestError::Type { row, .. } => Some(*row),
        }
    }
}

} // verus!
