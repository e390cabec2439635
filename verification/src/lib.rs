//! Newline-delimited JSON ingestion: per-line JSON-Schema validation and
//! row-to-column conversion into a strongly typed in-memory table.

use vstd::prelude::*;

pub mod cells;
pub mod columns;
pub mod engine;
pub mod errors;
pub mod jsonval;
pub mod laws;
pub mod lines;

pub use columns::{Column, ColumnDef, Table};
pub use engine::{convert, validate};
pub use errors::IngestError;

verus! {

/// The closed set of column types a target table schema may request.
#[derive(Clone, Copy, PartialEq, Eq, Structural, Debug)]
pub enum ColumnType {
    Int8,
    Int16,
    Int32,
    Int64,
    Float32,
    Float64,
    Boolean,
    Text,
    LargeText,
}

} // verus!
