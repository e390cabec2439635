//! The engine's cross-cutting guarantees, proved once from the contracts of
//! `validate` and `convert`.

use vstd::prelude::*;

use crate::cells::{CellSpec, FieldSpec};
use crate::columns::{DefModel, Table};
use crate::engine::{
    cell_model, convert_post, row_ok, rows_ok_prefix, valid_prefix, validate_post,
};
use crate::errors::IngestError;
use crate::jsonval::{
    field_model, field_present, json_parses, row_conforms, schema_compiles, text_parses,
};
use crate::lines::line_split;

verus! {

/// A buffer all of whose lines decode and conform, against a schema text that
/// decodes and compiles, is always accepted by `validate`: no error is ever
/// raised for such input.
pub proof fn lemma_validate_completeness(
    r: Result<(), IngestError>,
    buf: Seq<u8>,
    schema: Seq<char>,
)
    requires
        validate_post(r, buf, schema),
        text_parses(schema),
        schema_compiles(schema),
        valid_prefix(schema, line_split(buf), line_split(buf).len() as int),
    ensures
        r is Ok,
{
    let lns = line_split(buf);
    match r {
        Ok(()) => {},
        Err(e) => match e {
            IngestError::Parse { row, .. } => {
                assert(json_parses(lns[row as int]));
            },
            IngestError::Validation { row, .. } => {
                assert(row_conforms(schema, lns[row as int]));
            },
            _ => {},
        },
    }
}

/// A buffer all of whose rows are fully convertible, against a schema text
/// that decodes and compiles, is always converted to a table.
pub proof fn lemma_convert_completeness(
    r: Result<Table, IngestError>,
    buf: Seq<u8>,
    schema: Seq<char>,
    target: Seq<DefModel>,
)
    requires
        convert_post(r, buf, schema, target),
        text_parses(schema),
        schema_compiles(schema),
        rows_ok_prefix(schema, target, line_split(buf), line_split(buf).len() as int),
    ensures
        r is Ok,
{
    let lns = line_split(buf);
    match r {
        Ok(_) => {},
        Err(e) => match e {
            IngestError::Parse { row, .. } => {
                assert(row_ok(schema, target, lns[row as int]));
            },
            IngestError::Validation { row, .. } => {
                assert(row_ok(schema, target, lns[row as int]));
            },
            IngestError::Shape { row } => {
                assert(row_ok(schema, target, lns[row as int]));
            },
            IngestError::Type { row, .. } => {
                assert(row_ok(schema, target, lns[row as int]));
            },
            _ => {},
        },
    }
}

/// A successful conversion of an N-line buffer yields one column per target
/// entry, positionally aligned to the target schema, every column of length
/// exactly N.
pub proof fn lemma_table_shape(t: Table, buf: Seq<u8>, schema: Seq<char>, target: Seq<DefModel>)
    requires
        convert_post(Ok(t), buf, schema, target),
    ensures
        t@.defs == target,
        t@.cols.len() == target.len(),
        forall|j: int|
            0 <= j < target.len() ==> (#[trigger] t@.cols[j]).cells.len() == line_split(buf).len(),
{
}

/// Conversion is a function of its inputs: two successful conversions of the
/// same buffer against the same schema and target schema yield tables with
/// one and the same model.
pub proof fn lemma_convert_deterministic(
    t1: Table,
    t2: Table,
    buf: Seq<u8>,
    schema: Seq<char>,
    target: Seq<DefModel>,
)
    requires
        convert_post(Ok(t1), buf, schema, target),
        convert_post(Ok(t2), buf, schema, target),
    ensures
        t1@ == t2@,
{
    assert forall|j: int| 0 <= j < target.len() implies t1@.cols[j] == t2@.cols[j] by {
        assert(t1@.cols[j] =~= t2@.cols[j]);
    }
    assert(t1@.cols =~= t2@.cols);
    assert(t1@ =~= t2@);
}

/// Conversion couples validation: a buffer that converts against a schema
/// also validates against it.
pub proof fn lemma_convert_couples_validation(
    t: Table,
    r: Result<(), IngestError>,
    buf: Seq<u8>,
    schema: Seq<char>,
    target: Seq<DefModel>,
)
    requires
        convert_post(Ok(t), buf, schema, target),
        validate_post(r, buf, schema),
    ensures
        r is Ok,
{
    let lns = line_split(buf);
    assert forall|i: int| 0 <= i < lns.len() implies json_parses(#[trigger] lns[i])
        && row_conforms(schema, lns[i]) by {
        assert(row_ok(schema, target, lns[i]));
    }
    lemma_validate_completeness(r, buf, schema);
}

/// A row none of whose target fields is present resolves to a null entry in
/// every column, never to a type error.
pub proof fn lemma_missing_fields_give_nulls(target: Seq<DefModel>, line: Seq<u8>)
    requires
        forall|j: int| 0 <= j < target.len() ==> !field_present(line, (#[trigger] target[j]).name),
    ensures
        forall|j: int|
            0 <= j < target.len() ==> cell_model(#[trigger] target[j], line) == Some(
                CellSpec::Null,
            ),
{
    assert forall|j: int| 0 <= j < target.len() implies cell_model(#[trigger] target[j], line)
        == Some(CellSpec::Null) by {
        assert(field_model(line, target[j].name) == FieldSpec::Absent);
    }
}

} // verus!
