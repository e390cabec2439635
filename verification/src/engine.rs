//! The two operations of the engine: validating a newline-delimited JSON
//! buffer against a schema, and converting it into a typed table.
//!
//! Both walk the buffer's lines in order and stop at the first failure, whose
//! error reports the 0-based index of the offending line. Conversion couples
//! validation and appending: each row is decoded, checked against the schema,
//! required to be an object, and then appended, one cell per target column.

use vstd::prelude::*;

use crate::cells::{cell_for, kind_of, CellSpec};
use crate::columns::{defs_model, Column, ColumnDef, DefModel, Table};
use crate::errors::IngestError;
use crate::jsonval::{
    check_row, compile_checker, field_model, json_parses, parse_row, parse_schema_doc, read_field,
    root_is_object, row_conforms, row_is_object, schema_compiles, text_parses,
};
use crate::lines::{line_split, split_lines, views_of};

verus! {

/// The cell resolved for the row decoded from `line` in the column `def`
/// describes, or `None` where that raises a type error.
pub open spec fn cell_model(def: DefModel, line: Seq<u8>) -> Option<CellSpec> {
    cell_for(def.ctype, field_model(line, def.name))
}

/// A row is fully convertible: it decodes, conforms to the schema, its
/// top-level value is an object, and every target column resolves a cell.
pub open spec fn row_ok(schema: Seq<char>, target: Seq<DefModel>, line: Seq<u8>) -> bool {
    &&& json_parses(line)
    &&& row_conforms(schema, line)
    &&& root_is_object(line)
    &&& forall|j: int| 0 <= j < target.len() ==> cell_model(#[trigger] target[j], line) is Some
}

/// The rows before index `n` are all fully convertible.
pub open spec fn rows_ok_prefix(
    schema: Seq<char>,
    target: Seq<DefModel>,
    lns: Seq<Seq<u8>>,
    n: int,
) -> bool {
    forall|i: int| 0 <= i < n ==> row_ok(schema, target, #[trigger] lns[i])
}

/// The cells of the column `def` describes, over the first `n` rows: entry
/// `i` is the cell resolved from row `i`.
pub open spec fn col_model(def: DefModel, lns: Seq<Seq<u8>>, n: int) -> Seq<CellSpec>
    recommends
        0 <= n <= lns.len(),
{
    Seq::new(n as nat, |i: int| cell_model(def, lns[i])->0)
}

/// The lines before index `n` all decode and conform to the schema.
pub open spec fn valid_prefix(schema: Seq<char>, lns: Seq<Seq<u8>>, n: int) -> bool {
    forall|i: int| 0 <= i < n ==> json_parses(#[trigger] lns[i]) && row_conforms(schema, lns[i])
}

/// What `validate` promises of its result: success exactly when the schema
/// text decodes and compiles and every line decodes and conforms; an error
/// names the first offending line and what is wrong with it.
pub open spec fn validate_post(r: Result<(), IngestError>, buf: Seq<u8>, schema: Seq<char>) -> bool {
    let lns = line_split(buf);
    match r {
        Ok(()) => text_parses(schema) && schema_compiles(schema) && valid_prefix(
            schema,
            lns,
            lns.len() as int,
        ),
        Err(e) => match e {
            IngestError::SchemaParse { .. } => !text_parses(schema),
            IngestError::SchemaCompile { .. } => text_parses(schema) && !schema_compiles(schema),
            IngestError::Parse { row, .. } => text_parses(schema) && schema_compiles(schema) && (
            row as int) < lns.len() && !json_parses(lns[row as int]) && valid_prefix(
                schema,
                lns,
                row as int,
            ),
            IngestError::Validation { row, .. } => text_parses(schema) && schema_compiles(schema)
                && (row as int) < lns.len() && json_parses(lns[row as int]) && !row_conforms(
                schema,
                lns[row as int],
            ) && valid_prefix(schema, lns, row as int),
            _ => false,
        },
    }
}

/// Validate every line of the buffer against the schema, stopping at the
/// first failure.
pub fn validate(buf: &[u8], schema_text: &str) -> (r: Result<(), IngestError>)
    ensures
        validate_post(r, buf@, schema_text@),
{
    let doc = match parse_schema_doc(schema_text) {
        Ok(d) => d,
        Err(message) => {
            return Err(IngestError::SchemaParse { message });
        },
    };
    let checker = match compile_checker(doc) {
        Ok(c) => c,
        Err(message) => {
            return Err(IngestError::SchemaCompile { message });
        },
    };
    let lns = split_lines(buf);
    let ghost glines = line_split(buf@);
    let mut i: usize = 0;
    while i < lns.len()
        invariant
            i <= lns@.len(),
            views_of(lns@) == glines,
            glines == line_split(buf@),
            checker.schema_text() == schema_text@,
            text_parses(schema_text@),
            schema_compiles(schema_text@),
            valid_prefix(schema_text@, glines, i as int),
        decreases lns@.len() - i,
    {
        let line: &Vec<u8> = &lns[i];
        proof {
            assert(line@ == glines[i as int]);
        }
        let row = match parse_row(line.as_slice()) {
            Ok(rw) => rw,
            Err(message) => {
                return Err(IngestError::Parse { row: i, message });
            },
        };
        match check_row(&checker, &row) {
            Ok(()) => (),
            Err(message) => {
                return Err(IngestError::Validation { row: i, message });
            },
        }
        i += 1;
    }
    Ok(())
}

/// What `convert` promises of its result: on success every line was fully
/// convertible and the table's columns, aligned to the target schema, hold
/// exactly the resolved cells of every row in order; an error names the first
/// offending line, and a type error additionally the first offending column.
pub open spec fn convert_post(
    r: Result<Table, IngestError>,
    buf: Seq<u8>,
    schema: Seq<char>,
    target: Seq<DefModel>,
) -> bool {
    let lns = line_split(buf);
    match r {
        Ok(t) => {
            &&& text_parses(schema)
            &&& schema_compiles(schema)
            &&& rows_ok_prefix(schema, target, lns, lns.len() as int)
            &&& t@.defs == target
            &&& t@.cols.len() == target.len()
            &&& forall|j: int|
                0 <= j < target.len() ==> (#[trigger] t@.cols[j]).ctype == target[j].ctype
                    && t@.cols[j].cells == col_model(target[j], lns, lns.len() as int)
        },
        Err(e) => match e {
            IngestError::SchemaParse { .. } => !text_parses(schema),
            IngestError::SchemaCompile { .. } => text_parses(schema) && !schema_compiles(schema),
            IngestError::Parse { row, .. } => text_parses(schema) && schema_compiles(schema) && (
            row as int) < lns.len() && !json_parses(lns[row as int]) && rows_ok_prefix(
                schema,
                target,
                lns,
                row as int,
            ),
            IngestError::Validation { row, .. } => text_parses(schema) && schema_compiles(schema)
                && (row as int) < lns.len() && json_parses(lns[row as int]) && !row_conforms(
                schema,
                lns[row as int],
            ) && rows_ok_prefix(schema, target, lns, row as int),
            IngestError::Shape { row } => text_parses(schema) && schema_compiles(schema) && (
            row as int) < lns.len() && json_parses(lns[row as int]) && row_conforms(
                schema,
                lns[row as int],
            ) && !root_is_object(lns[row as int]) && rows_ok_prefix(schema, target, lns, row as int),
            IngestError::Type { row, column, expected, actual } => {
                &&& text_parses(schema)
                &&& schema_compiles(schema)
                &&& (row as int) < lns.len()
                &&& json_parses(lns[row as int])
                &&& row_conforms(schema, lns[row as int])
                &&& root_is_object(lns[row as int])
                &&& rows_ok_prefix(schema, target, lns, row as int)
                &&& exists|j: int|
                    0 <= j < target.len() && column@ == (#[trigger] target[j]).name && expected
                        == target[j].ctype && cell_model(target[j], lns[row as int]) is None
                        && actual == kind_of(field_model(lns[row as int], target[j].name)) && (
                    forall|k: int|
                        0 <= k < j ==> cell_model(#[trigger] target[k], lns[row as int]) is Some)
            },
        },
    }
}

/// An owned copy of the target schema, model-identical.
fn clone_defs(target: &Vec<ColumnDef>) -> (r: Vec<ColumnDef>)
    ensures
        defs_model(r@) == defs_model(target@),
{
    let mut r: Vec<ColumnDef> = Vec::new();
    let mut j: usize = 0;
    while j < target.len()
        invariant
            j <= target@.len(),
            r@.len() == j,
            forall|k: int| 0 <= k < j ==> r@[k]@ == target@[k]@,
        decreases target@.len() - j,
    {
        let d = &target[j];
        r.push(ColumnDef { name: d.name.as_str().to_owned(), ctype: d.ctype });
        j += 1;
    }
    proof {
        assert(defs_model(r@) =~= defs_model(target@));
    }
    r
}

/// Validate every line of the buffer against the schema and append each row
/// into the target schema's columns; return the finalized table or the first
/// fatal error.
pub fn convert(buf: &[u8], schema_text: &str, target: &Vec<ColumnDef>) -> (r: Result<
    Table,
    IngestError,
>)
    ensures
        convert_post(r, buf@, schema_text@, defs_model(target@)),
{
    let ghost gtarget = defs_model(target@);
    let doc = match parse_schema_doc(schema_text) {
        Ok(d) => d,
        Err(message) => {
            return Err(IngestError::SchemaParse { message });
        },
    };
    let checker = match compile_checker(doc) {
        Ok(c) => c,
        Err(message) => {
            return Err(IngestError::SchemaCompile { message });
        },
    };
    let lns = split_lines(buf);
    let ghost glines = line_split(buf@);
    let mut cols: Vec<Column> = Vec::new();
    let mut j: usize = 0;
    while j < target.len()
        invariant
            j <= target@.len(),
            gtarget == defs_model(target@),
            cols@.len() == j,
            forall|k: int|
                0 <= k < j ==> (#[trigger] cols@[k]).ctype == gtarget[k].ctype && cols@[k].wf()
                    && cols@[k]@.cells.len() == 0,
        decreases target@.len() - j,
    {
        cols.push(Column::new(target[j].ctype));
        j += 1;
    }
    let mut i: usize = 0;
    while i < lns.len()
        invariant
            i <= lns@.len(),
            views_of(lns@) == glines,
            glines == line_split(buf@),
            gtarget == defs_model(target@),
            checker.schema_text() == schema_text@,
            text_parses(schema_text@),
            schema_compiles(schema_text@),
            cols@.len() == gtarget.len(),
            rows_ok_prefix(schema_text@, gtarget, glines, i as int),
            forall|k: int|
                0 <= k < gtarget.len() ==> (#[trigger] cols@[k]).ctype == gtarget[k].ctype
                    && cols@[k].wf() && cols@[k]@.cells == col_model(gtarget[k], glines, i as int),
        decreases lns@.len() - i,
    {
        let line: &Vec<u8> = &lns[i];
        proof {
            assert(line@ == glines[i as int]);
        }
        let row = match parse_row(line.as_slice()) {
            Ok(rw) => rw,
            Err(message) => {
                return Err(IngestError::Parse { row: i, message });
            },
        };
        match check_row(&checker, &row) {
            Ok(()) => (),
            Err(message) => {
                return Err(IngestError::Validation { row: i, message });
            },
        }
        if !row_is_object(&row) {
            return Err(IngestError::Shape { row: i });
        }
        let mut j: usize = 0;
        while j < target.len()
            invariant
                j <= gtarget.len(),
                i < lns@.len(),
                views_of(lns@) == glines,
                glines == line_split(buf@),
                gtarget == defs_model(target@),
                checker.schema_text() == schema_text@,
                text_parses(schema_text@),
                schema_compiles(schema_text@),
                row.src_bytes() == glines[i as int],
                json_parses(glines[i as int]),
                row_conforms(schema_text@, glines[i as int]),
                root_is_object(glines[i as int]),
                rows_ok_prefix(schema_text@, gtarget, glines, i as int),
                cols@.len() == gtarget.len(),
                forall|k: int|
                    0 <= k < gtarget.len() ==> (#[trigger] cols@[k]).ctype == gtarget[k].ctype
                        && cols@[k].wf(),
                forall|k: int|
                    0 <= k < j ==> cell_model(#[trigger] gtarget[k], glines[i as int]) is Some,
                forall|k: int|
                    0 <= k < j ==> (#[trigger] cols@[k])@.cells == col_model(
                        gtarget[k],
                        glines,
                        i as int,
                    ).push(cell_model(gtarget[k], glines[i as int])->0),
                forall|k: int|
                    j <= k < gtarget.len() ==> (#[trigger] cols@[k])@.cells == col_model(
                        gtarget[k],
                        glines,
                        i as int,
                    ),
            decreases target@.len() - j,
        {
            let d = &target[j];
            let fv = read_field(&row, d.name.as_str());
            let ghost pre = cols@;
            let mut col = cols.remove(j);
            match col.append(fv) {
                Ok(()) => {
                    cols.insert(j, col);
                    proof {
                        assert(cols@ =~= pre.update(j as int, col));
                    }
                    j += 1;
                },
                Err(actual) => {
                    return Err(
                        IngestError::Type {
                            row: i,
                            column: d.name.as_str().to_owned(),
                            expected: d.ctype,
                            actual,
                        },
                    );
                },
            }
        }
        proof {
            assert(row_ok(schema_text@, gtarget, glines[i as int]));
            assert forall|k: int| 0 <= k < gtarget.len() implies (#[trigger] cols@[k])@.cells
                == col_model(gtarget[k], glines, i as int + 1) by {
                assert(col_model(gtarget[k], glines, i as int + 1) =~= col_model(
                    gtarget[k],
                    glines,
                    i as int,
                ).push(cell_model(gtarget[k], glines[i as int])->0));
            }
        }
        i += 1;
    }
    let defs = clone_defs(target);
    let t = Table { defs, cols };
    proof {
        assert(glines.len() == lns@.len());
        assert(t@.defs == gtarget);
    }
    Ok(t)
}

} // verus!
