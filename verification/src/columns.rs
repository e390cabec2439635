//! Column accumulators and the finalized table.
//!
//! One accumulator per target column grows by exactly one cell per input row;
//! finalization packages the accumulators, in target-schema order, into one
//! table whose columns all have the row count as their length.

use vstd::prelude::*;

use crate::cells::{
    bool_text, cell_for, cell_matches, is_float, is_integer, is_text, int_max, int_min, kind_of,
    CellSpec, CellValue, FieldVal, JsonKind,
};
use crate::ColumnType;

verus! {

/// One entry of the target table schema: a column's name and its type.
#[derive(Debug, PartialEq)]
pub struct ColumnDef {
    pub name: String,
    pub ctype: ColumnType,
}

/// The mathematical model of a [`ColumnDef`].
#[verifier::ext_equal]
pub struct DefModel {
    pub name: Seq<char>,
    pub ctype: ColumnType,
}

impl View for ColumnDef {
    type V = DefModel;

    open spec fn view(&self) -> DefModel {
        DefModel { name: self.name@, ctype: self.ctype }
    }
}

/// The models of a target schema's entries, in order.
pub open spec fn defs_model(s: Seq<ColumnDef>) -> Seq<DefModel> {
    Seq::new(s.len(), |i: int| s[i]@)
}

/// A growable typed column: its declared type and its cells so far.
#[derive(Debug, PartialEq)]
pub struct Column {
    pub ctype: ColumnType,
    pub cells: Vec<CellValue>,
}

/// The mathematical model of a [`Column`].
#[verifier::ext_equal]
pub struct ColumnModel {
    pub ctype: ColumnType,
    pub cells: Seq<CellSpec>,
}

impl View for Column {
    type V = ColumnModel;

    open spec fn view(&self) -> ColumnModel {
        ColumnModel { ctype: self.ctype, cells: Seq::new(self.cells@.len(), |i: int| self.cells@[i]@) }
    }
}

/// Whether a column type is one of the signed integer widths.
pub fn is_integer_type(t: ColumnType) -> (r: bool)
    ensures
        r == is_integer(t),
{
    match t {
        ColumnType::Int8 | ColumnType::Int16 | ColumnType::Int32 | ColumnType::Int64 => true,
        _ => false,
    }
}

/// Whether a column type is one of the floating-point widths.
pub fn is_float_type(t: ColumnType) -> (r: bool)
    ensures
        r == is_float(t),
{
    match t {
        ColumnType::Float32 | ColumnType::Float64 => true,
        _ => false,
    }
}

/// Whether a column type is one of the two text size classes.
pub fn is_text_type(t: ColumnType) -> (r: bool)
    ensures
        r == is_text(t),
{
    match t {
        ColumnType::Text | ColumnType::LargeText => true,
        _ => false,
    }
}

/// Whether `i` lies in the representable range of integer column type `t`.
pub fn int_in_range(t: ColumnType, i: i64) -> (r: bool)
    ensures
        r == (int_min(t) <= i as int && i as int <= int_max(t)),
{
    match t {
        ColumnType::Int8 => -0x80 <= i && i <= 0x7f,
        ColumnType::Int16 => -0x8000 <= i && i <= 0x7fff,
        ColumnType::Int32 => -0x8000_0000 <= i && i <= 0x7fff_ffff,
        _ => true,
    }
}

/// The canonical JSON text of a boolean, as an owned string.
pub fn bool_string(b: bool) -> (s: String)
    ensures
        s@ == bool_text(b),
{
    if b {
        "true".to_owned()
    } else {
        "false".to_owned()
    }
}

impl Column {
    /// Every cell stored so far matches the column's declared type and range.
    pub open spec fn wf(&self) -> bool {
        forall|i: int| 0 <= i < self@.cells.len() ==> cell_matches(self.ctype, #[trigger] self@.cells[i])
    }

    /// An empty accumulator of the given type.
    pub fn new(t: ColumnType) -> (c: Column)
        ensures
            c.ctype == t,
            c@.cells.len() == 0,
            c.wf(),
    {
        Column { ctype: t, cells: Vec::new() }
    }

    /// Append one cell, after the resolution rule allowed it.
    fn push_cell(&mut self, cell: CellValue)
        ensures
            final(self).ctype == old(self).ctype,
            final(self)@.cells == old(self)@.cells.push(cell@),
    {
        self.cells.push(cell);
        proof {
            assert(final(self)@.cells =~= old(self)@.cells.push(cell@));
        }
    }

    /// Append exactly one entry for one row's field content: the resolved cell,
    /// or, when the content cannot enter a column of this type, a type error
    /// carrying the content's JSON kind and leaving the column unchanged.
    pub fn append(&mut self, f: FieldVal) -> (r: Result<(), JsonKind>)
        ensures
            match cell_for(old(self).ctype, f@) {
                Some(c) => r is Ok && final(self).ctype == old(self).ctype && final(self)@.cells
                    == old(self)@.cells.push(c),
                None => r == Err::<(), JsonKind>(kind_of(f@)) && *final(self) == *old(self),
            },
            old(self).wf() ==> final(self).wf(),
    {
        proof {
            crate::cells::lemma_cell_for_matches(self.ctype, f@);
        }
        let t = self.ctype;
        match f {
            FieldVal::Absent => {
                self.push_cell(CellValue::Null);
                Ok(())
            },
            FieldVal::Null => {
                self.push_cell(CellValue::Null);
                Ok(())
            },
            FieldVal::Num { int_val, text } => {
                if is_integer_type(t) {
                    match int_val {
                        Some(i) => {
                            if int_in_range(t, i) {
                                self.push_cell(CellValue::Int(i));
                                Ok(())
                            } else {
                                Err(JsonKind::Number)
                            }
                        },
                        None => Err(JsonKind::Number),
                    }
                } else if is_float_type(t) {
                    self.push_cell(CellValue::Float(text));
                    Ok(())
                } else if is_text_type(t) {
                    self.push_cell(CellValue::Text(text));
                    Ok(())
                } else {
                    Err(JsonKind::Number)
                }
            },
            FieldVal::Bool { val } => {
                if t == ColumnType::Boolean {
                    self.push_cell(CellValue::Bool(val));
                    Ok(())
                } else if is_text_type(t) {
                    self.push_cell(CellValue::Text(bool_string(val)));
                    Ok(())
                } else {
                    Err(JsonKind::Bool)
                }
            },
            FieldVal::Str { val } => {
                if is_text_type(t) {
                    self.push_cell(CellValue::Text(val));
                    Ok(())
                } else {
                    Err(JsonKind::String)
                }
            },
            FieldVal::Arr { text } => {
                if is_text_type(t) {
                    self.push_cell(CellValue::Text(text));
                    Ok(())
                } else {
                    Err(JsonKind::Array)
                }
            },
            FieldVal::Obj { text } => {
                if is_text_type(t) {
                    self.push_cell(CellValue::Text(text));
                    Ok(())
                } else {
                    Err(JsonKind::Object)
                }
            },
        }
    }
}

/// The finalized, immutable output: columns positionally aligned to the
/// target table schema, all of one length, the row count.
#[derive(Debug, PartialEq)]
pub struct Table {
    pub defs: Vec<ColumnDef>,
    pub cols: Vec<Column>,
}

/// The mathematical model of a [`Table`].
#[verifier::ext_equal]
pub struct TableModel {
    pub defs: Seq<DefModel>,
    pub cols: Seq<ColumnModel>,
}

impl View for Table {
    type V = TableModel;

    open spec fn view(&self) -> TableModel {
        TableModel {
            defs: defs_model(self.defs@),
            cols: Seq::new(self.cols@.len(), |i: int| self.cols@[i]@),
        }
    }
}

} // verus!
