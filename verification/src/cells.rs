//! The value model of the row-to-column engine: the kinds of JSON values, the
//! per-field content a decoded row hands to a column, the typed cells a column
//! stores, and the resolution rules that map a field to a cell.

use vstd::prelude::*;

use crate::ColumnType;

verus! {

/// The kind of a JSON value: the tag of the tagged union.
#[derive(Clone, Copy, PartialEq, Eq, Structural, Debug)]
pub enum JsonKind {
    Null,
    Bool,
    Number,
    String,
    Array,
    Object,
}

/// What one row offers for one column: the looked-up field's content.
///
/// A number carries its value as a signed 64-bit integer when it is exactly
/// representable as one, and always its JSON numeral text; an array or object
/// carries its canonical JSON text, the only part of it a column can take.
#[derive(Debug)]
#[allow(inconsistent_fields)]
pub enum FieldVal {
    /// The row has no field of the requested name.
    Absent,
    /// The field is JSON `null`.
    Null,
    /// A JSON number.
    Num { int_val: Option<i64>, text: String },
    /// A JSON boolean.
    Bool { val: bool },
    /// A JSON string.
    Str { val: String },
    /// A JSON array, as its canonical JSON text.
    Arr { text: String },
    /// A JSON object, as its canonical JSON text.
    Obj { text: String },
}

/// The mathematical model of a [`FieldVal`].
#[allow(inconsistent_fields)]
pub enum FieldSpec {
    Absent,
    Null,
    Num { int_val: Option<i64>, text: Seq<char> },
    Bool { val: bool },
    Str { val: Seq<char> },
    Arr { text: Seq<char> },
    Obj { text: Seq<char> },
}

impl View for FieldVal {
    type V = FieldSpec;

    open spec fn view(&self) -> FieldSpec {
        match self {
            FieldVal::Absent => FieldSpec::Absent,
            FieldVal::Null => FieldSpec::Null,
            FieldVal::Num { int_val, text } => FieldSpec::Num { int_val: *int_val, text: text@ },
            FieldVal::Bool { val } => FieldSpec::Bool { val: *val },
            FieldVal::Str { val } => FieldSpec::Str { val: val@ },
            FieldVal::Arr { text } => FieldSpec::Arr { text: text@ },
            FieldVal::Obj { text } => FieldSpec::Obj { text: text@ },
        }
    }
}

/// The JSON kind a field content came from; `Absent` and `Null` count as null.
pub open spec fn kind_of(f: FieldSpec) -> JsonKind {
    match f {
        FieldSpec::Absent => JsonKind::Null,
        FieldSpec::Null => JsonKind::Null,
        FieldSpec::Num { .. } => JsonKind::Number,
        FieldSpec::Bool { .. } => JsonKind::Bool,
        FieldSpec::Str { .. } => JsonKind::String,
        FieldSpec::Arr { .. } => JsonKind::Array,
        FieldSpec::Obj { .. } => JsonKind::Object,
    }
}

impl FieldVal {
    /// The JSON kind of this field content.
    pub fn kind(&self) -> (k: JsonKind)
        ensures
            k == kind_of(self@),
    {
        match self {
            FieldVal::Absent => JsonKind::Null,
            FieldVal::Null => JsonKind::Null,
            FieldVal::Num { .. } => JsonKind::Number,
            FieldVal::Bool { .. } => JsonKind::Bool,
            FieldVal::Str { .. } => JsonKind::String,
            FieldVal::Arr { .. } => JsonKind::Array,
            FieldVal::Obj { .. } => JsonKind::Object,
        }
    }
}

/// One entry of a column: a null marker or a typed value.
///
/// Integer columns of every width store the value as a signed 64-bit integer;
/// the column's well-formedness bounds it to the column's declared range, so
/// narrowing it on materialization is lossless. Floating-point columns store
/// the JSON numeral text of the number, to be read into the caller's float
/// representation on materialization: this library holds no floating-point
/// values itself.
#[derive(Debug, PartialEq)]
pub enum CellValue {
    Null,
    Int(i64),
    Float(String),
    Bool(bool),
    Text(String),
}

/// The mathematical model of a [`CellValue`].
pub enum CellSpec {
    Null,
    Int(int),
    Float(Seq<char>),
    Bool(bool),
    Text(Seq<char>),
}

impl View for CellValue {
    type V = CellSpec;

    open spec fn view(&self) -> CellSpec {
        match self {
            CellValue::Null => CellSpec::Null,
            CellValue::Int(i) => CellSpec::Int(*i as int),
            CellValue::Float(s) => CellSpec::Float(s@),
            CellValue::Bool(b) => CellSpec::Bool(*b),
            CellValue::Text(s) => CellSpec::Text(s@),
        }
    }
}

/// The smallest value an integer column of type `t` can hold.
pub open spec fn int_min(t: ColumnType) -> int {
    match t {
        ColumnType::Int8 => -0x80,
        ColumnType::Int16 => -0x8000,
        ColumnType::Int32 => -0x8000_0000,
        _ => -0x8000_0000_0000_0000,
    }
}

/// The largest value an integer column of type `t` can hold.
pub open spec fn int_max(t: ColumnType) -> int {
    match t {
        ColumnType::Int8 => 0x7f,
        ColumnType::Int16 => 0x7fff,
        ColumnType::Int32 => 0x7fff_ffff,
        _ => 0x7fff_ffff_ffff_ffff,
    }
}

pub open spec fn is_integer(t: ColumnType) -> bool {
    t == ColumnType::Int8 || t == ColumnType::Int16 || t == ColumnType::Int32 || t
        == ColumnType::Int64
}

pub open spec fn is_float(t: ColumnType) -> bool {
    t == ColumnType::Float32 || t == ColumnType::Float64
}

pub open spec fn is_text(t: ColumnType) -> bool {
    t == ColumnType::Text || t == ColumnType::LargeText
}

/// The canonical JSON text of a boolean.
pub open spec fn bool_text(b: bool) -> Seq<char> {
    if b {
        "true"@
    } else {
        "false"@
    }
}

/// The resolution rule of the field appender, per (field, column type) pair:
/// the cell to append, or `None` for a type error.
///
/// A missing field or a JSON `null` is a null entry in any column. An integer
/// column takes a number exactly representable as a signed 64-bit integer
/// within the column's range. A floating-point column takes any number. A
/// boolean column takes only a boolean. A text column takes a string verbatim
/// and any other non-null value as its canonical JSON text.
pub open spec fn cell_for(t: ColumnType, f: FieldSpec) -> Option<CellSpec> {
    match f {
        FieldSpec::Absent => Some(CellSpec::Null),
        FieldSpec::Null => Some(CellSpec::Null),
        FieldSpec::Num { int_val, text } => if is_integer(t) {
            match int_val {
                Some(i) => if int_min(t) <= i as int && i as int <= int_max(t) {
                    Some(CellSpec::Int(i as int))
                } else {
                    None
                },
                None => None,
            }
        } else if is_float(t) {
            Some(CellSpec::Float(text))
        } else if is_text(t) {
            Some(CellSpec::Text(text))
        } else {
            None
        },
        FieldSpec::Bool { val } => if t == ColumnType::Boolean {
            Some(CellSpec::Bool(val))
        } else if is_text(t) {
            Some(CellSpec::Text(bool_text(val)))
        } else {
            None
        },
        FieldSpec::Str { val } => if is_text(t) {
            Some(CellSpec::Text(val))
        } else {
            None
        },
        FieldSpec::Arr { text } => if is_text(t) {
            Some(CellSpec::Text(text))
        } else {
            None
        },
        FieldSpec::Obj { text } => if is_text(t) {
            Some(CellSpec::Text(text))
        } else {
            None
        },
    }
}

/// A cell resolved without error matches its column's type and range.
pub open spec fn cell_matches(t: ColumnType, c: CellSpec) -> bool {
    match c {
        CellSpec::Null => true,
        CellSpec::Int(i) => is_integer(t) && int_min(t) <= i <= int_max(t),
        CellSpec::Float(_) => is_float(t),
        CellSpec::Bool(_) => t == ColumnType::Boolean,
        CellSpec::Text(_) => is_text(t),
    }
}

pub proof fn lemma_cell_for_matches(t: ColumnType, f: FieldSpec)
    ensures
        cell_for(t, f) matches Some(c) ==> cell_matches(t, c),
{
}

/// A missing field resolves to a null entry in every column, never an error.
pub proof fn lemma_missing_field_is_null(t: ColumnType)
    ensures
        cell_for(t, FieldSpec::Absent) == Some(CellSpec::Null),
        cell_for(t, FieldSpec::Null) == Some(CellSpec::Null),
{
}

/// A number offered to a text column is coerced to its JSON numeral text,
/// never an error; a string offered to an integer column is a type error.
pub proof fn lemma_text_coercion_and_int_strictness(
    int_val: Option<i64>,
    text: Seq<char>,
    val: Seq<char>,
    t: ColumnType,
)
    ensures
        is_text(t) ==> cell_for(t, FieldSpec::Num { int_val, text }) == Some(CellSpec::Text(text)),
        is_integer(t) ==> cell_for(t, FieldSpec::Str { val }) is None,
{
}

/// An 8-bit integer column accepts exactly the integers in -128..=127.
pub proof fn lemma_int8_range(i: i64, text: Seq<char>)
    ensures
        cell_for(ColumnType::Int8, FieldSpec::Num { int_val: Some(i), text }) == (
        if -128 <= i as int && i as int <= 127 {
            Some(CellSpec::Int(i as int))
        } else {
            None::<CellSpec>
        }),
{
}

} // verus!
