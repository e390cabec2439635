//! The trusted boundary around the JSON decoder and the JSON-Schema engine.
//!
//! Parsing, schema compilation, per-row validation and field extraction are
//! deterministic functions of their textual inputs alone: no call here reads
//! the clock, the environment, the file system or the network (the schema
//! engine is built without its resource-resolution features). Each outcome is
//! therefore named by an uninterpreted spec function over the originating
//! bytes, and every value that crosses the boundary carries, as ghost state,
//! the bytes it was decoded from, pinned by the decoding wrapper's contract.

use vstd::prelude::*;

use crate::cells::{FieldVal, JsonKind};

verus! {

#[verifier::external_type_specification]
#[verifier::external_body]
pub struct ExJsonValue(serde_json::Value);

/// An opaque box around the schema engine's compiled validator. Verus cannot
/// take `jsonschema::Validator`'s generics, so the whole box is hidden; all
/// that is stated of it is said by the wrappers below.
#[verifier::external_body]
pub(crate) struct ValidatorBox {
    validator: jsonschema::Validator,
}

/// Whether the JSON decoder accepts these bytes as one JSON value.
pub uninterp spec fn json_parses(line: Seq<u8>) -> bool;

/// Whether the JSON decoder accepts this text as one JSON value.
pub uninterp spec fn text_parses(doc: Seq<char>) -> bool;

/// Whether the schema engine compiles the document decoded from this text.
pub uninterp spec fn schema_compiles(doc: Seq<char>) -> bool;

/// The verdict of the compiled schema on the value decoded from these bytes.
pub uninterp spec fn row_conforms(schema: Seq<char>, line: Seq<u8>) -> bool;

/// Whether the value decoded from these bytes is a JSON object.
pub uninterp spec fn root_is_object(line: Seq<u8>) -> bool;

/// Whether the object decoded from these bytes has a field of this name.
pub uninterp spec fn field_present(line: Seq<u8>, key: Seq<char>) -> bool;

/// The kind of that field's value.
pub uninterp spec fn field_kind(line: Seq<u8>, key: Seq<char>) -> JsonKind;

/// That field's value as a signed 64-bit integer, when it is a number exactly
/// representable as one.
pub uninterp spec fn field_int(line: Seq<u8>, key: Seq<char>) -> Option<i64>;

/// That field's value, when it is a boolean.
pub uninterp spec fn field_bool(line: Seq<u8>, key: Seq<char>) -> Option<bool>;

/// That field's value, when it is a string.
pub uninterp spec fn field_string(line: Seq<u8>, key: Seq<char>) -> Option<Seq<char>>;

/// That field's value re-serialized as canonical JSON text.
pub uninterp spec fn field_json(line: Seq<u8>, key: Seq<char>) -> Seq<char>;

/// One decoded line: a JSON value together with the bytes it came from.
pub struct JsonRow {
    value: serde_json::Value,
    src: Ghost<Seq<u8>>,
}

impl JsonRow {
    /// The bytes this row was decoded from.
    pub closed spec fn src_bytes(&self) -> Seq<u8> {
        self.src@
    }
}

/// A decoded schema document: a JSON value together with its source text.
pub struct SchemaDoc {
    value: serde_json::Value,
    src: Ghost<Seq<char>>,
}

impl SchemaDoc {
    /// The text this document was decoded from.
    pub closed spec fn src_text(&self) -> Seq<char> {
        self.src@
    }
}

/// A compiled schema validator together with the schema's source text.
pub struct Checker {
    inner: ValidatorBox,
    src: Ghost<Seq<char>>,
}

impl Checker {
    /// The text of the schema this validator was compiled from.
    pub closed spec fn schema_text(&self) -> Seq<char> {
        self.src@
    }
}

/// One field looked up in a decoded row, with the row's bytes and the field's
/// name as ghost state.
pub struct FieldRef<'a> {
    value: &'a serde_json::Value,
    line: Ghost<Seq<u8>>,
    key: Ghost<Seq<char>>,
}

impl<'a> FieldRef<'a> {
    /// The bytes of the row this field was looked up in.
    pub closed spec fn line_bytes(&self) -> Seq<u8> {
        self.line@
    }

    /// The name this field was looked up under.
    pub closed spec fn key_chars(&self) -> Seq<char> {
        self.key@
    }
}

/// Relies on `serde_json::from_slice`: decoding one line's bytes into a JSON
/// value succeeds or fails by the bytes alone; the error's text carries the
/// syntax diagnostic.
#[verifier::external_body]
pub(crate) fn parse_row(line: &[u8]) -> (r: Result<JsonRow, String>)
    ensures
        r is Ok <==> json_parses(line@),
        r matches Ok(row) ==> row.src_bytes() == line@,
{
    match serde_json::from_slice::<serde_json::Value>(line) {
        Ok(value) => Ok(JsonRow { value, src: Ghost(arbitrary()) }),
        Err(e) => Err(format!("{}", e)),
    }
}

/// Relies on `serde_json::from_str`: decoding the schema text into a JSON
/// value succeeds or fails by the text alone.
#[verifier::external_body]
pub(crate) fn parse_schema_doc(doc: &str) -> (r: Result<SchemaDoc, String>)
    ensures
        r is Ok <==> text_parses(doc@),
        r matches Ok(d) ==> d.src_text() == doc@,
{
    match serde_json::from_str::<serde_json::Value>(doc) {
        Ok(value) => Ok(SchemaDoc { value, src: Ghost(arbitrary()) }),
        Err(e) => Err(format!("{}", e)),
    }
}

/// Relies on `jsonschema::draft202012::new`: compiling a schema document
/// succeeds or fails by the document alone, and the compiled validator is a
/// function of it; the error's text names why the document is not a valid
/// schema.
#[verifier::external_body]
pub(crate) fn compile_checker(doc: SchemaDoc) -> (r: Result<Checker, String>)
    ensures
        r is Ok <==> schema_compiles(doc.src_text()),
        r matches Ok(c) ==> c.schema_text() == doc.src_text(),
{
    match jsonschema::draft202012::new(&doc.value) {
        Ok(validator) => Ok(Checker { inner: ValidatorBox { validator }, src: Ghost(arbitrary()) }),
        Err(e) => Err(format!("{}", e)),
    }
}

/// Relies on `jsonschema::Validator::validate`: the verdict on a decoded value
/// is a function of the schema's text and the row's bytes alone; the error's
/// text describes the first violated constraint.
#[verifier::external_body]
pub(crate) fn check_row(checker: &Checker, row: &JsonRow) -> (r: Result<(), String>)
    ensures
        r is Ok <==> row_conforms(checker.schema_text(), row.src_bytes()),
{
    match checker.inner.validator.validate(&row.value) {
        Ok(()) => Ok(()),
        Err(e) => Err(format!("{}", e)),
    }
}

/// Relies on `serde_json::Value::is_object`.
#[verifier::external_body]
pub(crate) fn row_is_object(row: &JsonRow) -> (r: bool)
    ensures
        r == root_is_object(row.src_bytes()),
{
    row.value.is_object()
}

/// Relies on `serde_json::Value::get`: the lookup of a field by name in the
/// decoded object, `None` when the name is absent.
#[verifier::external_body]
pub(crate) fn get_field<'a>(row: &'a JsonRow, key: &str) -> (r: Option<FieldRef<'a>>)
    ensures
        r is Some <==> field_present(row.src_bytes(), key@),
        r matches Some(f) ==> f.line_bytes() == row.src_bytes() && f.key_chars() == key@,
{
    match row.value.get(key) {
        Some(value) => Some(FieldRef { value, line: Ghost(arbitrary()), key: Ghost(arbitrary()) }),
        None => None,
    }
}

impl<'a> FieldRef<'a> {
    /// Relies on `serde_json::Value`'s variants: the tag of the tagged union.
    #[verifier::external_body]
    pub(crate) fn kind(&self) -> (k: JsonKind)
        ensures
            k == field_kind(self.line_bytes(), self.key_chars()),
    {
        match self.value {
            serde_json::Value::Null => JsonKind::Null,
            serde_json::Value::Bool(_) => JsonKind::Bool,
            serde_json::Value::Number(_) => JsonKind::Number,
            serde_json::Value::String(_) => JsonKind::String,
            serde_json::Value::Array(_) => JsonKind::Array,
            serde_json::Value::Object(_) => JsonKind::Object,
        }
    }

    /// Relies on `serde_json::Value::as_i64`: `Some` exactly when the value is
    /// a number exactly representable as a signed 64-bit integer.
    #[verifier::external_body]
    pub(crate) fn as_int(&self) -> (r: Option<i64>)
        ensures
            r == field_int(self.line_bytes(), self.key_chars()),
    {
        self.value.as_i64()
    }

    /// Relies on `serde_json::Value::as_bool`: `Some` exactly when the value
    /// is a boolean.
    #[verifier::external_body]
    pub(crate) fn as_bool(&self) -> (r: Option<bool>)
        ensures
            r == field_bool(self.line_bytes(), self.key_chars()),
            field_kind(self.line_bytes(), self.key_chars()) == JsonKind::Bool ==> r is Some,
    {
        self.value.as_bool()
    }

    /// Relies on `serde_json::Value::as_str`: `Some` exactly when the value is
    /// a string, returned verbatim.
    #[verifier::external_body]
    pub(crate) fn as_text(&self) -> (r: Option<String>)
        ensures
            match r {
                Some(s) => field_string(self.line_bytes(), self.key_chars()) == Some(s@),
                None => field_string(self.line_bytes(), self.key_chars()) is None,
            },
            field_kind(self.line_bytes(), self.key_chars()) == JsonKind::String ==> r is Some,
    {
        self.value.as_str().map(|s| s.to_owned())
    }

    /// Relies on `serde_json::to_string`: the canonical JSON re-serialization
    /// of the value; on a decoded `serde_json::Value` it cannot fail.
    #[verifier::external_body]
    pub(crate) fn json_text(&self) -> (r: String)
        ensures
            r@ == field_json(self.line_bytes(), self.key_chars()),
    {
        match serde_json::to_string(self.value) {
            Ok(s) => s,
            Err(_) => String::new(),
        }
    }
}

/// The field content of one (row, column name) pair, over the names above.
pub open spec fn field_model(line: Seq<u8>, key: Seq<char>) -> crate::cells::FieldSpec {
    if !field_present(line, key) {
        crate::cells::FieldSpec::Absent
    } else {
        match field_kind(line, key) {
            JsonKind::Null => crate::cells::FieldSpec::Null,
            JsonKind::Bool => crate::cells::FieldSpec::Bool { val: field_bool(line, key)->0 },
            JsonKind::Number => crate::cells::FieldSpec::Num {
                int_val: field_int(line, key),
                text: field_json(line, key),
            },
            JsonKind::String => crate::cells::FieldSpec::Str { val: field_string(line, key)->0 },
            JsonKind::Array => crate::cells::FieldSpec::Arr { text: field_json(line, key) },
            JsonKind::Object => crate::cells::FieldSpec::Obj { text: field_json(line, key) },
        }
    }
}

/// Look one field up in a decoded row and reduce it to the plain content the
/// column appender works on.
pub(crate) fn read_field(row: &JsonRow, key: &str) -> (f: FieldVal)
    ensures
        f@ == field_model(row.src_bytes(), key@),
{
    match get_field(row, key) {
        None => FieldVal::Absent,
        Some(fr) => match fr.kind() {
            JsonKind::Null => FieldVal::Null,
            JsonKind::Bool => FieldVal::Bool { val: fr.as_bool().unwrap() },
            JsonKind::Number => FieldVal::Num { int_val: fr.as_int(), text: fr.json_text() },
            JsonKind::String => FieldVal::Str { val: fr.as_text().unwrap() },
            JsonKind::Array => FieldVal::Arr { text: fr.json_text() },
            JsonKind::Object => FieldVal::Obj { text: fr.json_text() },
        },
    }
}

} // verus!
