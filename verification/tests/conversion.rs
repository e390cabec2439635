use fastjsonl::cells::CellValue;
use fastjsonl::columns::ColumnDef;
use fastjsonl::engine::convert;
use fastjsonl::errors::IngestError;
use fastjsonl::ColumnType;

fn defs(list: &[(&str, ColumnType)]) -> Vec<ColumnDef> {
    let mut out = Vec::new();
    for (name, ctype) in list {
        out.push(ColumnDef { name: (*name).to_string(), ctype: *ctype });
    }
    out
}

const ANY_SCHEMA: &str = "{}";

#[test]
fn every_column_has_row_count_length() {
    let buf = b"{\"a\":1,\"b\":true}\n{\"a\":2}\n{\"b\":false}\n";
    let target = defs(&[("a", ColumnType::Int64), ("b", ColumnType::Boolean)]);
    let t = convert(buf, ANY_SCHEMA, &target).unwrap();
    assert_eq!(t.defs.len(), 2);
    assert_eq!(t.defs[0].name, "a");
    assert_eq!(t.defs[1].name, "b");
    assert_eq!(t.cols.len(), 2);
    for col in &t.cols {
        assert_eq!(col.cells.len(), 3);
    }
}

#[test]
fn convert_is_deterministic() {
    let buf = b"{\"a\":1,\"b\":\"x\",\"c\":1.5}\n{\"c\":-2e3}\n";
    let target = defs(&[
        ("a", ColumnType::Int32),
        ("b", ColumnType::Text),
        ("c", ColumnType::Float64),
    ]);
    let t1 = convert(buf, ANY_SCHEMA, &target).unwrap();
    let t2 = convert(buf, ANY_SCHEMA, &target).unwrap();
    assert_eq!(t1, t2);
}

#[test]
fn empty_row_yields_null_in_every_column() {
    let buf = b"{}\n";
    let target = defs(&[
        ("a", ColumnType::Int8),
        ("b", ColumnType::Float32),
        ("c", ColumnType::Boolean),
        ("d", ColumnType::Text),
        ("e", ColumnType::LargeText),
    ]);
    let t = convert(buf, ANY_SCHEMA, &target).unwrap();
    for col in &t.cols {
        assert_eq!(col.cells, vec![CellValue::Null]);
    }
}

#[test]
fn explicit_null_yields_null_entry() {
    let buf = b"{\"a\":null}\n";
    let target = defs(&[("a", ColumnType::Int64)]);
    let t = convert(buf, ANY_SCHEMA, &target).unwrap();
    assert_eq!(t.cols[0].cells, vec![CellValue::Null]);
}

#[test]
fn number_into_text_column_is_coerced() {
    let buf = b"{\"a\":42}\n";
    let target = defs(&[("a", ColumnType::Text)]);
    let t = convert(buf, ANY_SCHEMA, &target).unwrap();
    assert_eq!(t.cols[0].cells, vec![CellValue::Text("42".to_string())]);
}

#[test]
fn string_into_integer_column_is_a_type_error() {
    let buf = b"{\"a\":\"x\"}\n";
    let target = defs(&[("a", ColumnType::Int64)]);
    let err = convert(buf, ANY_SCHEMA, &target).unwrap_err();
    match err {
        IngestError::Type { row, column, expected, actual } => {
            assert_eq!(row, 0);
            assert_eq!(column, "a");
            assert_eq!(expected, ColumnType::Int64);
            assert_eq!(actual, fastjsonl::cells::JsonKind::String);
        }
        other => panic!("expected a type error, got {:?}", other),
    }
}

#[test]
fn int8_range_boundary() {
    let target = defs(&[("a", ColumnType::Int8)]);
    let err = convert(b"{\"a\":128}\n", ANY_SCHEMA, &target).unwrap_err();
    assert!(matches!(err, IngestError::Type { row: 0, .. }));
    let t = convert(b"{\"a\":127}\n", ANY_SCHEMA, &target).unwrap();
    assert_eq!(t.cols[0].cells, vec![CellValue::Int(127)]);
    let err = convert(b"{\"a\":-129}\n", ANY_SCHEMA, &target).unwrap_err();
    assert!(matches!(err, IngestError::Type { row: 0, .. }));
    let t = convert(b"{\"a\":-128}\n", ANY_SCHEMA, &target).unwrap();
    assert_eq!(t.cols[0].cells, vec![CellValue::Int(-128)]);
}

#[test]
fn wider_integer_ranges() {
    let target = defs(&[("a", ColumnType::Int16)]);
    assert!(convert(b"{\"a\":32768}\n", ANY_SCHEMA, &target).is_err());
    let t = convert(b"{\"a\":-32768}\n", ANY_SCHEMA, &target).unwrap();
    assert_eq!(t.cols[0].cells, vec![CellValue::Int(-32768)]);
    let target = defs(&[("a", ColumnType::Int32)]);
    assert!(convert(b"{\"a\":2147483648}\n", ANY_SCHEMA, &target).is_err());
    let t = convert(b"{\"a\":2147483647}\n", ANY_SCHEMA, &target).unwrap();
    assert_eq!(t.cols[0].cells, vec![CellValue::Int(2147483647)]);
    let target = defs(&[("a", ColumnType::Int64)]);
    let t = convert(b"{\"a\":9223372036854775807}\n", ANY_SCHEMA, &target).unwrap();
    assert_eq!(t.cols[0].cells, vec![CellValue::Int(i64::MAX)]);
    assert!(convert(b"{\"a\":9223372036854775808}\n", ANY_SCHEMA, &target).is_err());
}

#[test]
fn non_integer_number_into_integer_column_is_a_type_error() {
    let target = defs(&[("a", ColumnType::Int64)]);
    let err = convert(b"{\"a\":1.5}\n", ANY_SCHEMA, &target).unwrap_err();
    assert!(matches!(err, IngestError::Type { row: 0, .. }));
}

#[test]
fn float_columns_keep_the_numeral() {
    let target = defs(&[("a", ColumnType::Float64), ("b", ColumnType::Float32)]);
    let t = convert(b"{\"a\":1.5,\"b\":2}\n", ANY_SCHEMA, &target).unwrap();
    assert_eq!(t.cols[0].cells, vec![CellValue::Float("1.5".to_string())]);
    assert_eq!(t.cols[1].cells, vec![CellValue::Float("2".to_string())]);
    let err = convert(b"{\"a\":true}\n", ANY_SCHEMA, &target).unwrap_err();
    assert!(matches!(err, IngestError::Type { row: 0, .. }));
}

#[test]
fn boolean_column_takes_only_booleans() {
    let target = defs(&[("a", ColumnType::Boolean)]);
    let t = convert(b"{\"a\":true}\n{\"a\":false}\n", ANY_SCHEMA, &target).unwrap();
    assert_eq!(t.cols[0].cells, vec![CellValue::Bool(true), CellValue::Bool(false)]);
    let err = convert(b"{\"a\":1}\n", ANY_SCHEMA, &target).unwrap_err();
    assert!(matches!(
        err,
        IngestError::Type { row: 0, actual: fastjsonl::cells::JsonKind::Number, .. }
    ));
}

#[test]
fn composite_values_are_serialized_into_text_columns() {
    let target = defs(&[("a", ColumnType::Text), ("b", ColumnType::LargeText)]);
    let t = convert(
        b"{\"a\":{\"x\":1,\"y\":[2]},\"b\":[1,true,\"z\"]}\n",
        ANY_SCHEMA,
        &target,
    )
    .unwrap();
    assert_eq!(
        t.cols[0].cells,
        vec![CellValue::Text("{\"x\":1,\"y\":[2]}".to_string())]
    );
    assert_eq!(
        t.cols[1].cells,
        vec![CellValue::Text("[1,true,\"z\"]".to_string())]
    );
    let err = convert(b"{\"a\":1,\"b\":[]}\n", ANY_SCHEMA, &defs(&[("b", ColumnType::Int8)]))
        .unwrap_err();
    assert!(matches!(
        err,
        IngestError::Type { actual: fastjsonl::cells::JsonKind::Array, .. }
    ));
}

#[test]
fn booleans_are_coerced_into_text_columns() {
    let target = defs(&[("a", ColumnType::Text)]);
    let t = convert(b"{\"a\":true}\n{\"a\":false}\n", ANY_SCHEMA, &target).unwrap();
    assert_eq!(
        t.cols[0].cells,
        vec![
            CellValue::Text("true".to_string()),
            CellValue::Text("false".to_string())
        ]
    );
}

#[test]
fn strings_enter_text_columns_verbatim() {
    let target = defs(&[("a", ColumnType::Text)]);
    let t = convert(b"{\"a\":\"  he\\\"llo \"}\n", ANY_SCHEMA, &target).unwrap();
    assert_eq!(t.cols[0].cells, vec![CellValue::Text("  he\"llo ".to_string())]);
}

#[test]
fn non_object_row_is_a_shape_error() {
    let target = defs(&[("a", ColumnType::Int64)]);
    let err = convert(b"{\"a\":1}\n42\n", ANY_SCHEMA, &target).unwrap_err();
    assert!(matches!(err, IngestError::Shape { row: 1 }));
}

#[test]
fn first_type_error_wins_row_major() {
    let target = defs(&[("a", ColumnType::Int64), ("b", ColumnType::Boolean)]);
    let err = convert(b"{\"a\":1,\"b\":true}\n{\"a\":\"x\",\"b\":3}\n", ANY_SCHEMA, &target)
        .unwrap_err();
    match err {
        IngestError::Type { row, column, .. } => {
            assert_eq!(row, 1);
            assert_eq!(column, "a");
        }
        other => panic!("expected a type error, got {:?}", other),
    }
}

#[test]
fn conversion_validates_each_row() {
    let schema = "{\"type\":\"object\",\"required\":[\"id\"]}";
    let target = defs(&[("id", ColumnType::Int64)]);
    let err = convert(b"{\"id\":1}\n{\"nope\":2}\n", schema, &target).unwrap_err();
    assert!(matches!(err, IngestError::Validation { row: 1, .. }));
}

#[test]
fn end_to_end_scenario() {
    let schema = "{\"type\":\"object\",\"required\":[\"id\"]}";
    let target = defs(&[("id", ColumnType::Int64), ("name", ColumnType::Text)]);
    let buf = b"{\"id\":1,\"name\":\"a\"}\n{\"id\":2}\n";
    let t = convert(buf, schema, &target).unwrap();
    assert_eq!(t.defs[0].name, "id");
    assert_eq!(t.defs[0].ctype, ColumnType::Int64);
    assert_eq!(t.defs[1].name, "name");
    assert_eq!(t.defs[1].ctype, ColumnType::Text);
    assert_eq!(t.cols[0].cells, vec![CellValue::Int(1), CellValue::Int(2)]);
    assert_eq!(
        t.cols[1].cells,
        vec![CellValue::Text("a".to_string()), CellValue::Null]
    );
}

#[test]
fn empty_buffer_yields_empty_columns() {
    let target = defs(&[("a", ColumnType::Int64)]);
    let t = convert(b"", ANY_SCHEMA, &target).unwrap();
    assert_eq!(t.cols.len(), 1);
    assert!(t.cols[0].cells.is_empty());
}

#[test]
fn empty_target_schema_yields_empty_table() {
    let t = convert(b"{\"a\":1}\n", ANY_SCHEMA, &Vec::new()).unwrap();
    assert!(t.defs.is_empty());
    assert!(t.cols.is_empty());
}
