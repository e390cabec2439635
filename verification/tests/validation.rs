use fastjsonl::engine::validate;
use fastjsonl::errors::IngestError;
use fastjsonl::lines::split_lines;

const REQ_ID: &str = "{\"type\":\"object\",\"required\":[\"id\"]}";

#[test]
fn conformant_buffer_validates() {
    let buf = b"{\"id\":1}\n{\"id\":2,\"x\":\"y\"}\n{\"id\":3}";
    assert!(validate(buf, REQ_ID).is_ok());
}

#[test]
fn agrees_with_the_reference_schema_engine() {
    let schema_text = "{\"type\":\"object\",\"properties\":{\"n\":{\"type\":\"integer\",\"minimum\":0}},\"required\":[\"n\"]}";
    let bufs: [&[u8]; 4] = [
        b"{\"n\":0}\n{\"n\":7}",
        b"{\"n\":-1}",
        b"{\"n\":1.5}",
        b"{}",
    ];
    let schema_value: serde_json::Value = serde_json::from_str(schema_text).unwrap();
    let reference = jsonschema::draft202012::new(&schema_value).unwrap();
    for buf in bufs {
        let all_conform = buf
            .split(|b| *b == b'\n')
            .all(|line| match serde_json::from_slice::<serde_json::Value>(line) {
                Ok(v) => reference.validate(&v).is_ok(),
                Err(_) => false,
            });
        assert_eq!(validate(buf, schema_text).is_ok(), all_conform);
    }
}

#[test]
fn schema_text_that_is_not_json_is_rejected_before_any_row() {
    let err = validate(b"{\"id\":1}", "{not json").unwrap_err();
    assert!(matches!(err, IngestError::SchemaParse { .. }));
}

#[test]
fn schema_that_does_not_compile_is_rejected_before_any_row() {
    let err = validate(b"{\"id\":1}", "{\"type\":\"no-such-type\"}").unwrap_err();
    assert!(matches!(err, IngestError::SchemaCompile { .. }));
}

#[test]
fn parse_error_reports_the_offending_row() {
    let buf = b"{\"id\":1}\n{oops\n{\"id\":3}\n";
    let err = validate(buf, REQ_ID).unwrap_err();
    match err {
        IngestError::Parse { row, message } => {
            assert_eq!(row, 1);
            assert!(!message.is_empty());
        }
        other => panic!("expected a parse error, got {:?}", other),
    }
}

#[test]
fn validation_error_reports_the_first_offending_row() {
    let buf = b"{\"id\":1}\n{\"id\":2}\n{\"x\":3}\n{\"y\":4}\n";
    let err = validate(buf, REQ_ID).unwrap_err();
    match err {
        IngestError::Validation { row, message } => {
            assert_eq!(row, 2);
            assert!(!message.is_empty());
        }
        other => panic!("expected a validation error, got {:?}", other),
    }
}

#[test]
fn row_index_accessor_matches_variants() {
    let err = validate(b"{oops", "{}").unwrap_err();
    assert_eq!(err.row_index(), Some(0));
    let err = validate(b"{}", "{bad").unwrap_err();
    assert_eq!(err.row_index(), None);
}

#[test]
fn empty_line_between_rows_is_a_parse_error() {
    let buf = b"{\"id\":1}\n\n{\"id\":3}\n";
    let err = validate(buf, REQ_ID).unwrap_err();
    assert!(matches!(err, IngestError::Parse { row: 1, .. }));
}

#[test]
fn empty_buffer_validates_vacuously() {
    assert!(validate(b"", REQ_ID).is_ok());
}

#[test]
fn split_lines_consumes_delimiters_and_keeps_trailing_span() {
    let lines = split_lines(b"ab\nc\n\nd");
    let expect: Vec<Vec<u8>> = vec![b"ab".to_vec(), b"c".to_vec(), Vec::new(), b"d".to_vec()];
    assert_eq!(lines, expect);
    assert_eq!(split_lines(b""), Vec::<Vec<u8>>::new());
    assert_eq!(split_lines(b"\n"), vec![Vec::<u8>::new()]);
    assert_eq!(split_lines(b"xy\n"), vec![b"xy".to_vec()]);
}

#[test]
fn carriage_return_is_json_whitespace_not_content() {
    assert!(validate(b"{\"id\":1}\r\n{\"id\":2}\r\n", REQ_ID).is_ok());
}
