use qa_store::error::{answer_insert_failure, storage_failure, BackendFailure, DBError};
use qa_store::ident::{identifier_text, parse_identifier};

#[test]
fn parses_every_textual_form() {
    let v: u128 = 0x550e8400_e29b_41d4_a716_446655440000;
    assert_eq!(parse_identifier("550e8400-e29b-41d4-a716-446655440000").unwrap(), v);
    assert_eq!(parse_identifier("550e8400e29b41d4a716446655440000").unwrap(), v);
    assert_eq!(parse_identifier("{550e8400-e29b-41d4-a716-446655440000}").unwrap(), v);
    assert_eq!(parse_identifier("urn:uuid:550e8400-e29b-41d4-a716-446655440000").unwrap(), v);
    assert_eq!(parse_identifier("550E8400-E29B-41D4-A716-446655440000").unwrap(), v);
}

#[test]
fn rejects_malformed_text() {
    for bad in ["", "not-a-uuid", "550e8400-e29b-41d4-a716-44665544000", "550e8400-e29b-41d4-a716-44665544000z"] {
        assert!(matches!(parse_identifier(bad), Err(DBError::InvalidUUID(_))));
    }
}

#[test]
fn renders_the_hyphenated_form() {
    let v: u128 = 0x550e8400_e29b_41d4_a716_446655440000;
    assert_eq!(identifier_text(v), "550e8400-e29b-41d4-a716-446655440000");
    assert_eq!(identifier_text(0), "00000000-0000-0000-0000-000000000000");
    assert_eq!(parse_identifier(&identifier_text(v)).unwrap(), v);
}

#[test]
fn foreign_key_violation_is_an_invalid_identifier() {
    let f = BackendFailure { code: Some("23503".to_string()), message: "fk".to_string() };
    match answer_insert_failure(f) {
        DBError::InvalidUUID(m) => assert_eq!(m, "fk"),
        other => panic!("unexpected {:?}", other),
    }
}

#[test]
fn other_failures_are_storage_errors() {
    let f = BackendFailure { code: Some("23505".to_string()), message: "dup".to_string() };
    assert!(matches!(answer_insert_failure(f), DBError::Other(m) if m == "dup"));
    let f = BackendFailure { code: None, message: "io".to_string() };
    assert!(matches!(answer_insert_failure(f), DBError::Other(m) if m == "io"));
    let f = BackendFailure { code: Some("23503".to_string()), message: "fk".to_string() };
    assert!(matches!(storage_failure(f), DBError::Other(m) if m == "fk"));
}

#[test]
fn malformed_text_carries_the_parser_message() {
    let expected = uuid::Uuid::parse_str("not-a-uuid").unwrap_err().to_string();
    match parse_identifier("not-a-uuid") {
        Err(DBError::InvalidUUID(m)) => assert_eq!(m, expected),
        other => panic!("unexpected {:?}", other),
    }
}
