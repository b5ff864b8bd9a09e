use sigv4::body::{classify, resolve, BodySource};
use sigv4::error::Error;

#[test]
fn body_can_be_raw_str() {
    let source = classify("text");
    assert_eq!(source, BodySource::Literal("text".to_string()));
    let bytes = resolve(source, Ok(Vec::new())).unwrap();
    assert_eq!(bytes, b"text".to_vec());
}

#[test]
fn body_can_stdin() {
    let source = classify("@-");
    assert_eq!(source, BodySource::Stdin);
    let bytes = resolve(source, Ok(b"stdin".to_vec())).unwrap();
    assert_eq!(bytes, b"stdin".to_vec());
}

#[test]
fn body_can_be_read_from_file() {
    let source = classify("@tests/data/file.json");
    assert_eq!(source, BodySource::File("tests/data/file.json".to_string()));
    let bytes = resolve(source, Ok(b"{\"hello\":\"aws\"}".to_vec())).unwrap();
    assert_eq!(bytes, b"{\"hello\":\"aws\"}".to_vec());
}

#[test]
fn bare_at_sign_is_a_literal() {
    let source = classify("@");
    assert_eq!(source, BodySource::Literal("@".to_string()));
    let bytes = resolve(source, Ok(Vec::new())).unwrap();
    assert_eq!(bytes, b"@".to_vec());
}

#[test]
fn empty_specifier_is_an_empty_literal() {
    let source = classify("");
    assert_eq!(source, BodySource::Literal(String::new()));
    let bytes = resolve(source, Ok(Vec::new())).unwrap();
    assert_eq!(bytes, Vec::<u8>::new());
}

#[test]
fn interior_at_sign_stays_literal() {
    let source = classify("a@b");
    assert_eq!(source, BodySource::Literal("a@b".to_string()));
}

#[test]
fn at_dash_and_more_is_a_file() {
    let source = classify("@-x");
    assert_eq!(source, BodySource::File("-x".to_string()));
}

#[test]
fn read_failure_propagates_as_io_error() {
    let source = classify("@missing.json");
    let err = resolve(source, Err(Error::Io("missing.json: not found".to_string())));
    assert_eq!(err, Err(Error::Io("missing.json: not found".to_string())));
}

#[test]
fn stdin_read_failure_propagates() {
    let source = classify("@-");
    let err = resolve(source, Err(Error::Io("stdin closed".to_string())));
    assert_eq!(err, Err(Error::Io("stdin closed".to_string())));
}
