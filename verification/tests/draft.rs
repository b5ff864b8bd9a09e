use sigv4::draft::build_draft;
use sigv4::options::Options;

#[test]
fn draft_copies_options_and_parses_headers() {
    let opts = Options {
        region: "us-east-1".to_string(),
        service: "execute-api".to_string(),
        method: "POST".to_string(),
        include_headers: false,
        headers: vec!["x-a: 1".to_string(), "malformed".to_string()],
        data: Some("body".to_string()),
        uri: "http://foo.com".to_string(),
    };
    let draft = build_draft(opts, Some(b"body".to_vec()));
    assert_eq!(draft.region, "us-east-1");
    assert_eq!(draft.service, "execute-api");
    assert_eq!(draft.method, "POST");
    assert_eq!(draft.uri, "http://foo.com");
    assert_eq!(draft.headers, vec![("x-a".to_string(), "1".to_string())]);
    assert_eq!(draft.body, Some(b"body".to_vec()));
}

#[test]
fn draft_without_data_has_no_body() {
    let opts = Options {
        region: "us-east-1".to_string(),
        service: "execute-api".to_string(),
        method: "GET".to_string(),
        include_headers: false,
        headers: vec![],
        data: None,
        uri: "http://foo.com".to_string(),
    };
    let draft = build_draft(opts, None);
    assert_eq!(draft.body, None);
}
