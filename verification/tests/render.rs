use sigv4::render::{render, BufferedResponse, ColorMode, DisplayOptions};

fn response(status: u16, reason: &str, headers: &[(&str, &str)], body: &[u8]) -> BufferedResponse {
    let mut resp = BufferedResponse::new(status, reason.to_string());
    for (name, value) in headers {
        resp.add_header(name, value.to_string());
    }
    resp.set_body(body.to_vec());
    resp
}

fn plain(include_headers: bool) -> DisplayOptions {
    DisplayOptions { include_headers, colors: ColorMode::Off }
}

#[test]
fn display_renders_basic_response() {
    let resp = response(200, "OK", &[], b"{\"hello\":\"aws\"}");
    assert_eq!(render(&resp, plain(true)), "HTTP/2 200 OK\n\n{\"hello\":\"aws\"}");
}

#[test]
fn display_renders_invalid_json_response() {
    let resp = response(
        200,
        "OK",
        &[("Content-Type", "application/json")],
        b"helloaws",
    );
    assert_eq!(
        render(&resp, plain(true)),
        "HTTP/2 200 OK\ncontent-type: application/json\n\nhelloaws"
    );
}

#[test]
fn no_header_echo_without_include() {
    let resp = response(404, "Not Found", &[("x-a", "1")], b"plain text");
    assert_eq!(render(&resp, plain(false)), "plain text");
}

#[test]
fn valid_json_is_pretty_printed() {
    let resp = response(
        200,
        "OK",
        &[("content-type", "application/json")],
        b"{\"hello\":\"aws\"}",
    );
    assert_eq!(render(&resp, plain(false)), "{\n  \"hello\": \"aws\"\n}");
}

#[test]
fn header_name_lookup_ignores_case() {
    let resp = response(
        200,
        "OK",
        &[("CONTENT-TYPE", "application/json")],
        b"{\"n\":1}",
    );
    assert_eq!(render(&resp, plain(false)), "{\n  \"n\": 1\n}");
}

#[test]
fn other_content_type_stays_raw() {
    let resp = response(200, "OK", &[("content-type", "text/plain")], b"{\"n\":1}");
    assert_eq!(render(&resp, plain(false)), "{\"n\":1}");
}

#[test]
fn empty_body_emits_nothing() {
    let resp = response(204, "No Content", &[], b"");
    assert_eq!(render(&resp, plain(true)), "HTTP/2 204 No Content\n\n");
    assert_eq!(render(&resp, plain(false)), "");
}

#[test]
fn non_text_body_emits_nothing() {
    let resp = response(200, "OK", &[("x-a", "1")], &[0xff, 0xfe, 0x00]);
    assert_eq!(render(&resp, plain(true)), "HTTP/2 200 OK\nx-a: 1\n\n");
}

#[test]
fn header_lines_keep_received_order_and_duplicates() {
    let resp = response(
        200,
        "OK",
        &[("x-a", "1"), ("x-b", "2"), ("x-a", "3")],
        b"",
    );
    assert_eq!(
        render(&resp, plain(true)),
        "HTTP/2 200 OK\nx-a: 1\nx-b: 2\nx-a: 3\n\n"
    );
}

#[test]
fn color_on_decorates_status_and_names_only() {
    let resp = response(200, "OK", &[("x-a", "1")], b"body");
    let opts = DisplayOptions { include_headers: true, colors: ColorMode::On };
    assert_eq!(
        render(&resp, opts),
        "HTTP/2 \u{1b}[1m200 OK\u{1b}[0m\n\u{1b}[2mx-a\u{1b}[0m: 1\n\nbody"
    );
}
