use sigv4::headers::{parse_headers, split_header, trim};

fn tokens(list: &[&str]) -> Vec<String> {
    list.iter().map(|s| s.to_string()).collect()
}

#[test]
fn splits_on_first_colon_only() {
    assert_eq!(
        split_header("a:b:c"),
        Some(("a".to_string(), "b:c".to_string()))
    );
}

#[test]
fn split_trims_both_sides() {
    assert_eq!(
        split_header("  Content-Type :  application/json  "),
        Some(("Content-Type".to_string(), "application/json".to_string()))
    );
}

#[test]
fn token_without_colon_is_dropped() {
    assert_eq!(split_header("no colon here"), None);
    assert_eq!(parse_headers(&tokens(&["no colon here"])), vec![]);
}

#[test]
fn surviving_pairs_keep_order_and_duplicates() {
    let parsed = parse_headers(&tokens(&["x-a: 1", "malformed", "x-b: 2", "x-a: 3"]));
    assert_eq!(
        parsed,
        vec![
            ("x-a".to_string(), "1".to_string()),
            ("x-b".to_string(), "2".to_string()),
            ("x-a".to_string(), "3".to_string()),
        ]
    );
}

#[test]
fn empty_name_or_value_survive() {
    assert_eq!(
        split_header(":v"),
        Some((String::new(), "v".to_string()))
    );
    assert_eq!(
        split_header("k:"),
        Some(("k".to_string(), String::new()))
    );
}

#[test]
fn trim_removes_surrounding_whitespace() {
    assert_eq!(trim("  a b \t"), "a b");
    assert_eq!(trim(""), "");
    assert_eq!(trim(" \t\n"), "");
    assert_eq!(trim("x"), "x");
}
