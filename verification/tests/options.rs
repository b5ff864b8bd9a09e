use sigv4::options::{Options, UsageError};

fn args(list: &[&str]) -> Vec<String> {
    list.iter().map(|s| s.to_string()).collect()
}

#[test]
fn options_require_uri() {
    assert!(Options::from_iter_safe(&args(&["sigv4"])).is_err());
    assert!(Options::from_iter_safe(&args(&["sigv4", "http://foo.com"])).is_ok());
}

#[test]
fn options_default_to_get_method() {
    assert_eq!(
        Options::from_iter_safe(&args(&["sigv4", "http://foo.com"])).unwrap().method,
        "GET"
    );
}

#[test]
fn options_default_to_execute_api_service() {
    assert_eq!(
        Options::from_iter_safe(&args(&["sigv4", "http://foo.com"])).unwrap().service,
        "execute-api"
    );
}

#[test]
fn options_default_to_us_east_1_region() {
    let opts = Options::from_iter_safe(&args(&["sigv4", "http://foo.com"])).unwrap();
    assert_eq!(opts.region, "us-east-1");
    assert_eq!(opts.uri, "http://foo.com");
    assert!(!opts.include_headers);
    assert!(opts.headers.is_empty());
    assert!(opts.data.is_none());
}

#[test]
fn options_take_flags_and_values() {
    let opts = Options::from_iter_safe(&args(&[
        "sigv4",
        "-r",
        "eu-west-1",
        "--service",
        "s3",
        "-X",
        "PUT",
        "-i",
        "-H",
        "x-a: 1",
        "-H",
        "x-b: 2",
        "-d",
        "@-",
        "http://foo.com",
    ]))
    .unwrap();
    assert_eq!(opts.region, "eu-west-1");
    assert_eq!(opts.service, "s3");
    assert_eq!(opts.method, "PUT");
    assert!(opts.include_headers);
    assert_eq!(opts.headers, vec!["x-a: 1".to_string(), "x-b: 2".to_string()]);
    assert_eq!(opts.data, Some("@-".to_string()));
    assert_eq!(opts.uri, "http://foo.com");
}

#[test]
fn missing_uri_is_reported() {
    assert_eq!(
        Options::from_iter_safe(&args(&["sigv4", "-i"])),
        Err(UsageError::MissingUri)
    );
}

#[test]
fn flag_without_value_is_reported() {
    assert_eq!(
        Options::from_iter_safe(&args(&["sigv4", "http://foo.com", "-H"])),
        Err(UsageError::MissingValue)
    );
}

#[test]
fn unknown_flag_is_reported() {
    assert_eq!(
        Options::from_iter_safe(&args(&["sigv4", "--bogus", "http://foo.com"])),
        Err(UsageError::UnknownFlag)
    );
}

#[test]
fn second_positional_is_reported() {
    assert_eq!(
        Options::from_iter_safe(&args(&["sigv4", "http://foo.com", "http://bar.com"])),
        Err(UsageError::UnexpectedArgument)
    );
}

#[test]
fn usage_errors_carry_a_message() {
    assert_eq!(
        UsageError::MissingUri.message(),
        "required positional argument is missing: uri"
    );
    assert_eq!(UsageError::MissingValue.message(), "a flag is missing its value");
    assert_eq!(UsageError::UnknownFlag.message(), "unknown flag");
    assert_eq!(
        UsageError::UnexpectedArgument.message(),
        "unexpected extra positional argument"
    );
}
