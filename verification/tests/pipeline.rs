use sigv4::error::Error;
use sigv4::pipeline::{advance, exit_code, signing_failure, Stage};

#[test]
fn stages_advance_in_order_on_success() {
    let s = advance(Stage::Assembling, Ok(()));
    assert!(matches!(s, Stage::Signing));
    let s = advance(s, Ok(()));
    assert!(matches!(s, Stage::Dispatching));
    let s = advance(s, Ok(()));
    assert!(matches!(s, Stage::Rendering));
    let s = advance(s, Ok(()));
    assert!(matches!(s, Stage::Succeeded));
}

#[test]
fn assembly_failure_is_terminal() {
    let s = advance(Stage::Assembling, Err(Error::Io("read failed".to_string())));
    assert!(matches!(s, Stage::Failed(Error::Io(ref m)) if m == "read failed"));
    let s = advance(s, Ok(()));
    assert!(matches!(s, Stage::Failed(Error::Io(_))));
}

#[test]
fn dispatch_failure_is_terminal() {
    let s = advance(
        Stage::Dispatching,
        Err(Error::Dispatch("connection refused".to_string())),
    );
    assert!(matches!(s, Stage::Failed(Error::Dispatch(_))));
}

#[test]
fn rendering_never_fails_the_pipeline() {
    let s = advance(Stage::Rendering, Err(Error::Dispatch("ignored".to_string())));
    assert!(matches!(s, Stage::Succeeded));
}

#[test]
fn signing_failure_keeps_credentials_kind() {
    let e = signing_failure(true, "no credentials found".to_string());
    assert_eq!(e, Error::Credentials("no credentials found".to_string()));
    let e = signing_failure(false, "bad canonical request".to_string());
    assert_eq!(e, Error::Dispatch("bad canonical request".to_string()));
}

#[test]
fn exit_codes_follow_the_terminal_state() {
    assert_eq!(exit_code(&Stage::Succeeded), 0);
    assert_eq!(
        exit_code(&Stage::Failed(Error::Credentials("x".to_string()))),
        1
    );
}

#[test]
fn error_messages_are_the_carried_line() {
    assert_eq!(Error::Io("a".to_string()).message(), "a");
    assert_eq!(Error::Credentials("b".to_string()).message(), "b");
    assert_eq!(Error::Dispatch("c".to_string()).message(), "c");
}
