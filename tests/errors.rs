use rdm::error::{AppError, AppExitCode};
use rdm::output::{format_error_markdown, Envelope, ErrorInfo};

#[test]
fn test_exit_code_validation() {
    let err = AppError::validation("test");
    assert_eq!(err.exit_code(), AppExitCode::Validation);
    assert_eq!(err.exit_code().value(), 2);
}

#[test]
fn test_exit_code_auth() {
    let err = AppError::auth("test");
    assert_eq!(err.exit_code(), AppExitCode::Auth);
    assert_eq!(err.exit_code().value(), 3);
}

#[test]
fn test_exit_code_config() {
    let err = AppError::config("test");
    assert_eq!(err.exit_code(), AppExitCode::Auth);
    assert_eq!(err.exit_code().value(), 3);
}

#[test]
fn test_exit_code_not_found() {
    let err = AppError::not_found("Issue", "123");
    assert_eq!(err.exit_code(), AppExitCode::NotFound);
    assert_eq!(err.exit_code().value(), 4);
}

#[test]
fn test_exit_code_api() {
    let err = AppError::api("test", Some(500));
    assert_eq!(err.exit_code(), AppExitCode::ApiError);
    assert_eq!(err.exit_code().value(), 5);
}

#[test]
fn test_exit_code_network() {
    let err = AppError::network("test");
    assert_eq!(err.exit_code(), AppExitCode::ApiError);
    assert_eq!(err.exit_code().value(), 5);
}

#[test]
fn test_error_code_strings() {
    assert_eq!(AppError::validation("test").code(), "VALIDATION_ERROR");
    assert_eq!(AppError::auth("test").code(), "AUTH_ERROR");
    assert_eq!(AppError::config("test").code(), "CONFIG_ERROR");
    assert_eq!(AppError::not_found("x", "1").code(), "NOT_FOUND");
    assert_eq!(AppError::api("test", None).code(), "API_ERROR");
    assert_eq!(AppError::network("test").code(), "NETWORK_ERROR");
}

#[test]
fn test_hint() {
    let err = AppError::validation_with_hint("message", "hint text");
    assert_eq!(err.hint(), Some("hint text"));

    let err_no_hint = AppError::validation("message");
    assert_eq!(err_no_hint.hint(), None);
}

#[test]
fn test_error_display() {
    let err = AppError::not_found("Issue", "123");
    assert_eq!(err.display_text(), "Not found: Issue #123");
}

#[test]
fn reader_errors_map_to_codes() {
    let io = AppError::Io { message: "denied".into() };
    assert_eq!((io.code(), io.exit_code().value()), ("IO_ERROR", 5));
    let js = AppError::Json { message: "eof".into() };
    assert_eq!((js.code(), js.exit_code().value()), ("JSON_ERROR", 5));
    let tm = AppError::Toml { message: "bad".into() };
    assert_eq!((tm.code(), tm.exit_code().value()), ("CONFIG_ERROR", 3));
    assert_eq!(tm.display_text(), "TOML error: bad");
    assert_eq!(tm.hint(), None);
    assert_eq!(AppExitCode::Success.value(), 0);
    assert_eq!(AppError::config_with_hint("m", "h").display_text(), "Configuration error: m");
    assert_eq!(AppError::auth_with_hint("m", "h").hint(), Some("h"));
    assert_eq!(AppError::api_with_hint("m", Some(418), "h").display_text(), "API error: m");
    assert_eq!(AppError::not_found_with_hint("Issue", "9", "h").hint(), Some("h"));
}

#[test]
fn test_success_envelope() {
    let envelope = Envelope::success(vec![1, 2, 3]);
    assert!(envelope.ok);
    assert!(envelope.data.is_some());
    assert!(envelope.error.is_none());
}

#[test]
fn test_error_envelope() {
    let envelope: Envelope<()> = Envelope::<()>::error(ErrorInfo::new("NOT_FOUND", "Issue not found"));
    assert!(!envelope.ok);
    assert!(envelope.data.is_none());
    assert!(envelope.error.is_some());
}

#[test]
fn error_markdown_with_and_without_hint() {
    let err = AppError::validation_with_hint("bad", "try again");
    assert_eq!(
        format_error_markdown(&err),
        "> **Error: VALIDATION_ERROR**\n> Validation error: bad\n>\n> try again\n"
    );
    let err = AppError::network("down");
    assert_eq!(format_error_markdown(&err), "> **Error: NETWORK_ERROR**\n> Network error: down\n");
    let info = ErrorInfo::from_error(&AppError::not_found_with_hint("Issue", "5", "list them"));
    assert_eq!(info.code, "NOT_FOUND");
    assert_eq!(info.message, "Not found: Issue #5");
    assert_eq!(info.hint, Some("list them".to_string()));
    assert_eq!(
        rdm::output::format_error_info_markdown(&info),
        "> **Error: NOT_FOUND**\n> Not found: Issue #5\n>\n> list them\n"
    );
}
