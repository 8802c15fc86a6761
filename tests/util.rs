use who_you_gonna_call::util::{error_for_status, is_error_status, join_url, parse_url, Error};

#[test]
fn client_and_server_errors_are_errors() {
    assert!(is_error_status(400));
    assert!(is_error_status(404));
    assert!(is_error_status(499));
    assert!(is_error_status(500));
    assert!(is_error_status(599));
    assert!(!is_error_status(200));
    assert!(!is_error_status(302));
    assert!(!is_error_status(399));
    assert!(!is_error_status(600));
}

#[test]
fn error_body_is_kept_trimmed() {
    let e = error_for_status(
        404,
        "https://api.example.com/x".to_string(),
        Ok("  {\"message\":\"not found\"}\n".to_string()),
    );
    match e {
        Error::HttpErrorResponse { status, url, text } => {
            assert_eq!(status, 404);
            assert_eq!(url, "https://api.example.com/x");
            assert_eq!(text, "{\"message\":\"not found\"}");
        }
        other => panic!("unexpected error {:?}", other),
    }
}

#[test]
fn urls_are_parsed_to_their_serialisation() {
    assert_eq!(parse_url("HTTPS://Example.COM").unwrap(), "https://example.com/");
    assert!(parse_url("not a url").is_err());
}

#[test]
fn paths_are_joined_to_the_base() {
    assert_eq!(
        join_url("https://api.opsgenie.com/v2/", "users/alice").unwrap(),
        "https://api.opsgenie.com/v2/users/alice"
    );
    assert_eq!(
        join_url("https://api.opsgenie.com/v2", "users/alice").unwrap(),
        "https://api.opsgenie.com/users/alice"
    );
    assert!(join_url("not a url", "users/alice").is_err());
}
