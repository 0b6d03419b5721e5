use idalon::error::{fetch, parse, ErrorKind, IdalonError};

/// A failure as reqwest reports one, made without any traffic: the text is
/// no URL, so the request cannot even be built.
fn transport_failure() -> reqwest::Error {
    reqwest::Client::new()
        .get("no scheme here")
        .build()
        .expect_err("a URL without a scheme is refused")
}

#[test]
fn new_keeps_the_message() {
    let error = IdalonError::new("Failed to fetch page.");
    assert_eq!(error.get_msg(), "Failed to fetch page.");
    assert_eq!(error.kind(), ErrorKind::Other);
}

#[test]
fn new_accepts_an_empty_message() {
    let error = IdalonError::new("");
    assert_eq!(error.get_msg(), "");
    assert_eq!(error.kind(), ErrorKind::Other);
}

#[test]
fn bad_status_has_its_fixed_message() {
    let error = IdalonError::bad_status();
    assert_eq!(error.get_msg(), "Request returned an error status code.");
    assert_eq!(error.kind(), ErrorKind::BadStatus);
}

#[test]
fn fetch_failure_puts_the_cause_behind_its_prefix() {
    let error = IdalonError::fetch_failure("connection refused");
    assert_eq!(error.get_msg(), "Failed to fetch URL: connection refused");
    assert_eq!(error.kind(), ErrorKind::Fetch);
}

#[test]
fn parse_failure_puts_the_cause_behind_its_prefix() {
    let error = IdalonError::parse_failure("expected value at line 1");
    assert_eq!(
        error.get_msg(),
        "Failed to parse JSON from URL: expected value at line 1"
    );
    assert_eq!(error.kind(), ErrorKind::Parse);
}

#[test]
fn fetch_renders_the_transport_failure() {
    let expected = format!("Failed to fetch URL: {:?}", transport_failure());
    let error = fetch(transport_failure());
    assert_eq!(error.kind(), ErrorKind::Fetch);
    assert_eq!(error.get_msg(), expected);
    assert!(error.get_msg().starts_with("Failed to fetch URL: reqwest::Error"));
}

#[test]
fn parse_renders_the_decoding_failure() {
    let expected = format!("Failed to parse JSON from URL: {:?}", transport_failure());
    let error = parse(transport_failure());
    assert_eq!(error.kind(), ErrorKind::Parse);
    assert_eq!(error.get_msg(), expected);
    assert!(error
        .get_msg()
        .starts_with("Failed to parse JSON from URL: reqwest::Error"));
}

#[test]
fn the_three_request_errors_differ_in_kind() {
    let fetched = fetch(transport_failure());
    let parsed = parse(transport_failure());
    let refused = IdalonError::bad_status();
    assert_ne!(fetched.kind(), parsed.kind());
    assert_ne!(fetched.kind(), refused.kind());
    assert_ne!(parsed.kind(), refused.kind());
}
