use account_switcher::errors::ApiError;
use account_switcher::lockfile::{parse_lockfile, parse_port, split_fields};

#[test]
fn parses_four_field_record() {
    let creds = parse_lockfile("name:12345:54321:secretpw:https").unwrap();
    assert_eq!(creds.port, 54321);
    assert_eq!(creds.password, "secretpw");
}

#[test]
fn extracts_exactly_fields_two_and_three() {
    let creds = parse_lockfile("a:b:443:pw").unwrap();
    assert_eq!(creds.port, 443);
    assert_eq!(creds.password, "pw");

    let creds = parse_lockfile("a:b:443:pw:extra:more").unwrap();
    assert_eq!(creds.port, 443);
    assert_eq!(creds.password, "pw");
}

#[test]
fn fewer_than_four_fields_is_malformed() {
    assert!(matches!(parse_lockfile("a:b:c"), Err(ApiError::MalformedLockfile)));
    assert!(matches!(parse_lockfile(""), Err(ApiError::MalformedLockfile)));
    assert!(matches!(parse_lockfile("justonefield"), Err(ApiError::MalformedLockfile)));
    assert!(matches!(parse_lockfile("a:b"), Err(ApiError::MalformedLockfile)));
}

#[test]
fn non_numeric_port_is_malformed() {
    assert!(matches!(parse_lockfile("a:b:notaport:pw"), Err(ApiError::MalformedLockfile)));
    assert!(matches!(parse_lockfile(":::pw"), Err(ApiError::MalformedLockfile)));
}

#[test]
fn oversized_port_is_malformed() {
    assert!(matches!(parse_lockfile("a:b:70000:pw"), Err(ApiError::MalformedLockfile)));
    assert!(parse_lockfile("a:b:65535:pw").is_ok());
}

#[test]
fn split_keeps_empty_fields() {
    let fields = split_fields("a::c:");
    assert_eq!(fields, vec!["a", "", "c", ""]);
    let fields = split_fields("");
    assert_eq!(fields, vec![""]);
    let fields = split_fields("no colon here");
    assert_eq!(fields, vec!["no colon here"]);
}

#[test]
fn port_parsing_bounds() {
    assert_eq!(parse_port("0"), Some(0));
    assert_eq!(parse_port("65535"), Some(65535));
    assert_eq!(parse_port("65536"), None);
    assert_eq!(parse_port(""), None);
    assert_eq!(parse_port("12x4"), None);
    assert_eq!(parse_port("443"), Some(443));
}
