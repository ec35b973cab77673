use dbpool::ids::IdGenerator;
use dbpool::request_id::{extract_bearer_token, resolve_request_id, RequestId};
use dbpool::text::parse_env_line;

#[test]
fn test_connection_id_is_unique() {
    let id1 = IdGenerator::connection_id();
    let id2 = IdGenerator::connection_id();
    assert_ne!(id1, id2);
}

#[test]
fn test_short_id_length() {
    let id = IdGenerator::short_id();
    assert_eq!(id.len(), 8);
}

#[test]
fn test_connection_id_length() {
    assert_eq!(IdGenerator::connection_id().len(), 36);
    assert_eq!(IdGenerator::request_id().len(), 36);
}

#[test]
fn test_request_id_roundtrip() {
    let r = RequestId::from("abc-123");
    assert_eq!(r.as_str(), "abc-123");
    let r2 = RequestId::from(String::from("xyz"));
    assert_eq!(r2.as_str(), "xyz");
    let fresh = RequestId::new();
    assert_eq!(fresh.as_str().len(), 36);
}

#[test]
fn test_resolve_request_id() {
    assert_eq!(resolve_request_id(Some(String::from("given"))), "given");
    assert_eq!(resolve_request_id(None).len(), 36);
}

#[test]
fn test_parse_env_line() {
    assert_eq!(
        parse_env_line("KEY=value"),
        Some((String::from("KEY"), String::from("value")))
    );
    assert_eq!(
        parse_env_line("  DATABASE_URL = mysql://x  "),
        Some((String::from("DATABASE_URL"), String::from("mysql://x")))
    );
    assert_eq!(parse_env_line("# comment"), None);
    assert_eq!(parse_env_line("   "), None);
    assert_eq!(parse_env_line("no equals sign"), None);
    assert_eq!(parse_env_line("EMPTY="), Some((String::from("EMPTY"), String::new())));
}

#[test]
fn test_extract_bearer_token() {
    assert_eq!(extract_bearer_token("Bearer tok123"), Some(String::from("tok123")));
    assert_eq!(extract_bearer_token("Basic abc"), None);
    assert_eq!(extract_bearer_token(""), None);
    assert_eq!(extract_bearer_token("Bearer "), Some(String::new()));
}
