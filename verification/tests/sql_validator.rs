use dbpool::sql_validator::SqlValidator;
use dbpool::errors::AppError;

#[test]
fn test_select_is_allowed() {
    assert!(SqlValidator::validate("SELECT * FROM users").is_ok());
}

#[test]
fn test_drop_is_forbidden() {
    assert!(SqlValidator::validate("DROP TABLE users").is_err());
}

#[test]
fn test_is_select() {
    assert!(SqlValidator::is_select("SELECT * FROM users"));
    assert!(!SqlValidator::is_select("INSERT INTO users"));
}

#[test]
fn test_validate_is_case_insensitive() {
    let err = SqlValidator::validate("drop table users");
    assert!(matches!(err, Err(AppError::UnsafeSql(_))));
    if let Err(e) = SqlValidator::validate("Truncate users") {
        assert_eq!(e.message(), "forbidden operation: TRUNCATE");
    } else {
        panic!("truncate must be forbidden");
    }
}

#[test]
fn test_validate_allows_plain_statements() {
    assert!(SqlValidator::validate("UPDATE users SET name = 'x'").is_ok());
    assert!(SqlValidator::validate("").is_ok());
    // DELETE alone is allowed; only DELETE FROM is screened
    assert!(SqlValidator::validate("DELETE").is_ok());
    assert!(SqlValidator::validate("DELETE FROM users").is_err());
}

#[test]
fn test_is_select_trims_whitespace() {
    assert!(SqlValidator::is_select("   select 1  "));
    assert!(SqlValidator::is_select("\n\tSeLeCt * from t"));
    assert!(!SqlValidator::is_select("  EXPLAIN SELECT 1"));
}

#[test]
fn test_is_modification() {
    assert!(SqlValidator::is_modification("INSERT INTO t VALUES (1)"));
    assert!(SqlValidator::is_modification("  update t set a = 1"));
    assert!(SqlValidator::is_modification("delete from t"));
    assert!(!SqlValidator::is_modification("SELECT 1"));
}
