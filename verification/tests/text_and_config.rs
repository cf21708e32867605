//! Decimal rendering, substring search, and the connection string.

use lazydb::database::connection::ConnectionConfig;
use lazydb::text::{contains_sub, usize_to_string};

#[test]
fn decimal_rendering() {
    assert_eq!(usize_to_string(0), "0");
    assert_eq!(usize_to_string(7), "7");
    assert_eq!(usize_to_string(10), "10");
    assert_eq!(usize_to_string(1234), "1234");
    assert_eq!(usize_to_string(1000000), "1000000");
}

#[test]
fn substring_search() {
    assert!(contains_sub(&"information".to_string(), &"form".to_string()));
    assert!(contains_sub(&"information".to_string(), &"".to_string()));
    assert!(contains_sub(&"abc".to_string(), &"abc".to_string()));
    assert!(!contains_sub(&"abc".to_string(), &"abcd".to_string()));
    assert!(!contains_sub(&"abc".to_string(), &"ac".to_string()));
}

#[test]
fn connection_string_joins_present_fields() {
    let config = ConnectionConfig {
        host: Some("localhost".to_string()),
        port: Some(5432),
        user: Some("postgres".to_string()),
        password: Some("pw".to_string()),
        database_name: Some("app".to_string()),
    };
    assert_eq!(
        config.connection_string(),
        "host=localhost port=5432 user=postgres password=pw dbname=app"
    );
}

#[test]
fn connection_string_skips_absent_fields() {
    let config = ConnectionConfig {
        host: Some("db.example".to_string()),
        port: None,
        user: None,
        password: None,
        database_name: Some("app".to_string()),
    };
    assert_eq!(config.connection_string(), "host=db.example dbname=app");
}

#[test]
fn connection_string_of_empty_config_is_empty() {
    let config = ConnectionConfig {
        host: None,
        port: None,
        user: None,
        password: None,
        database_name: None,
    };
    assert_eq!(config.connection_string(), "");
}
