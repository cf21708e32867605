//! System-query construction and identifier safety: valid table
//! names produce the quoted, bounded preview statement; anything
//! outside the safe grammar fails before a statement exists.

use lazydb::app_event::QueryTag;
use lazydb::database::system_query::{QueryError, SystemQuery};

#[test]
fn initial_table_for_plain_name() {
    let r = SystemQuery::query_for(QueryTag::InitialTable("users".to_string())).unwrap();
    assert_eq!(r.statement, "SELECT * FROM \"users\" LIMIT 1000;");
    assert_eq!(r.tag, QueryTag::InitialTable("users".to_string()));
    assert!(r.parameters.is_none());
}

#[test]
fn initial_table_for_name_with_digits_and_underscores() {
    let r = SystemQuery::query_for(QueryTag::InitialTable("my_table_1".to_string())).unwrap();
    assert_eq!(r.statement, "SELECT * FROM \"my_table_1\" LIMIT 1000;");
}

#[test]
fn injection_attempt_fails_validation() {
    let r = SystemQuery::query_for(QueryTag::InitialTable("users; DROP TABLE x".to_string()));
    assert_eq!(r.unwrap_err(), QueryError::InvalidIdentifier);
}

#[test]
fn empty_identifier_fails_validation() {
    let r = SystemQuery::query_for(QueryTag::InitialTable("".to_string()));
    assert_eq!(r.unwrap_err(), QueryError::InvalidIdentifier);
}

#[test]
fn leading_digit_fails_validation() {
    let r = SystemQuery::query_for(QueryTag::InitialTable("1users".to_string()));
    assert_eq!(r.unwrap_err(), QueryError::InvalidIdentifier);
}

#[test]
fn quote_in_identifier_fails_validation() {
    let r = SystemQuery::query_for(QueryTag::InitialTable("a\"b".to_string()));
    assert_eq!(r.unwrap_err(), QueryError::InvalidIdentifier);
}

#[test]
fn identifier_length_bound_is_128() {
    let ok: String = "a".repeat(128);
    assert!(SystemQuery::query_for(QueryTag::InitialTable(ok)).is_ok());
    let too_long: String = "a".repeat(129);
    assert_eq!(
        SystemQuery::query_for(QueryTag::InitialTable(too_long)).unwrap_err(),
        QueryError::InvalidIdentifier
    );
}

#[test]
fn list_tables_statement_reads_information_schema() {
    let r = SystemQuery::query_for(QueryTag::ListTables).unwrap();
    assert!(r.statement.contains("information_schema.tables"));
    assert!(r.statement.contains("table_schema"));
    assert!(r.statement.contains("table_name"));
    assert_eq!(r.tag, QueryTag::ListTables);
}

#[test]
fn table_structure_binds_the_name() {
    let r = SystemQuery::query_for(QueryTag::TableStructure("users".to_string())).unwrap();
    // The table name is a literal value here, so it travels as a
    // bind parameter, never interpolated.
    assert!(r.statement.contains("$1"));
    assert!(!r.statement.contains("users"));
    assert_eq!(r.parameters, Some(vec!["users".to_string()]));
}

#[test]
fn user_tag_is_not_a_system_query() {
    let r = SystemQuery::query_for(QueryTag::User);
    assert_eq!(r.unwrap_err(), QueryError::NotSystemQuery);
}

#[test]
fn query_error_messages() {
    assert_eq!(QueryError::InvalidIdentifier.message(), "invalid table identifier");
    assert_eq!(QueryError::NotSystemQuery.message(), "not a system query");
}
