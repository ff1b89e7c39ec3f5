use orm::error::Error;
use orm::query::executor::QueryExecutor;
use orm::query::QueryValue;

#[test]
fn every_category_has_its_label() {
    let cases: Vec<(Error, &str)> = vec![
        (Error::ConnectionError("x".to_string()), "Connection error: x"),
        (Error::QueryError("x".to_string()), "Query error: x"),
        (Error::TransactionError("x".to_string()), "Transaction error: x"),
        (Error::MigrationError("x".to_string()), "Migration error: x"),
        (Error::SerializationError("x".to_string()), "Serialization error: x"),
        (Error::ConstraintViolation("x".to_string()), "Constraint violation: x"),
        (Error::ConfigError("x".to_string()), "Invalid configuration: x"),
        (Error::DatabaseError("x".to_string()), "Database error: x"),
        (Error::IoError("".to_string()), "IO error: "),
    ];
    for (error, message) in cases {
        assert_eq!(error.message(), message);
    }
}

#[test]
fn a_statement_binds_its_values_in_order() {
    let statement = QueryExecutor::new("SELECT ?, ?".to_string());
    assert_eq!(statement.sql(), "SELECT ?, ?");
    assert!(statement.params().is_empty());
    let statement = statement.bind(QueryValue::I32(1)).bind(QueryValue::Null);
    assert_eq!(statement.sql(), "SELECT ?, ?");
    assert_eq!(statement.params(), &[QueryValue::I32(1), QueryValue::Null]);

    let other = QueryExecutor::with_params("SELECT ?", &[QueryValue::Bool(true)]);
    assert_eq!(other.params(), &[QueryValue::Bool(true)]);
    let parts = QueryExecutor::from_parts("X".to_string(), vec![QueryValue::I64(2)]);
    assert_eq!(parts.sql(), "X");
    assert_eq!(parts.params(), &[QueryValue::I64(2)]);
}
