use orm::backend::{BackendFeature, DatabaseBackend, GenericBackend, OperationKind};
use orm::error::Error;
use orm::query::{Dialect, QueryBuilder, QueryValue};

#[test]
fn the_scheme_of_the_descriptor_selects_the_store() {
    assert_eq!(DatabaseBackend::from_url("sqlite::memory:").unwrap(), DatabaseBackend::SQLite);
    assert_eq!(DatabaseBackend::from_url("sqlite:app.db").unwrap(), DatabaseBackend::SQLite);
    assert_eq!(
        DatabaseBackend::from_url("mysql://root@localhost/app").unwrap(),
        DatabaseBackend::MySQL
    );
    assert_eq!(DatabaseBackend::SQLite.dialect(), Dialect::SQLite);
    assert_eq!(DatabaseBackend::MySQL.dialect(), Dialect::MySQL);
}

#[test]
fn an_unknown_scheme_is_a_configuration_error() {
    for url in ["postgres://localhost/app", "mysql:/x", "sqlite", "", "SQLITE::memory:"] {
        match DatabaseBackend::from_url(url) {
            Err(Error::ConfigError(detail)) => {
                assert_eq!(detail, "Unsupported database URL scheme")
            }
            other => panic!("{:?} for {:?}", other, url),
        }
    }
    let e = DatabaseBackend::from_url("x").unwrap_err();
    assert_eq!(e.message(), "Invalid configuration: Unsupported database URL scheme");
}

#[test]
fn capabilities_are_fixed_by_the_dialect() {
    let sqlite = GenericBackend::new((), "sqlite::memory:".to_string(), Dialect::SQLite, "SQLite");
    let mysql = GenericBackend::new((), "mysql://h/db".to_string(), Dialect::MySQL, "MySQL");
    for feature in [
        BackendFeature::Transactions,
        BackendFeature::Savepoints,
        BackendFeature::Returning,
        BackendFeature::OnConflict,
        BackendFeature::CTE,
        BackendFeature::Window,
    ] {
        assert!(sqlite.supports_feature(feature));
    }
    assert!(mysql.supports_feature(BackendFeature::Transactions));
    assert!(mysql.supports_feature(BackendFeature::Savepoints));
    assert!(!mysql.supports_feature(BackendFeature::Returning));
    assert!(!mysql.supports_feature(BackendFeature::OnConflict));
    assert!(mysql.supports_feature(BackendFeature::CTE));
    assert!(mysql.supports_feature(BackendFeature::Window));
    assert_eq!(
        sqlite.supports_feature(BackendFeature::Returning),
        sqlite.dialect().supports_returning()
    );
    assert_eq!(
        mysql.supports_feature(BackendFeature::Returning),
        mysql.dialect().supports_returning()
    );
}

#[test]
fn a_backend_keeps_what_it_was_made_with() {
    let backend = GenericBackend::new(7u8, "mysql://h/db".to_string(), Dialect::MySQL, "MySQL");
    assert_eq!(*backend.pool(), 7);
    assert_eq!(backend.name(), "MySQL");
    assert_eq!(backend.connection_url(), "mysql://h/db");
    assert_eq!(backend.dialect(), Dialect::MySQL);
    let mut builder = backend.query_builder();
    builder
        .insert_into("t", &["a"])
        .values_params(&[QueryValue::I32(1)])
        .returning(&["id"]);
    assert_eq!(builder.build().unwrap(), "INSERT INTO t (a) VALUES (?)");
}

#[test]
fn a_backend_asks_for_the_statement_with_its_values() {
    let backend = GenericBackend::new((), "sqlite::memory:".to_string(), Dialect::SQLite, "SQLite");
    let params = [QueryValue::I64(30), QueryValue::String("Alice".to_string())];
    let sql = "UPDATE accounts SET balance = balance - ? WHERE name = ?";

    let op = backend.execute(sql, &params);
    assert_eq!(op.kind, OperationKind::Execute);
    assert_eq!(op.statement.sql(), sql);
    assert_eq!(op.statement.params(), &params);

    let op = backend.execute_raw("CREATE TABLE t (id INTEGER)");
    assert_eq!(op.kind, OperationKind::Execute);
    assert_eq!(op.statement.sql(), "CREATE TABLE t (id INTEGER)");
    assert!(op.statement.params().is_empty());

    assert_eq!(backend.fetch_all("SELECT 1").kind, OperationKind::FetchAll);
    assert_eq!(backend.fetch_one("SELECT 1").kind, OperationKind::FetchOne);
    let op = backend.fetch_all_params("SELECT ?", &params[..1]);
    assert_eq!(op.kind, OperationKind::FetchAll);
    assert_eq!(op.statement.params(), &params[..1]);
    let op = backend.fetch_one_params("SELECT ?, ?", &params);
    assert_eq!(op.kind, OperationKind::FetchOne);
    assert_eq!(op.statement.sql(), "SELECT ?, ?");
    assert_eq!(op.statement.params(), &params);
}
