use orm::backend::{GenericBackend, Operation, OperationKind};
use orm::error::Error;
use orm::model::{Row, Value};
use orm::query::{Dialect, QueryValue};
use orm::transaction::{Completion, Transaction};
use orm::utils::{sqlite_row_to_json, CellReading, ColumnReading};
use sqlx::sqlite::{SqliteArguments, SqlitePoolOptions, SqliteRow};
use sqlx::{Column, Row as DriverRow, Sqlite, SqlitePool};

type Session = sqlx::Transaction<'static, Sqlite>;

enum Answer {
    Affected(u64),
    Rows(Vec<Row>),
}

fn run<F: std::future::Future>(future: F) -> F::Output {
    tokio::runtime::Builder::new_current_thread()
        .enable_all()
        .build()
        .unwrap()
        .block_on(future)
}

fn database(e: sqlx::Error) -> Error {
    Error::DatabaseError(e.to_string())
}

fn bound<'q>(op: &'q Operation) -> sqlx::query::Query<'q, Sqlite, SqliteArguments<'q>> {
    let mut query = sqlx::query(op.statement.sql());
    for param in op.statement.params() {
        query = match param {
            QueryValue::Null => query.bind(Option::<i64>::None),
            QueryValue::Bool(v) => query.bind(*v),
            QueryValue::I32(v) => query.bind(*v),
            QueryValue::I64(v) => query.bind(*v),
            QueryValue::F64(bits) => query.bind(f64::from_bits(*bits)),
            QueryValue::String(v) => query.bind(v.as_str()),
        };
    }
    query
}

fn record(row: &SqliteRow) -> Row {
    let readings: Vec<ColumnReading> = row
        .columns()
        .iter()
        .enumerate()
        .map(|(i, column)| ColumnReading {
            name: column.name().to_string(),
            cell: CellReading {
                as_i64: row.try_get::<i64, _>(i).ok(),
                as_i32: None,
                as_double: row.try_get::<f64, _>(i).ok().map(f64::to_bits),
                as_bool: row.try_get::<bool, _>(i).ok(),
                as_text: row.try_get::<String, _>(i).ok(),
                as_bytes: row.try_get::<Vec<u8>, _>(i).ok(),
            },
        })
        .collect();
    sqlite_row_to_json(&readings)
}

async fn on_pool(pool: &SqlitePool, op: Operation) -> Result<Answer, Error> {
    match op.kind {
        OperationKind::Execute => {
            let done = bound(&op).execute(pool).await.map_err(database)?;
            Ok(Answer::Affected(done.rows_affected()))
        }
        OperationKind::FetchAll => {
            let rows = bound(&op).fetch_all(pool).await.map_err(database)?;
            Ok(Answer::Rows(rows.iter().map(record).collect()))
        }
        OperationKind::FetchOne => {
            let row = bound(&op).fetch_optional(pool).await.map_err(database)?;
            Ok(Answer::Rows(row.iter().map(record).collect()))
        }
    }
}

async fn on_session(session: &mut Session, op: Operation) -> Result<Answer, Error> {
    match op.kind {
        OperationKind::Execute => {
            let done = bound(&op).execute(&mut **session).await.map_err(database)?;
            Ok(Answer::Affected(done.rows_affected()))
        }
        OperationKind::FetchAll => {
            let rows = bound(&op).fetch_all(&mut **session).await.map_err(database)?;
            Ok(Answer::Rows(rows.iter().map(record).collect()))
        }
        OperationKind::FetchOne => {
            let row = bound(&op).fetch_optional(&mut **session).await.map_err(database)?;
            Ok(Answer::Rows(row.iter().map(record).collect()))
        }
    }
}

fn rows(answer: Answer) -> Vec<Row> {
    match answer {
        Answer::Rows(rows) => rows,
        Answer::Affected(_) => panic!("rows were asked for"),
    }
}

struct Store {
    backend: GenericBackend<SqlitePool>,
}

impl Store {
    async fn connect(url: &str, connections: u32) -> Store {
        let pool = SqlitePoolOptions::new()
            .max_connections(connections)
            .connect(url)
            .await
            .unwrap();
        Store { backend: GenericBackend::new(pool, url.to_string(), Dialect::SQLite, "SQLite") }
    }

    async fn execute(&self, sql: &str, params: &[QueryValue]) -> Result<u64, Error> {
        match on_pool(self.backend.pool(), self.backend.execute(sql, params)).await? {
            Answer::Affected(n) => Ok(n),
            Answer::Rows(_) => panic!("a count was asked for"),
        }
    }

    async fn fetch_all_params(&self, sql: &str, params: &[QueryValue]) -> Result<Vec<Row>, Error> {
        Ok(rows(on_pool(self.backend.pool(), self.backend.fetch_all_params(sql, params)).await?))
    }

    async fn fetch_one_params(
        &self,
        sql: &str,
        params: &[QueryValue],
    ) -> Result<Option<Row>, Error> {
        let op = self.backend.fetch_one_params(sql, params);
        Ok(rows(on_pool(self.backend.pool(), op).await?).pop())
    }

    async fn begin_transaction(&self) -> Result<StoreTransaction, Error> {
        let session = self.backend.pool().begin().await.map_err(database)?;
        Ok(StoreTransaction { state: self.backend.begin_transaction(session) })
    }
}

struct StoreTransaction {
    state: Transaction<Session>,
}

impl StoreTransaction {
    async fn perform(&mut self, op: Operation) -> Result<Answer, Error> {
        match self.state.session_mut() {
            Some(session) => on_session(session, op).await,
            None => panic!("an operation was granted on a transaction that has ended"),
        }
    }

    async fn execute_params(&mut self, sql: &str, params: &[QueryValue]) -> Result<u64, Error> {
        let op = self.state.execute_params(sql, params)?;
        match self.perform(op).await? {
            Answer::Affected(n) => Ok(n),
            Answer::Rows(_) => panic!("a count was asked for"),
        }
    }

    async fn fetch_all_params(
        &mut self,
        sql: &str,
        params: &[QueryValue],
    ) -> Result<Vec<Row>, Error> {
        let op = self.state.fetch_all_params(sql, params)?;
        Ok(rows(self.perform(op).await?))
    }

    async fn fetch_one_params(
        &mut self,
        sql: &str,
        params: &[QueryValue],
    ) -> Result<Option<Row>, Error> {
        let op = self.state.fetch_one_params(sql, params)?;
        Ok(rows(self.perform(op).await?).pop())
    }

    async fn finish(completion: Completion<Session>) -> Result<(), Error> {
        match completion {
            Completion::Commit(session) => session.commit().await.map_err(database),
            Completion::Rollback(session) => session.rollback().await.map_err(database),
            Completion::Nothing => Ok(()),
        }
    }

    async fn commit(self) -> Result<(), Error> {
        Self::finish(self.state.commit()).await
    }

    async fn rollback(self) -> Result<(), Error> {
        Self::finish(self.state.rollback()).await
    }

    /// Gives the transaction up without a commit or a rollback.
    fn abandon(mut self) {
        match self.state.abandon() {
            Completion::Rollback(session) => drop(session),
            Completion::Commit(_) => panic!("an abandoned transaction is never committed"),
            Completion::Nothing => {}
        }
    }
}

fn integer(row: &Row, name: &str) -> i64 {
    match row.get(name) {
        Some(Value::I64(n)) => *n,
        other => panic!("{} is {:?}", name, other),
    }
}

fn text(row: &Row, name: &str) -> String {
    match row.get(name) {
        Some(Value::String(s)) => s.clone(),
        other => panic!("{} is {:?}", name, other),
    }
}

async fn accounts() -> Store {
    let db = Store::connect("sqlite::memory:", 1).await;
    db.execute(
        r#"
        CREATE TABLE accounts (
            id INTEGER PRIMARY KEY AUTOINCREMENT,
            name TEXT NOT NULL,
            balance INTEGER NOT NULL
        )
    "#,
        &[],
    )
    .await
    .unwrap();
    db.execute("INSERT INTO accounts (name, balance) VALUES ('Alice', 100)", &[]).await.unwrap();
    db
}

async fn transfer(tx: &mut StoreTransaction) {
    tx.execute_params(
        "UPDATE accounts SET balance = balance - ? WHERE name = ?",
        &[QueryValue::I64(30), QueryValue::String("Alice".to_string())],
    )
    .await
    .unwrap();
    tx.execute_params(
        "UPDATE accounts SET balance = balance + ? WHERE name = ?",
        &[QueryValue::I64(30), QueryValue::String("Bob".to_string())],
    )
    .await
    .unwrap();
}

#[test]
fn test_transaction_commit() {
    run(async {
        let db = accounts().await;
        db.execute("INSERT INTO accounts (name, balance) VALUES ('Bob', 50)", &[]).await.unwrap();

        let mut tx = db.begin_transaction().await.unwrap();
        transfer(&mut tx).await;
        tx.commit().await.unwrap();

        let results = db
            .fetch_all_params("SELECT name, balance FROM accounts ORDER BY name", &[])
            .await
            .unwrap();
        assert_eq!(results.len(), 2);
        assert_eq!(integer(&results[0], "balance"), 70);
        assert_eq!(integer(&results[1], "balance"), 80);
    });
}

#[test]
fn test_transaction_rollback() {
    run(async {
        let db = accounts().await;
        db.execute("INSERT INTO accounts (name, balance) VALUES ('Bob', 50)", &[]).await.unwrap();

        let mut tx = db.begin_transaction().await.unwrap();
        transfer(&mut tx).await;
        tx.rollback().await.unwrap();

        let results = db
            .fetch_all_params("SELECT name, balance FROM accounts ORDER BY name", &[])
            .await
            .unwrap();
        assert_eq!(results.len(), 2);
        assert_eq!(integer(&results[0], "balance"), 100);
        assert_eq!(integer(&results[1], "balance"), 50);
    });
}

#[test]
fn test_transaction_auto_rollback_on_drop() {
    run(async {
        let db = accounts().await;
        {
            let mut tx = db.begin_transaction().await.unwrap();
            tx.execute_params(
                "UPDATE accounts SET balance = ? WHERE name = ?",
                &[QueryValue::I64(200), QueryValue::String("Alice".to_string())],
            )
            .await
            .unwrap();
            tx.abandon();
        }
        let results = db
            .fetch_all_params("SELECT balance FROM accounts WHERE name = 'Alice'", &[])
            .await
            .unwrap();
        assert_eq!(integer(&results[0], "balance"), 100);
    });
}

#[test]
fn test_transaction_fetch_operations() {
    run(async {
        let db = Store::connect("sqlite::memory:", 1).await;
        db.execute(
            r#"
            CREATE TABLE users (
                id INTEGER PRIMARY KEY AUTOINCREMENT,
                name TEXT NOT NULL,
                age INTEGER NOT NULL
            )
        "#,
            &[],
        )
        .await
        .unwrap();
        db.execute("INSERT INTO users (name, age) VALUES ('Alice', 30)", &[]).await.unwrap();
        db.execute("INSERT INTO users (name, age) VALUES ('Bob', 25)", &[]).await.unwrap();

        let mut tx = db.begin_transaction().await.unwrap();
        tx.execute_params(
            "INSERT INTO users (name, age) VALUES (?, ?)",
            &[QueryValue::String("Charlie".to_string()), QueryValue::I32(35)],
        )
        .await
        .unwrap();

        let users =
            tx.fetch_all_params("SELECT name, age FROM users ORDER BY name", &[]).await.unwrap();
        assert_eq!(users.len(), 3);

        let alice = tx
            .fetch_one_params(
                "SELECT name, age FROM users WHERE name = ?",
                &[QueryValue::String("Alice".to_string())],
            )
            .await
            .unwrap();
        assert!(alice.is_some());
        let alice = alice.unwrap();
        assert_eq!(text(&alice, "name"), "Alice");
        assert_eq!(integer(&alice, "age"), 30);

        tx.commit().await.unwrap();

        let final_users =
            db.fetch_all_params("SELECT name FROM users ORDER BY name", &[]).await.unwrap();
        assert_eq!(final_users.len(), 3);
    });
}

#[test]
fn test_transaction_isolation() {
    run(async {
        let db = Store::connect("sqlite:/tmp/orm_transaction_isolation.db?mode=rwc", 2).await;
        db.execute("DROP TABLE IF EXISTS counters", &[]).await.unwrap();
        db.execute(
            r#"
            CREATE TABLE counters (
                id INTEGER PRIMARY KEY AUTOINCREMENT,
                value INTEGER NOT NULL
            )
        "#,
            &[],
        )
        .await
        .unwrap();
        db.execute("INSERT INTO counters (value) VALUES (0)", &[]).await.unwrap();

        let mut tx = db.begin_transaction().await.unwrap();
        tx.execute_params(
            "UPDATE counters SET value = ? WHERE id = ?",
            &[QueryValue::I64(100), QueryValue::I64(1)],
        )
        .await
        .unwrap();

        let outside = db
            .fetch_one_params("SELECT value FROM counters WHERE id = ?", &[QueryValue::I64(1)])
            .await
            .unwrap();
        assert_eq!(integer(&outside.unwrap(), "value"), 0);

        let inside = tx
            .fetch_one_params("SELECT value FROM counters WHERE id = ?", &[QueryValue::I64(1)])
            .await
            .unwrap();
        assert_eq!(integer(&inside.unwrap(), "value"), 100);

        tx.commit().await.unwrap();

        let committed = db
            .fetch_one_params("SELECT value FROM counters WHERE id = ?", &[QueryValue::I64(1)])
            .await
            .unwrap();
        assert_eq!(integer(&committed.unwrap(), "value"), 100);
        db.execute("DROP TABLE counters", &[]).await.unwrap();
    });
}

#[test]
fn test_transaction_error_handling() {
    run(async {
        let db = Store::connect("sqlite::memory:", 1).await;
        db.execute(
            r#"
            CREATE TABLE test (
                id INTEGER PRIMARY KEY,
                value TEXT NOT NULL
            )
        "#,
            &[],
        )
        .await
        .unwrap();

        let mut tx = db.begin_transaction().await.unwrap();
        tx.execute_params(
            "INSERT INTO test (id, value) VALUES (?, ?)",
            &[QueryValue::I64(1), QueryValue::String("test".to_string())],
        )
        .await
        .unwrap();

        let result = tx
            .execute_params(
                "INSERT INTO test (id, value) VALUES (?, ?)",
                &[QueryValue::I64(1), QueryValue::String("duplicate".to_string())],
            )
            .await;
        assert!(result.is_err());

        tx.execute_params(
            "INSERT INTO test (id, value) VALUES (?, ?)",
            &[QueryValue::I64(2), QueryValue::String("test2".to_string())],
        )
        .await
        .unwrap();

        tx.rollback().await.unwrap();
    });
}
