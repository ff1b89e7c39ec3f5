use orm::backend::{BackendFeature, GenericBackend, Operation, OperationKind};
use orm::error::Error;
use orm::model::crud::{count_from_record, CreatePlan};
use orm::model::{FromRow, Model, ModelCrud, ModelQuery, Row, Value};
use orm::query::executor::QueryExecutor;
use orm::query::{Dialect, OrderDirection, QueryValue};
use orm::utils::{sqlite_row_to_json, CellReading, ColumnReading};
use sqlx::sqlite::{SqliteArguments, SqlitePoolOptions, SqliteRow};
use sqlx::{Column, Row as DriverRow, Sqlite, SqlitePool};

#[derive(Debug, Clone)]
pub struct User {
    pub id: Option<i64>,
    pub name: String,
    pub email: String,
    pub age: i32,
}

impl Model for User {
    fn table_name() -> &'static str {
        "users"
    }

    fn primary_key() -> &'static str {
        "id"
    }

    fn primary_key_value(&self) -> Option<Value> {
        self.id.map(Value::I64)
    }

    fn to_values(&self) -> Row {
        let mut values = Row::new();
        if let Some(id) = self.id {
            values.insert("id".to_string(), Value::I64(id));
        }
        values.insert("name".to_string(), Value::String(self.name.clone()));
        values.insert("email".to_string(), Value::String(self.email.clone()));
        values.insert("age".to_string(), Value::I32(self.age));
        values
    }

    fn columns() -> Vec<&'static str> {
        vec!["name", "email", "age"]
    }
}

impl FromRow for User {
    fn from_row(row: &Row) -> Result<Self, Error> {
        let id = match row.get("id") {
            Some(Value::I64(n)) => Some(*n),
            Some(Value::I32(n)) => Some(*n as i64),
            _ => None,
        };

        let name = match row.get("name") {
            Some(Value::String(s)) => s.clone(),
            _ => return Err(Error::SerializationError("Missing name".to_string())),
        };

        let email = match row.get("email") {
            Some(Value::String(s)) => s.clone(),
            _ => return Err(Error::SerializationError("Missing email".to_string())),
        };

        let age = match row.get("age") {
            Some(Value::I32(n)) => *n,
            Some(Value::I64(n)) => *n as i32,
            _ => return Err(Error::SerializationError("Missing age".to_string())),
        };

        Ok(User { id, name, email, age })
    }
}

impl ModelCrud for User {}

fn run<F: std::future::Future>(future: F) -> F::Output {
    tokio::runtime::Builder::new_current_thread()
        .enable_all()
        .build()
        .unwrap()
        .block_on(future)
}

fn database(e: sqlx::Error) -> Error {
    Error::DatabaseError(e.to_string())
}

fn bound<'q>(op: &'q Operation) -> sqlx::query::Query<'q, Sqlite, SqliteArguments<'q>> {
    let mut query = sqlx::query(op.statement.sql());
    for param in op.statement.params() {
        query = match param {
            QueryValue::Null => query.bind(Option::<i64>::None),
            QueryValue::Bool(v) => query.bind(*v),
            QueryValue::I32(v) => query.bind(*v),
            QueryValue::I64(v) => query.bind(*v),
            QueryValue::F64(bits) => query.bind(f64::from_bits(*bits)),
            QueryValue::String(v) => query.bind(v.as_str()),
        };
    }
    query
}

fn record(row: &SqliteRow) -> Row {
    let readings: Vec<ColumnReading> = row
        .columns()
        .iter()
        .enumerate()
        .map(|(i, column)| ColumnReading {
            name: column.name().to_string(),
            cell: CellReading {
                as_i64: row.try_get::<i64, _>(i).ok(),
                as_i32: None,
                as_double: row.try_get::<f64, _>(i).ok().map(f64::to_bits),
                as_bool: row.try_get::<bool, _>(i).ok(),
                as_text: row.try_get::<String, _>(i).ok(),
                as_bytes: row.try_get::<Vec<u8>, _>(i).ok(),
            },
        })
        .collect();
    sqlite_row_to_json(&readings)
}

struct Store {
    backend: GenericBackend<SqlitePool>,
}

impl Store {
    async fn connect(url: &str) -> Store {
        let pool = SqlitePoolOptions::new().max_connections(1).connect(url).await.unwrap();
        Store { backend: GenericBackend::new(pool, url.to_string(), Dialect::SQLite, "SQLite") }
    }

    fn dialect(&self) -> Dialect {
        self.backend.dialect()
    }

    async fn perform(&self, op: Operation) -> Result<(u64, Vec<Row>), Error> {
        let pool = self.backend.pool();
        match op.kind {
            OperationKind::Execute => {
                let done = bound(&op).execute(pool).await.map_err(database)?;
                Ok((done.rows_affected(), Vec::new()))
            }
            OperationKind::FetchAll => {
                let rows = bound(&op).fetch_all(pool).await.map_err(database)?;
                Ok((0, rows.iter().map(record).collect()))
            }
            OperationKind::FetchOne => {
                let row = bound(&op).fetch_optional(pool).await.map_err(database)?;
                Ok((0, row.iter().map(record).collect()))
            }
        }
    }

    async fn execute(&self, statement: &QueryExecutor) -> Result<u64, Error> {
        let op = self.backend.execute(statement.sql(), statement.params());
        Ok(self.perform(op).await?.0)
    }

    async fn execute_raw(&self, sql: &str) -> Result<u64, Error> {
        Ok(self.perform(self.backend.execute_raw(sql)).await?.0)
    }

    async fn fetch_all(&self, statement: &QueryExecutor) -> Result<Vec<Row>, Error> {
        let op = self.backend.fetch_all_params(statement.sql(), statement.params());
        Ok(self.perform(op).await?.1)
    }

    async fn fetch_one(&self, statement: &QueryExecutor) -> Result<Option<Row>, Error> {
        let op = self.backend.fetch_one_params(statement.sql(), statement.params());
        Ok(self.perform(op).await?.1.pop())
    }

    async fn get<T: FromRow>(&self, query: ModelQuery<T>) -> Result<Vec<T>, Error> {
        let rows = self.fetch_all(&query.statement()?).await?;
        rows.iter().map(T::from_row).collect()
    }

    async fn first<T: FromRow>(&self, query: ModelQuery<T>) -> Result<Option<T>, Error> {
        match self.fetch_one(&query.statement()?).await? {
            Some(row) => Ok(Some(T::from_row(&row)?)),
            None => Ok(None),
        }
    }

    async fn find<T: ModelCrud>(&self, id: Value) -> Result<Option<T>, Error> {
        match self.fetch_one(&T::find(self.dialect(), id)?).await? {
            Some(row) => Ok(Some(T::from_row(&row)?)),
            None => Ok(None),
        }
    }

    async fn create<T: ModelCrud>(&self, values: &T) -> Result<T, Error> {
        let plan = T::create(self.dialect(), values)?;
        let created = match &plan {
            CreatePlan::Returning(statement) => self.fetch_one(statement).await?,
            CreatePlan::Lookup { insert, find } => {
                self.execute(insert).await?;
                self.fetch_one(find).await?
            }
            CreatePlan::Unretrievable { insert } => {
                self.execute(insert).await?;
                None
            }
        };
        match created {
            Some(row) => T::from_row(&row),
            None => Err(plan.missing_record()),
        }
    }

    async fn count<T: ModelCrud>(&self) -> Result<i64, Error> {
        let statement = QueryExecutor::new(T::count(self.dialect())?);
        let row = self.fetch_one(&statement).await?;
        count_from_record(row.as_ref())
    }
}

#[test]
fn test_sqlite_crud_operations() {
    run(async {
        let db = Store::connect("sqlite::memory:").await;

        let create_table_sql = r#"
        CREATE TABLE users (
            id INTEGER PRIMARY KEY AUTOINCREMENT,
            name TEXT NOT NULL,
            email TEXT NOT NULL,
            age INTEGER NOT NULL
        )
    "#;
        db.execute_raw(create_table_sql).await.unwrap();

        let new_user = User {
            id: None,
            name: "Alice".to_string(),
            email: "alice@example.com".to_string(),
            age: 30,
        };
        assert!(db.backend.supports_feature(BackendFeature::Returning));
        assert!(matches!(
            User::create(Dialect::SQLite, &new_user).unwrap(),
            CreatePlan::Returning(_)
        ));

        let created_user = db.create(&new_user).await.unwrap();
        assert_eq!(created_user.name, "Alice");
        assert_eq!(created_user.email, "alice@example.com");
        assert_eq!(created_user.age, 30);
        assert!(created_user.id.is_some());
        assert_eq!(created_user.id, Some(1));

        let found_user: Option<User> =
            db.find(Value::I64(created_user.id.unwrap())).await.unwrap();
        assert!(found_user.is_some());
        let found_user = found_user.unwrap();
        assert_eq!(found_user.name, "Alice");

        let bob = User {
            id: None,
            name: "Bob".to_string(),
            email: "bob@example.com".to_string(),
            age: 25,
        };
        db.create(&bob).await.unwrap();

        let charlie = User {
            id: None,
            name: "Charlie".to_string(),
            email: "charlie@example.com".to_string(),
            age: 35,
        };
        db.create(&charlie).await.unwrap();

        let count = db.count::<User>().await.unwrap();
        assert_eq!(count, 3);

        let all_users = db.get(User::all(db.dialect())).await.unwrap();
        assert_eq!(all_users.len(), 3);

        let young_users = db
            .get(User::query(db.dialect()).where_eq("age", QueryValue::I32(25)))
            .await
            .unwrap();
        assert_eq!(young_users.len(), 1);
        assert_eq!(young_users[0].name, "Bob");

        let ordered_users =
            db.get(User::order_by(db.dialect(), "age", OrderDirection::Desc)).await.unwrap();
        assert_eq!(ordered_users.len(), 3);
        assert_eq!(ordered_users[0].name, "Charlie");
        assert_eq!(ordered_users[1].name, "Alice");
        assert_eq!(ordered_users[2].name, "Bob");

        let limited_users = db.get(User::take(db.dialect(), 2)).await.unwrap();
        assert_eq!(limited_users.len(), 2);

        let first_user = db.first(User::first(db.dialect())).await.unwrap();
        assert!(first_user.is_some());

        let mut user_to_update = found_user.clone();
        user_to_update.age = 31;
        db.execute(&user_to_update.update(db.dialect()).unwrap()).await.unwrap();

        let updated_user: Option<User> =
            db.find(Value::I64(user_to_update.id.unwrap())).await.unwrap();
        assert!(updated_user.is_some());
        assert_eq!(updated_user.unwrap().age, 31);

        db.execute(&user_to_update.delete(db.dialect()).unwrap()).await.unwrap();
        let deleted_user: Option<User> =
            db.find(Value::I64(user_to_update.id.unwrap())).await.unwrap();
        assert!(deleted_user.is_none());

        let removed = db
            .execute_raw(&User::delete_where(db.dialect(), "age > 30").unwrap())
            .await
            .unwrap();
        assert_eq!(removed, 1);

        let remaining_count = db.count::<User>().await.unwrap();
        assert_eq!(remaining_count, 1);
    });
}

#[test]
fn without_returning_the_generated_key_needs_a_lookup() {
    run(async {
        let db = Store::connect("sqlite::memory:").await;
        db.execute_raw(
            "CREATE TABLE users (id INTEGER PRIMARY KEY AUTOINCREMENT, name TEXT NOT NULL, \
             email TEXT NOT NULL, age INTEGER NOT NULL)",
        )
        .await
        .unwrap();
        let new_user = User {
            id: None,
            name: "Alice".to_string(),
            email: "alice@example.com".to_string(),
            age: 30,
        };
        let plan = User::create(Dialect::MySQL, &new_user).unwrap();
        let insert = match &plan {
            CreatePlan::Unretrievable { insert } => insert,
            _ => panic!("the store returns nothing and the row has no key"),
        };
        assert_eq!(db.execute(insert).await.unwrap(), 1);
        assert!(matches!(
            plan.missing_record(),
            Error::QueryError(ref d)
                if d == "Auto-increment ID retrieval not yet implemented for MySQL"
        ));

        let looked_up = db
            .first(User::query(Dialect::MySQL).where_eq(
                "email",
                QueryValue::String("alice@example.com".to_string()),
            ))
            .await
            .unwrap()
            .unwrap();
        assert_eq!(looked_up.id, Some(1));
        assert_eq!(looked_up.name, "Alice");
    });
}

#[test]
fn bound_text_never_becomes_part_of_the_statement() {
    run(async {
        let db = Store::connect("sqlite::memory:").await;
        db.execute_raw(
            "CREATE TABLE users (id INTEGER PRIMARY KEY AUTOINCREMENT, name TEXT NOT NULL, \
             email TEXT NOT NULL, age INTEGER NOT NULL)",
        )
        .await
        .unwrap();
        let hostile = User {
            id: None,
            name: "x'); DROP TABLE users; --".to_string(),
            email: "a@b?c".to_string(),
            age: 1,
        };
        let created = db.create(&hostile).await.unwrap();
        assert_eq!(created.name, "x'); DROP TABLE users; --");
        assert_eq!(created.email, "a@b?c");
        let found = db
            .get(User::query(db.dialect()).where_eq(
                "name",
                QueryValue::String("x'); DROP TABLE users; --".to_string()),
            ))
            .await
            .unwrap();
        assert_eq!(found.len(), 1);
        assert_eq!(db.count::<User>().await.unwrap(), 1);
    });
}
