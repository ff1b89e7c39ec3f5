use orm::error::Error;
use orm::migration::{Migration, MigrationRunner, Schema, TableBuilder};
use orm::model::{Row, Value};
use orm::query::{Dialect, QueryValue};

struct CreateUsers;

impl Migration for CreateUsers {
    fn name(&self) -> &str {
        "create_users"
    }

    fn version(&self) -> i64 {
        20240101
    }

    fn up(&self, schema: &mut Schema) -> Result<(), Error> {
        let mut users = TableBuilder::new("users");
        users.id("id").string("email", 255).timestamps();
        schema.create_table(users);
        Ok(())
    }

    fn down(&self, schema: &mut Schema) -> Result<(), Error> {
        schema.drop_table("users");
        Ok(())
    }
}

struct AddAge;

impl Migration for AddAge {
    fn name(&self) -> &str {
        "add_age"
    }

    fn version(&self) -> i64 {
        20240202
    }

    fn up(&self, schema: &mut Schema) -> Result<(), Error> {
        schema.add_column(
            "users",
            orm::schema::Column::new("age", orm::schema::ColumnType::Integer).nullable(true),
        );
        Ok(())
    }

    fn down(&self, schema: &mut Schema) -> Result<(), Error> {
        schema.drop_column("users", "age");
        Ok(())
    }
}

enum Step {
    Users(CreateUsers),
    Age(AddAge),
}

impl Migration for Step {
    fn name(&self) -> &str {
        match self {
            Step::Users(m) => m.name(),
            Step::Age(m) => m.name(),
        }
    }

    fn version(&self) -> i64 {
        match self {
            Step::Users(m) => m.version(),
            Step::Age(m) => m.version(),
        }
    }

    fn up(&self, schema: &mut Schema) -> Result<(), Error> {
        match self {
            Step::Users(m) => m.up(schema),
            Step::Age(m) => m.up(schema),
        }
    }

    fn down(&self, schema: &mut Schema) -> Result<(), Error> {
        match self {
            Step::Users(m) => m.down(schema),
            Step::Age(m) => m.down(schema),
        }
    }
}

fn runner(dialect: Dialect) -> MigrationRunner<Step> {
    let mut runner = MigrationRunner::new(dialect);
    runner.add_migration(Step::Users(CreateUsers));
    runner.add_migration(Step::Age(AddAge));
    runner
}

#[test]
fn pending_are_the_versions_not_yet_executed() {
    let runner = runner(Dialect::SQLite);
    assert_eq!(runner.run_pending(&vec![]), vec![0, 1]);
    assert_eq!(runner.run_pending(&vec![20240101]), vec![1]);
    assert_eq!(runner.run_pending(&vec![20240202]), vec![0]);
    assert_eq!(runner.run_pending(&vec![20240101, 20240202]), Vec::<usize>::new());
    assert_eq!(runner.run_pending(&vec![7]), vec![0, 1]);
}

#[test]
fn rollback_undoes_the_latest_first() {
    let runner = runner(Dialect::SQLite);
    let executed = vec![20240101, 20240202];
    assert_eq!(runner.rollback(&executed, 0), Vec::<usize>::new());
    assert_eq!(runner.rollback(&executed, 1), vec![1]);
    assert_eq!(runner.rollback(&executed, 2), vec![1, 0]);
    assert_eq!(runner.rollback(&executed, 5), vec![1, 0]);
    assert_eq!(runner.rollback(&vec![20240101, 99], 2), vec![0]);
    assert_eq!(runner.rollback(&vec![], 3), Vec::<usize>::new());
}

#[test]
fn up_collects_the_statements_in_order() {
    let runner = runner(Dialect::SQLite);
    let mut schema = Schema::new(Dialect::SQLite);
    runner.migration(0).up(&mut schema).unwrap();
    runner.migration(1).up(&mut schema).unwrap();
    let statements = schema.statements();
    assert_eq!(statements.len(), 2);
    assert_eq!(
        statements[0],
        "CREATE TABLE users (\n  id INTEGER PRIMARY KEY AUTOINCREMENT,\n  email VARCHAR(255) NOT NULL,\n  created_at TIMESTAMP NOT NULL,\n  updated_at TIMESTAMP NOT NULL\n)"
    );
    assert_eq!(statements[1], "ALTER TABLE users ADD COLUMN age INTEGER");
}

#[test]
fn executed_versions_pass_over_records_without_one() {
    let mut first = Row::new();
    first.insert("version".to_string(), Value::I64(20240101));
    let mut second = Row::new();
    second.insert("name".to_string(), Value::String("x".to_string()));
    let mut third = Row::new();
    third.insert("version".to_string(), Value::String("12".to_string()));
    let mut fourth = Row::new();
    fourth.insert("version".to_string(), Value::I32(5));
    let versions = orm::migration::runner::executed_versions(&vec![first, second, third, fourth]);
    assert_eq!(versions, vec![20240101, 5]);
}

#[test]
fn every_change_has_its_statement() {
    let mut schema = Schema::new(Dialect::MySQL);
    let mut posts = TableBuilder::new("posts");
    posts.id("id").text("body");
    schema
        .create_table(posts)
        .drop_table("old_posts")
        .add_column(
            "posts",
            orm::schema::Column::new("likes", orm::schema::ColumnType::Integer).default("0"),
        )
        .drop_column("posts", "legacy")
        .create_index("posts", "posts_body", vec!["body".to_string(), "likes".to_string()], true)
        .create_index("posts", "posts_likes", vec!["likes".to_string()], false)
        .drop_index("posts", "posts_old");
    assert_eq!(
        schema.statements(),
        vec![
            "CREATE TABLE posts (\n  id BIGINT PRIMARY KEY AUTO_INCREMENT,\n  body TEXT NOT NULL\n)",
            "DROP TABLE IF EXISTS old_posts",
            "ALTER TABLE posts ADD COLUMN likes INT NOT NULL DEFAULT 0",
            "ALTER TABLE posts DROP COLUMN legacy",
            "CREATE UNIQUE INDEX posts_body ON posts (body, likes)",
            "CREATE INDEX posts_likes ON posts (likes)",
            "DROP INDEX IF EXISTS posts_old",
        ]
    );
    assert!(Schema::new(Dialect::SQLite).statements().is_empty());
}

#[test]
fn a_table_builder_adds_a_column_of_each_type() {
    let mut builder = TableBuilder::new("everything");
    builder
        .id("id")
        .string("s", 10)
        .text("t")
        .integer("i")
        .big_integer("b")
        .boolean("flag")
        .float("f")
        .double("d")
        .decimal("price", 10, 2)
        .date("day")
        .datetime("at")
        .timestamp("ts")
        .json("doc")
        .uuid("uid")
        .timestamps()
        .index("everything_s", vec!["s".to_string()], false)
        .foreign_key(orm::schema::ForeignKey {
            column: "b".to_string(),
            references_table: "others".to_string(),
            references_column: "id".to_string(),
            on_delete: Some(orm::schema::ForeignKeyAction::Restrict),
            on_update: None,
        });
    let table = builder.build();
    assert_eq!(table.columns().len(), 16);
    assert_eq!(table.indexes().len(), 1);
    assert_eq!(
        table.to_create_sql(Dialect::SQLite),
        "CREATE TABLE everything (\n  id INTEGER PRIMARY KEY AUTOINCREMENT,\n  s VARCHAR(10) NOT NULL,\n  t TEXT NOT NULL,\n  i INTEGER NOT NULL,\n  b BIGINT NOT NULL,\n  flag INTEGER NOT NULL,\n  f FLOAT NOT NULL,\n  d DOUBLE NOT NULL,\n  price DECIMAL(10, 2) NOT NULL,\n  day DATE NOT NULL,\n  at TEXT NOT NULL,\n  ts TIMESTAMP NOT NULL,\n  doc TEXT NOT NULL,\n  uid TEXT NOT NULL,\n  created_at TIMESTAMP NOT NULL,\n  updated_at TIMESTAMP NOT NULL,\n  FOREIGN KEY (b) REFERENCES others(id) ON DELETE RESTRICT\n)"
    );
}

#[test]
fn the_record_of_a_migration_binds_its_version_then_its_name() {
    let sqlite = runner(Dialect::SQLite);
    let mysql = runner(Dialect::MySQL);
    assert_eq!(sqlite.len(), 2);
    let applied = sqlite.record_applied(1);
    assert_eq!(
        applied.sql(),
        "INSERT INTO migrations (version, name, executed_at) VALUES (?, ?, datetime('now'))"
    );
    assert_eq!(
        applied.params(),
        &[QueryValue::I64(20240202), QueryValue::String("add_age".to_string())]
    );
    assert_eq!(
        mysql.record_applied(0).sql(),
        "INSERT INTO migrations (version, name, executed_at) VALUES (?, ?, NOW())"
    );
    let reverted = mysql.record_reverted(0);
    assert_eq!(reverted.sql(), "DELETE FROM migrations WHERE version = ?");
    assert_eq!(reverted.params(), &[QueryValue::I64(20240101)]);
    assert_eq!(
        sqlite.get_executed_versions(),
        "SELECT version FROM migrations ORDER BY version"
    );
    assert!(sqlite.ensure_migrations_table().starts_with("CREATE TABLE IF NOT EXISTS migrations ("));
    assert!(sqlite.ensure_migrations_table().contains("id INTEGER PRIMARY KEY AUTOINCREMENT,"));
    assert!(mysql.ensure_migrations_table().contains("id BIGINT PRIMARY KEY AUTO_INCREMENT,"));
}

#[test]
fn down_collects_the_statements_that_undo() {
    let runner = runner(Dialect::SQLite);
    let mut schema = Schema::new(Dialect::SQLite);
    for index in runner.rollback(&vec![20240101, 20240202], 2) {
        runner.migration(index).down(&mut schema).unwrap();
    }
    assert_eq!(
        schema.statements(),
        vec!["ALTER TABLE users DROP COLUMN age", "DROP TABLE IF EXISTS users"]
    );
}
