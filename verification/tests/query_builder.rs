use orm::error::Error;
use orm::query::builder::{MySQLQueryBuilder, QueryBuilderEnum, SQLiteQueryBuilder};
use orm::query::{Dialect, JoinType, OrderDirection, QueryBuilder, QueryValue};
use orm::schema::{Column, ColumnType};

fn col(name: &str) -> Column {
    Column::new(name, ColumnType::Text)
}

fn detail(e: Error) -> String {
    match e {
        Error::QueryError(d) => d,
        other => panic!("not a query error: {:?}", other),
    }
}

fn placeholders(sql: &str) -> usize {
    sql.chars().filter(|c| *c == '?').count()
}

#[test]
fn select_with_bound_condition_and_order() {
    let mut builder = QueryBuilderEnum::new(Dialect::SQLite);
    let sql = builder
        .select(&[
            Column::new("id", ColumnType::BigInteger),
            Column::new("name", ColumnType::Text),
        ])
        .from("users")
        .where_eq("age", QueryValue::I32(18))
        .order_by("name", OrderDirection::Asc)
        .build()
        .unwrap();
    assert_eq!(sql, "SELECT id, name FROM users WHERE age = ? ORDER BY name ASC");
    assert_eq!(builder.params(), vec![QueryValue::I32(18)]);
}

#[test]
fn select_without_columns_selects_all() {
    let mut builder = QueryBuilderEnum::new(Dialect::MySQL);
    assert_eq!(builder.from("users").build().unwrap(), "SELECT * FROM users");
    assert_eq!(builder.params(), Vec::<QueryValue>::new());
}

#[test]
fn clauses_render_in_grammar_order_whatever_the_call_order() {
    let mut builder = QueryBuilderEnum::new(Dialect::SQLite);
    builder
        .offset(20)
        .limit(10)
        .order_by("total_sold", OrderDirection::Desc)
        .order_by("categories.name", OrderDirection::Asc)
        .having("COUNT(DISTINCT products.id) > 0")
        .group_by(&["categories.id", "categories.name"])
        .where_clause("categories.visible = 1")
        .where_eq("categories.active", QueryValue::Bool(true))
        .left_join("order_items", "order_items.product_id = products.id")
        .inner_join("products", "products.category_id = categories.id")
        .from("categories")
        .select(&[col("categories.name"), col("COUNT(*) as n")])
        .distinct();
    assert_eq!(
        builder.build().unwrap(),
        "SELECT DISTINCT categories.name, COUNT(*) as n FROM categories \
         LEFT JOIN order_items ON order_items.product_id = products.id \
         INNER JOIN products ON products.category_id = categories.id \
         WHERE categories.visible = 1 AND categories.active = ? \
         GROUP BY categories.id, categories.name \
         HAVING COUNT(DISTINCT products.id) > 0 \
         ORDER BY total_sold DESC, categories.name ASC LIMIT 10 OFFSET 20"
    );
    assert_eq!(builder.params(), vec![QueryValue::Bool(true)]);
}

#[test]
fn every_join_kind_has_its_keyword() {
    let mut builder = QueryBuilderEnum::new(Dialect::SQLite);
    builder
        .from("a")
        .inner_join("b", "b.a = a.id")
        .left_join("c", "c.a = a.id")
        .right_join("d", "d.a = a.id")
        .join("e", "e.a = a.id", JoinType::Full);
    assert_eq!(
        builder.build().unwrap(),
        "SELECT * FROM a INNER JOIN b ON b.a = a.id LEFT JOIN c ON c.a = a.id \
         RIGHT JOIN d ON d.a = a.id FULL JOIN e ON e.a = a.id"
    );
}

#[test]
fn limit_and_offset_are_written_in_decimal() {
    let mut builder = QueryBuilderEnum::new(Dialect::SQLite);
    builder.from("t").limit(0).offset(u64::MAX);
    assert_eq!(
        builder.build().unwrap(),
        "SELECT * FROM t LIMIT 0 OFFSET 18446744073709551615"
    );
    builder.limit(1000).offset(7);
    assert_eq!(builder.build().unwrap(), "SELECT * FROM t LIMIT 1000 OFFSET 7");
}

#[test]
fn insert_renders_rows_and_binds_values_row_by_row() {
    let mut builder = QueryBuilderEnum::new(Dialect::MySQL);
    builder
        .insert_into("users", &["name", "age"])
        .values_params(&[QueryValue::String("Ann".to_string()), QueryValue::I64(41)])
        .values(&["'Bob'", "DEFAULT"])
        .values_params(&[QueryValue::Null, QueryValue::F64(1.5f64.to_bits())]);
    assert_eq!(
        builder.build().unwrap(),
        "INSERT INTO users (name, age) VALUES (?, ?), ('Bob', DEFAULT), (?, ?)"
    );
    assert_eq!(
        builder.params(),
        vec![
            QueryValue::String("Ann".to_string()),
            QueryValue::I64(41),
            QueryValue::Null,
            QueryValue::F64(1.5f64.to_bits()),
        ]
    );
}

#[test]
fn returning_is_rendered_by_sqlite_and_dropped_by_mysql() {
    let mut sqlite = QueryBuilderEnum::new(Dialect::SQLite);
    sqlite
        .insert_into("users", &["name", "email"])
        .values_params(&[
            QueryValue::String("Jane Doe".to_string()),
            QueryValue::String("jane@example.com".to_string()),
        ])
        .returning(&["id", "name"]);
    assert_eq!(
        sqlite.build().unwrap(),
        "INSERT INTO users (name, email) VALUES (?, ?) RETURNING id, name"
    );

    let mut mysql = QueryBuilderEnum::new(Dialect::MySQL);
    mysql
        .insert_into("users", &["name", "email"])
        .values_params(&[
            QueryValue::String("John Doe".to_string()),
            QueryValue::String("john@example.com".to_string()),
        ])
        .returning(&["id"]);
    assert_eq!(mysql.build().unwrap(), "INSERT INTO users (name, email) VALUES (?, ?)");
    assert_eq!(mysql.params().len(), 2);
}

#[test]
fn returning_follows_update_and_delete_but_never_select() {
    let mut builder = QueryBuilderEnum::new(Dialect::SQLite);
    builder
        .update("users")
        .set_param("age", QueryValue::I32(3))
        .where_eq("id", QueryValue::I64(9))
        .returning(&["id", "age"]);
    assert_eq!(
        builder.build().unwrap(),
        "UPDATE users SET age = ? WHERE id = ? RETURNING id, age"
    );
    builder.delete_from("users");
    assert_eq!(builder.build().unwrap(), "DELETE FROM users WHERE id = ? RETURNING id, age");
    builder.select(&[]).from("users");
    assert_eq!(builder.build().unwrap(), "SELECT * FROM users WHERE id = ?");
    builder.returning(&[]).delete_from("users");
    assert_eq!(builder.build().unwrap(), "DELETE FROM users WHERE id = ?");
}

#[test]
fn update_renders_assignments_then_conditions() {
    let mut builder = QueryBuilderEnum::new(Dialect::MySQL);
    builder
        .update("accounts")
        .set("balance", "balance - 30")
        .set_param("owner", QueryValue::String("Alice".to_string()))
        .where_clause("frozen = 0")
        .where_eq("name", QueryValue::String("Alice".to_string()));
    assert_eq!(
        builder.build().unwrap(),
        "UPDATE accounts SET balance = balance - 30, owner = ? WHERE frozen = 0 AND name = ?"
    );
    assert_eq!(
        builder.params(),
        vec![
            QueryValue::String("Alice".to_string()),
            QueryValue::String("Alice".to_string()),
        ]
    );
}

#[test]
fn delete_renders_table_and_conditions() {
    let mut builder = QueryBuilderEnum::new(Dialect::SQLite);
    builder.delete_from("users");
    assert_eq!(builder.build().unwrap(), "DELETE FROM users");
    builder.where_eq("id", QueryValue::I64(4));
    assert_eq!(builder.build().unwrap(), "DELETE FROM users WHERE id = ?");
    assert_eq!(builder.params(), vec![QueryValue::I64(4)]);
}

#[test]
fn parameters_stand_in_placeholder_order_whatever_the_call_order() {
    let mut builder = QueryBuilderEnum::new(Dialect::SQLite);
    builder
        .where_eq("id", QueryValue::I64(1))
        .update("users")
        .set_param("name", QueryValue::String("n".to_string()))
        .where_eq("age", QueryValue::I32(2))
        .set_param("email", QueryValue::String("e".to_string()));
    let sql = builder.build().unwrap();
    assert_eq!(sql, "UPDATE users SET name = ?, email = ? WHERE id = ? AND age = ?");
    let params = builder.params();
    assert_eq!(
        params,
        vec![
            QueryValue::String("n".to_string()),
            QueryValue::String("e".to_string()),
            QueryValue::I64(1),
            QueryValue::I32(2),
        ]
    );
    assert_eq!(placeholders(&sql), params.len());
}

#[test]
fn parameters_are_those_of_the_active_kind_only() {
    let mut builder = QueryBuilderEnum::new(Dialect::SQLite);
    builder
        .from("users")
        .where_eq("id", QueryValue::I64(1))
        .set_param("name", QueryValue::String("n".to_string()))
        .insert_into("users", &["name"])
        .values_params(&[QueryValue::String("v".to_string())]);
    let sql = builder.build().unwrap();
    assert_eq!(sql, "INSERT INTO users (name) VALUES (?)");
    assert_eq!(builder.params(), vec![QueryValue::String("v".to_string())]);
    assert_eq!(placeholders(&sql), builder.params().len());

    builder.select(&[col("id")]);
    let sql = builder.build().unwrap();
    assert_eq!(sql, "SELECT id FROM users WHERE id = ?");
    assert_eq!(builder.params(), vec![QueryValue::I64(1)]);
    assert_eq!(placeholders(&sql), builder.params().len());
}

#[test]
fn the_last_entry_point_decides_the_kind() {
    let mut builder = QueryBuilderEnum::new(Dialect::SQLite);
    builder.from("a").update("b").set("x", "1").delete_from("c");
    assert_eq!(builder.build().unwrap(), "DELETE FROM c");
    builder.update("b");
    assert_eq!(builder.build().unwrap(), "UPDATE b SET x = 1");
    builder.select(&[]);
    assert_eq!(builder.build().unwrap(), "SELECT * FROM a");
}

#[test]
fn build_may_be_called_again_and_changes_nothing() {
    let mut builder = QueryBuilderEnum::new(Dialect::SQLite);
    builder.from("users").where_eq("id", QueryValue::I64(1));
    let first = builder.build().unwrap();
    let second = builder.build().unwrap();
    assert_eq!(first, second);
    assert_eq!(builder.params(), builder.params());
}

#[test]
fn a_missing_part_is_an_error_and_nothing_is_rendered() {
    let mut builder = QueryBuilderEnum::new(Dialect::SQLite);
    assert_eq!(detail(builder.build().unwrap_err()), "No table specified for SELECT");

    builder.select(&[col("id")]);
    assert_eq!(detail(builder.build().unwrap_err()), "No table specified for SELECT");

    builder.values(&["1"]);
    builder.update("t");
    assert_eq!(detail(builder.build().unwrap_err()), "No SET clauses specified for UPDATE");

    let mut insert = QueryBuilderEnum::new(Dialect::MySQL);
    insert.insert_into("t", &[]);
    assert_eq!(detail(insert.build().unwrap_err()), "No columns specified for INSERT");
    insert.insert_into("t", &["a"]);
    assert_eq!(detail(insert.build().unwrap_err()), "No values specified for INSERT");

    let mut other = QueryBuilderEnum::new(Dialect::MySQL);
    other.from("t").set("a", "1");
    let mut sqlite = SQLiteQueryBuilder::new();
    sqlite.from("t");
    assert_eq!(detail(sqlite.build_insert().unwrap_err()), "No table specified for INSERT");
    assert_eq!(detail(sqlite.build_update().unwrap_err()), "No table specified for UPDATE");
    assert_eq!(detail(sqlite.build_delete().unwrap_err()), "No table specified for DELETE");
    assert_eq!(sqlite.build_select().unwrap(), "SELECT * FROM t");
}

#[test]
fn reset_forgets_everything_but_the_dialect() {
    let mut builder = QueryBuilderEnum::new(Dialect::SQLite);
    builder
        .distinct()
        .select(&[col("id")])
        .from("users")
        .inner_join("posts", "posts.user_id = users.id")
        .where_eq("age", QueryValue::I32(18))
        .group_by(&["id"])
        .having("COUNT(*) > 1")
        .order_by("id", OrderDirection::Desc)
        .limit(1)
        .offset(2)
        .insert_into("users", &["name"])
        .values_params(&[QueryValue::String("x".to_string())])
        .update("users")
        .set_param("name", QueryValue::String("y".to_string()))
        .delete_from("users")
        .returning(&["id"]);
    assert_eq!(builder.build().unwrap(), "DELETE FROM users WHERE age = ? RETURNING id");

    builder.reset();
    assert_eq!(detail(builder.build().unwrap_err()), "No table specified for SELECT");
    assert_eq!(builder.params(), Vec::<QueryValue>::new());

    builder.from("t");
    assert_eq!(builder.build().unwrap(), "SELECT * FROM t");
    builder.insert_into("t", &["a"]);
    assert_eq!(detail(builder.build().unwrap_err()), "No values specified for INSERT");
    builder.update("t");
    assert_eq!(detail(builder.build().unwrap_err()), "No SET clauses specified for UPDATE");
    builder.delete_from("t").returning(&["a"]);
    assert_eq!(builder.build().unwrap(), "DELETE FROM t RETURNING a");
}

#[test]
fn the_builders_of_one_dialect_render_alike() {
    let mut sqlite = SQLiteQueryBuilder::new();
    let mut mysql = MySQLQueryBuilder::new();
    let mut either = QueryBuilderEnum::new(Dialect::MySQL);
    sqlite.delete_from("t").where_eq("a", QueryValue::Null).returning(&["a"]);
    mysql.delete_from("t").where_eq("a", QueryValue::Null).returning(&["a"]);
    either.delete_from("t").where_eq("a", QueryValue::Null).returning(&["a"]);
    assert_eq!(sqlite.build().unwrap(), "DELETE FROM t WHERE a = ? RETURNING a");
    assert_eq!(mysql.build().unwrap(), "DELETE FROM t WHERE a = ?");
    assert_eq!(either.build().unwrap(), mysql.build().unwrap());
    assert_eq!(mysql.build_delete().unwrap(), mysql.build().unwrap());
    assert_eq!(sqlite.params(), vec![QueryValue::Null]);

    mysql.reset();
    mysql.insert_into("t", &["a"]).values(&["1"]);
    assert_eq!(mysql.build_insert().unwrap(), "INSERT INTO t (a) VALUES (1)");
    mysql.update("t").set("a", "2");
    assert_eq!(mysql.build_update().unwrap(), "UPDATE t SET a = 2");
    mysql.from("t");
    assert_eq!(mysql.build_select().unwrap(), "SELECT * FROM t");
}

#[test]
fn dialects_share_the_placeholder_and_differ_in_returning() {
    assert_eq!(Dialect::SQLite.placeholder(), "?");
    assert_eq!(Dialect::MySQL.placeholder(), "?");
    assert!(Dialect::SQLite.supports_returning());
    assert!(!Dialect::MySQL.supports_returning());
    assert_eq!(OrderDirection::Asc.as_sql(), "ASC");
    assert_eq!(OrderDirection::Desc.as_sql(), "DESC");
    assert_eq!(JoinType::Inner.as_sql(), "INNER");
    assert_eq!(JoinType::Left.as_sql(), "LEFT");
    assert_eq!(JoinType::Right.as_sql(), "RIGHT");
    assert_eq!(JoinType::Full.as_sql(), "FULL");
}

#[test]
fn a_prepared_statement_has_one_value_for_each_placeholder() {
    let mut builder = QueryBuilderEnum::new(Dialect::SQLite);
    builder
        .update("users")
        .where_eq("id", QueryValue::I64(1))
        .set_param("name", QueryValue::String("n".to_string()));
    let statement = orm::query::builder::prepare(&builder).unwrap();
    assert_eq!(statement.sql(), "UPDATE users SET name = ? WHERE id = ?");
    assert_eq!(
        statement.params(),
        &[QueryValue::String("n".to_string()), QueryValue::I64(1)]
    );
    assert_eq!(placeholders(statement.sql()), statement.params().len());

    builder.reset();
    assert_eq!(
        detail(orm::query::builder::prepare(&builder).unwrap_err()),
        "No table specified for SELECT"
    );
}
