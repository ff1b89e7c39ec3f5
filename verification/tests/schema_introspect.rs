use orm::schema::introspect::{column_type_to_string, column_type_to_typescript};
use orm::schema::{export_schema, Column, ColumnType, ForeignKey, ForeignKeyAction, Table};

#[test]
fn test_column_type_to_typescript() {
    assert_eq!(column_type_to_typescript(&ColumnType::Integer, false), "number");
    assert_eq!(column_type_to_typescript(&ColumnType::Integer, true), "number | null");
    assert_eq!(column_type_to_typescript(&ColumnType::Text, false), "string");
    assert_eq!(column_type_to_typescript(&ColumnType::Boolean, false), "boolean");
    assert_eq!(column_type_to_typescript(&ColumnType::Uuid, false), "string");
}

#[test]
fn test_export_simple_table() {
    let mut table = Table::new("users");
    table.add_column(
        Column::new("id", ColumnType::Integer)
            .primary_key()
            .auto_increment(),
    );
    table.add_column(Column::new("email", ColumnType::Varchar(255)));
    table.add_column(Column::new("age", ColumnType::Integer).nullable(true));

    let schema = export_schema(vec![table]);
    assert_eq!(schema.tables.len(), 1);
    assert_eq!(schema.tables[0].name, "users");
    assert_eq!(schema.tables[0].columns.len(), 3);

    let id_col = &schema.tables[0].columns[0];
    assert_eq!(id_col.name, "id");
    assert_eq!(id_col.typescript_type, "number");
    assert!(id_col.primary_key);

    let age_col = &schema.tables[0].columns[2];
    assert_eq!(age_col.name, "age");
    assert_eq!(age_col.typescript_type, "number | null");
    assert!(age_col.nullable);
}

#[test]
fn every_type_has_its_name_and_typescript_type() {
    let cases: Vec<(ColumnType, &str, &str)> = vec![
        (ColumnType::Integer, "integer", "number"),
        (ColumnType::BigInteger, "bigint", "number"),
        (ColumnType::Text, "text", "string"),
        (ColumnType::Varchar(255), "varchar(255)", "string"),
        (ColumnType::Boolean, "boolean", "boolean"),
        (ColumnType::Float, "float", "number"),
        (ColumnType::Double, "double", "number"),
        (ColumnType::Decimal { precision: 10, scale: 2 }, "decimal(10,2)", "number"),
        (ColumnType::Date, "date", "string"),
        (ColumnType::DateTime, "datetime", "string"),
        (ColumnType::Timestamp, "timestamp", "string"),
        (ColumnType::Json, "json", "any"),
        (ColumnType::Uuid, "uuid", "string"),
        (ColumnType::Binary, "binary", "Uint8Array"),
    ];
    for (column_type, name, typescript) in cases {
        assert_eq!(column_type_to_string(&column_type), name);
        assert_eq!(column_type_to_typescript(&column_type, false), typescript);
        assert_eq!(
            column_type_to_typescript(&column_type, true),
            format!("{} | null", typescript)
        );
    }
}

#[test]
fn export_describes_columns_and_foreign_keys_in_order() {
    let mut posts = Table::new("posts");
    posts.add_column(Column::new("id", ColumnType::BigInteger).primary_key());
    posts.add_column(
        Column::new("title", ColumnType::Varchar(80))
            .unique()
            .default("'untitled'"),
    );
    posts.add_foreign_key(ForeignKey {
        column: "user_id".to_string(),
        references_table: "users".to_string(),
        references_column: "id".to_string(),
        on_delete: Some(ForeignKeyAction::Cascade),
        on_update: None,
    });
    let users = Table::new("users");

    let schema = export_schema(vec![posts, users]);
    assert_eq!(schema.tables.len(), 2);
    assert_eq!(schema.tables[0].name, "posts");
    assert_eq!(schema.tables[1].name, "users");
    assert_eq!(schema.tables[1].columns.len(), 0);

    let title = &schema.tables[0].columns[1];
    assert_eq!(title.name, "title");
    assert_eq!(title.data_type, "varchar(80)");
    assert_eq!(title.typescript_type, "string");
    assert!(title.unique);
    assert!(!title.nullable);
    assert!(!title.primary_key);
    assert!(!title.auto_increment);
    assert_eq!(title.default_value.as_deref(), Some("'untitled'"));

    let key = &schema.tables[0].foreign_keys[0];
    assert_eq!(key.column, "user_id");
    assert_eq!(key.references_table, "users");
    assert_eq!(key.references_column, "id");
}
