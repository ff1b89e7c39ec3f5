use orm::model::Value;
use orm::utils::{
    base64_encode, mysql_cell_to_value, mysql_row_to_json, sqlite_cell_to_value,
    sqlite_row_to_json, CellReading, ColumnReading,
};

fn nothing() -> CellReading {
    CellReading {
        as_i64: None,
        as_i32: None,
        as_double: None,
        as_bool: None,
        as_text: None,
        as_bytes: None,
    }
}

fn column(name: &str, cell: CellReading) -> ColumnReading {
    ColumnReading { name: name.to_string(), cell }
}

#[test]
fn base64_groups_three_bytes_into_four_characters() {
    assert_eq!(base64_encode(b""), "");
    assert_eq!(base64_encode(b"f"), "Zg==");
    assert_eq!(base64_encode(b"fo"), "Zm8=");
    assert_eq!(base64_encode(b"foo"), "Zm9v");
    assert_eq!(base64_encode(b"foob"), "Zm9vYg==");
    assert_eq!(base64_encode(b"fooba"), "Zm9vYmE=");
    assert_eq!(base64_encode(b"foobar"), "Zm9vYmFy");
    assert_eq!(base64_encode(&[0, 0, 0]), "AAAA");
    assert_eq!(base64_encode(&[255, 255, 255]), "////");
    assert_eq!(base64_encode(&[251, 240]), "+/A=");
    assert_eq!(base64_encode(&[0]), "AA==");
    assert_eq!(base64_encode(&[255]), "/w==");
}

#[test]
fn a_cell_is_an_integer_before_anything_else() {
    let cell = CellReading {
        as_i64: Some(7),
        as_i32: Some(8),
        as_double: Some(7.0f64.to_bits()),
        as_bool: Some(true),
        as_text: Some("7".to_string()),
        as_bytes: Some(vec![7]),
    };
    assert_eq!(sqlite_cell_to_value(&cell), Value::I64(7));
    assert_eq!(mysql_cell_to_value(&cell), Value::I64(7));
}

#[test]
fn only_mysql_reads_a_cell_as_a_short_integer() {
    let cell = CellReading {
        as_i32: Some(-8),
        as_double: Some(2.5f64.to_bits()),
        ..nothing()
    };
    assert_eq!(sqlite_cell_to_value(&cell), Value::F64(2.5f64.to_bits()));
    assert_eq!(mysql_cell_to_value(&cell), Value::I64(-8));
}

#[test]
fn the_other_readings_are_tried_in_turn() {
    let double = CellReading {
        as_double: Some(0.25f64.to_bits()),
        as_bool: Some(false),
        as_text: Some("x".to_string()),
        as_bytes: Some(vec![1]),
        ..nothing()
    };
    let boolean = CellReading {
        as_bool: Some(false),
        as_text: Some("x".to_string()),
        as_bytes: Some(vec![1]),
        ..nothing()
    };
    let text = CellReading {
        as_text: Some("x".to_string()),
        as_bytes: Some(vec![1]),
        ..nothing()
    };
    let bytes = CellReading { as_bytes: Some(b"foo".to_vec()), ..nothing() };
    for decode in [sqlite_cell_to_value, mysql_cell_to_value] {
        assert_eq!(decode(&double), Value::F64(0.25f64.to_bits()));
        assert_eq!(decode(&boolean), Value::Bool(false));
        assert_eq!(decode(&text), Value::String("x".to_string()));
        assert_eq!(decode(&bytes), Value::String("Zm9v".to_string()));
        assert_eq!(decode(&nothing()), Value::Null);
    }
}

#[test]
fn a_record_holds_each_column_under_its_name_in_order() {
    let row = vec![
        column("name", CellReading { as_text: Some("Alice".to_string()), ..nothing() }),
        column("balance", CellReading { as_i64: Some(70), ..nothing() }),
        column("note", nothing()),
    ];
    for record in [sqlite_row_to_json(&row), mysql_row_to_json(&row)] {
        assert_eq!(record.len(), 3);
        assert_eq!(record.name_at(0), "name");
        assert_eq!(record.name_at(1), "balance");
        assert_eq!(record.name_at(2), "note");
        assert_eq!(record.get("name"), Some(&Value::String("Alice".to_string())));
        assert_eq!(record.get("balance"), Some(&Value::I64(70)));
        assert_eq!(record.get("note"), Some(&Value::Null));
        assert_eq!(record.get("missing"), None);
    }
}

#[test]
fn of_two_columns_of_one_name_the_later_value_stands_in_the_earlier_place() {
    let row = vec![
        column("a", CellReading { as_i64: Some(1), ..nothing() }),
        column("b", CellReading { as_i64: Some(2), ..nothing() }),
        column("a", CellReading { as_i32: Some(3), ..nothing() }),
    ];
    let sqlite = sqlite_row_to_json(&row);
    assert_eq!(sqlite.len(), 2);
    assert_eq!(sqlite.name_at(0), "a");
    assert_eq!(sqlite.value_at(0), &Value::Null);
    assert_eq!(sqlite.value_at(1), &Value::I64(2));
    let mysql = mysql_row_to_json(&row);
    assert_eq!(mysql.len(), 2);
    assert_eq!(mysql.value_at(0), &Value::I64(3));
    assert!(sqlite_row_to_json(&vec![]).is_empty());
}

#[test]
fn base64_has_four_characters_for_every_three_bytes_begun() {
    for len in 0..20usize {
        let bytes: Vec<u8> = (0..len).map(|i| (i * 37 % 256) as u8).collect();
        let text = base64_encode(&bytes);
        assert_eq!(text.len(), 4 * ((len + 2) / 3));
        assert_eq!(text.ends_with("=="), len % 3 == 1);
        assert_eq!(text.ends_with('=') && !text.ends_with("=="), len % 3 == 2);
    }
}
