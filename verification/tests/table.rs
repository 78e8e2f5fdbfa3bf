use bobby::row::Row;
use bobby::table::{RowIdentity, Table};
use bobby::value::Value;

#[test]
fn plain_name_is_accepted() {
    let table = Table::parse("customers").unwrap();
    assert_eq!(table.name(), "customers");
    assert_eq!(table.row_identity(), RowIdentity::Unknown);
    assert!(!table.is_view());
}

#[test]
fn digits_and_underscores_are_accepted() {
    assert_eq!(Table::parse("order_items_2024").unwrap().name(), "order_items_2024");
    assert_eq!(Table::parse("_").unwrap().name(), "_");
    assert_eq!(Table::parse("42").unwrap().name(), "42");
}

#[test]
fn letters_of_any_script_are_accepted() {
    assert_eq!(Table::parse("caf\u{e9}").unwrap().name(), "caf\u{e9}");
}

#[test]
fn empty_name_is_refused() {
    assert_eq!(
        Table::parse(""),
        Err("Table name is empty or starts with sqlite_".to_string())
    );
}

#[test]
fn reserved_prefix_is_refused() {
    assert_eq!(
        Table::parse("sqlite_master"),
        Err("Table name is empty or starts with sqlite_".to_string())
    );
    assert_eq!(
        Table::parse("sqlite_"),
        Err("Table name is empty or starts with sqlite_".to_string())
    );
    assert!(Table::parse("sqlite").is_ok());
    assert!(Table::parse("my_sqlite_table").is_ok());
}

#[test]
fn other_characters_are_refused() {
    for name in ["my table", "a;b", "t\"", "x-y", "drop table t; --", "a.b"] {
        assert_eq!(
            Table::parse(name),
            Err("Table name contains invalid characters".to_string())
        );
    }
}

#[test]
fn reserved_prefix_is_reported_before_characters() {
    assert_eq!(
        Table::parse("sqlite_ bad"),
        Err("Table name is empty or starts with sqlite_".to_string())
    );
}

#[test]
fn table_parses_from_str() {
    assert_eq!("people".parse::<Table>().unwrap().name(), "people");
    assert!("no way".parse::<Table>().is_err());
}

#[test]
fn kind_is_set_and_name_is_kept() {
    let table = Table::parse("people").unwrap().with_kind(RowIdentity::Present, false);
    assert_eq!(table.name(), "people");
    assert_eq!(table.row_identity(), RowIdentity::Present);
    assert!(!table.is_view());
    let view = Table::parse("recent").unwrap().with_kind(RowIdentity::Unknown, true);
    assert!(view.is_view());
    assert_eq!(view.clone(), view);
}

#[test]
fn table_from_catalogue_row() {
    let row = Row::new(vec![Value::Text("people".to_string()), Value::Text("table".to_string())]);
    let table = Table::from_row(&row).unwrap();
    assert_eq!(table.name(), "people");
    assert!(!table.is_view());
    assert_eq!(table.row_identity(), RowIdentity::Unknown);
    let row = Row::new(vec![Value::Text("recent".to_string()), Value::Text("view".to_string())]);
    assert!(Table::from_row(&row).unwrap().is_view());
}

#[test]
fn catalogue_rows_of_another_shape_list_nothing() {
    let short = Row::new(vec![Value::Text("people".to_string())]);
    assert_eq!(Table::from_row(&short), None);
    let invalid = Row::new(vec![Value::Text("my table".to_string()), Value::Text("table".to_string())]);
    assert_eq!(Table::from_row(&invalid), None);
    let untyped = Row::new(vec![Value::Text("people".to_string()), Value::Null]);
    assert_eq!(Table::from_row(&untyped), None);
}
