use bobby::affinity::Affinity;
use bobby::column::{Column, ColumnSeparator};
use bobby::database::SortOrder;
use bobby::present::{
    cell_tooltip, column_title, column_width, copy_row_target, copy_val_target, index_tooltip,
    is_dimmed, parse_cell_target, parse_index, pick_table, row_copied_toast, row_number_text,
    column_separator_setting, row_order_named, row_order_setting, table_target, tables_heading,
    value_copied_toast, ColumnWidth, SYMBOL_KEY,
};
use bobby::table::Table;
use bobby::value::Value;

fn column(name: &str, affinity: Affinity, primary_key: bool) -> Column {
    Column { id: 0, name: name.to_string(), affinity, primary_key, not_null: false, default: None }
}

#[test]
fn key_columns_carry_the_key_sign() {
    assert_eq!(SYMBOL_KEY, "\u{25c7}");
    assert_eq!(column_title(&column("id", Affinity::INTEGER, true)), "id \u{25c7}");
    assert_eq!(column_title(&column("name", Affinity::TEXT, false)), "name");
}

#[test]
fn widths_by_affinity() {
    assert_eq!(column_width(Affinity::BLOB), ColumnWidth { width: 128, resizable: false });
    assert_eq!(column_width(Affinity::TEXT), ColumnWidth { width: 192, resizable: true });
    assert_eq!(column_width(Affinity::INTEGER), ColumnWidth { width: 128, resizable: true });
    assert_eq!(column_width(Affinity::REAL), ColumnWidth { width: 128, resizable: true });
    assert_eq!(column_width(Affinity::NUMERIC), ColumnWidth { width: 128, resizable: true });
}

#[test]
fn nulls_and_blobs_are_dimmed() {
    assert!(is_dimmed(&Value::Null));
    assert!(is_dimmed(&Value::Numeric(String::new())));
    assert!(is_dimmed(&Value::of_blob(&[1, 2])));
    assert!(!is_dimmed(&Value::Numeric("1".to_string())));
    assert!(!is_dimmed(&Value::Integer(0)));
    assert!(!is_dimmed(&Value::Real("0.5".to_string())));
    assert!(!is_dimmed(&Value::Text(String::new())));
}

#[test]
fn tooltips_name_the_storage_class() {
    assert_eq!(cell_tooltip(&Value::Integer(-4), false), "INTEGER -4");
    assert_eq!(cell_tooltip(&Value::Real("2.5".to_string()), false), "REAL 2.5");
    assert_eq!(cell_tooltip(&Value::Text("hi there".to_string()), false), "TEXT hi there");
    assert_eq!(cell_tooltip(&Value::Numeric("12e3".to_string()), false), "NUMERIC 12e3");
    assert_eq!(cell_tooltip(&Value::Null, false), "NULL");
    assert_eq!(cell_tooltip(&Value::Numeric(String::new()), false), "NULL");
    assert_eq!(cell_tooltip(&Value::of_blob(&[0xca, 0xfe]), false), "BLOB CA FE \u{2026}");
}

#[test]
fn tooltips_mark_the_primary_key() {
    assert_eq!(cell_tooltip(&Value::Integer(7), true), "\u{25c7} PRIMARY_KEY  INTEGER 7");
    assert_eq!(cell_tooltip(&Value::Null, true), "\u{25c7} PRIMARY_KEY  NULL");
}

#[test]
fn rows_are_numbered_from_one() {
    assert_eq!(row_number_text(0), "1");
    assert_eq!(row_number_text(41), "42");
    assert_eq!(row_number_text(u32::MAX), "4294967296");
    assert_eq!(index_tooltip(0, 500_000), "1 / 500000");
    assert_eq!(index_tooltip(499_999, 500_000), "500000 / 500000");
}

#[test]
fn action_targets() {
    assert_eq!(copy_row_target(12), "win.copy-row::12");
    assert_eq!(copy_val_target(12, 3), "win.copy-val::12:3");
    assert_eq!(copy_val_target(0, 0), "win.copy-val::0:0");
    assert_eq!(table_target(3), "win.table::3");
}

#[test]
fn heading_counts_the_tables() {
    assert_eq!(tables_heading(0), "Tables \u{2013} 0");
    assert_eq!(tables_heading(12), "Tables \u{2013} 12");
}

#[test]
fn confirmations() {
    assert_eq!(row_copied_toast(0), "Row 1 copied to clipboard");
    assert_eq!(row_copied_toast(99), "Row 100 copied to clipboard");
    assert_eq!(
        value_copied_toast("abc"),
        Some(
            "<span font_features='tnum=1'>\u{2018}abc\u{2019}  copied to clipboard</span>"
                .to_string()
        )
    );
}

#[test]
fn long_values_are_not_quoted() {
    assert!(value_copied_toast(&"x".repeat(95)).is_some());
    assert_eq!(value_copied_toast(&"x".repeat(96)), None);
    // Length counts bytes: 48 letters of two bytes each.
    assert_eq!(value_copied_toast(&"\u{e9}".repeat(48)), None);
    assert!(value_copied_toast(&"\u{e9}".repeat(47)).is_some());
}

#[test]
fn row_orders_by_name() {
    assert_eq!(row_order_named("newest-first"), Some(SortOrder::Descending));
    assert_eq!(row_order_named("oldest-first"), Some(SortOrder::Ascending));
    assert_eq!(row_order_named(""), None);
    assert_eq!(row_order_named("Newest-First"), None);
}

#[test]
fn table_is_picked_by_name_or_first() {
    let tables: Vec<Table> =
        ["apple", "mango", "zebra", "mango"].iter().map(|n| Table::parse(n).unwrap()).collect();
    assert_eq!(pick_table(&tables, None), Ok(0));
    assert_eq!(pick_table(&tables, Some("apple")), Ok(0));
    assert_eq!(pick_table(&tables, Some("mango")), Ok(1));
    assert_eq!(pick_table(&tables, Some("zebra")), Ok(2));
    assert_eq!(pick_table(&tables, Some("kiwi")), Err("Table does not exist".to_string()));
    assert_eq!(pick_table(&Vec::new(), None), Err("Table list empty".to_string()));
    assert_eq!(pick_table(&Vec::new(), Some("apple")), Err("Table does not exist".to_string()));
}

#[test]
fn indices_are_read_from_decimal() {
    assert_eq!(parse_index("0"), Some(0));
    assert_eq!(parse_index("42"), Some(42));
    assert_eq!(parse_index("007"), Some(7));
    assert_eq!(parse_index("+15"), Some(15));
    assert_eq!(parse_index("4294967295"), Some(u32::MAX));
    assert_eq!(parse_index("4294967296"), None);
    assert_eq!(parse_index("99999999999999999999999999"), None);
    assert_eq!(parse_index(""), None);
    assert_eq!(parse_index("+"), None);
    assert_eq!(parse_index("-1"), None);
    assert_eq!(parse_index("++1"), None);
    assert_eq!(parse_index("1+"), None);
    assert_eq!(parse_index("12a"), None);
    assert_eq!(parse_index(" 12"), None);
    assert_eq!(parse_index("\u{661}"), None);
}

#[test]
fn written_indices_are_read_back() {
    for n in [0u32, 1, 9, 10, 99, 100, 65_535, 499_999, u32::MAX - 1, u32::MAX] {
        assert_eq!(parse_index(&n.to_string()), Some(n));
        assert_eq!(parse_index(&row_number_text(n)).map(|v| v as u64), if n == u32::MAX {
            None
        } else {
            Some(n as u64 + 1)
        });
    }
}

#[test]
fn cell_targets_are_read() {
    assert_eq!(parse_cell_target("12:3"), Some((12, 3)));
    assert_eq!(parse_cell_target("0:0"), Some((0, 0)));
    assert_eq!(parse_cell_target("12"), None);
    assert_eq!(parse_cell_target(""), None);
    // A part that is no index counts as 0.
    assert_eq!(parse_cell_target(":"), Some((0, 0)));
    assert_eq!(parse_cell_target("x:5"), Some((0, 5)));
    assert_eq!(parse_cell_target("5:y"), Some((5, 0)));
    // Only the first colon parts the target.
    assert_eq!(parse_cell_target("1:2:3"), Some((1, 0)));
}

#[test]
fn cell_targets_are_read_back() {
    for (row, col) in [(0u32, 0u32), (12, 3), (499_999, 17), (u32::MAX, u32::MAX)] {
        let target = copy_val_target(row, col);
        let named = target.strip_prefix("win.copy-val::").unwrap();
        assert_eq!(parse_cell_target(named), Some((row, col)));
    }
}

#[test]
fn settings_that_name_nothing_fall_back() {
    assert_eq!(row_order_setting("newest-first"), SortOrder::Descending);
    assert_eq!(row_order_setting("oldest-first"), SortOrder::Ascending);
    assert_eq!(row_order_setting(""), SortOrder::Ascending);
    assert_eq!(row_order_setting("sideways"), SortOrder::Ascending);
    assert_eq!(column_separator_setting("markdown"), ColumnSeparator::Markdown);
    assert_eq!(column_separator_setting(","), ColumnSeparator::Commas);
    assert_eq!(column_separator_setting("tabs"), ColumnSeparator::Tabs);
    assert_eq!(column_separator_setting(""), ColumnSeparator::Tabs);
    assert_eq!(column_separator_setting("semicolons"), ColumnSeparator::Tabs);
}
