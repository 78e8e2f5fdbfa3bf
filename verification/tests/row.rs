use bobby::column::ColumnSeparator;
use bobby::row::{clone_values, Row};
use bobby::value::Value;

fn text(s: &str) -> Value {
    Value::Text(s.to_string())
}

fn sample() -> Row {
    Row::new(vec![text("1"), text("NULL"), text("3.5")])
}

#[test]
fn markdown_row() {
    assert_eq!(sample().format_with(ColumnSeparator::Markdown), "| 1 | NULL | 3.5 |");
}

#[test]
fn tabbed_row() {
    assert_eq!(sample().format_with(ColumnSeparator::Tabs), "1\tNULL\t3.5");
}

#[test]
fn spaced_row() {
    assert_eq!(sample().format_with(ColumnSeparator::Spaces), "1 NULL 3.5");
}

#[test]
fn comma_row() {
    assert_eq!(sample().format_with(ColumnSeparator::Commas), "1,NULL,3.5");
}

#[test]
fn typed_cells_are_written_as_they_are_shown() {
    let row = Row::new(vec![
        Value::Integer(-12),
        Value::Null,
        Value::Real("3.5".to_string()),
        Value::of_blob(&[1, 2, 3, 4]),
        Value::Numeric(String::new()),
    ]);
    assert_eq!(
        row.format_with(ColumnSeparator::Markdown),
        "| -12 | \u{2014} | 3.5 | 4 BYTES | \u{2014} |"
    );
    assert_eq!(row.format_with(ColumnSeparator::Commas), "-12,\u{2014},3.5,4 BYTES,\u{2014}");
}

#[test]
fn row_of_one_cell_has_no_separator() {
    let row = Row::new(vec![text("only")]);
    assert_eq!(row.format_with(ColumnSeparator::Tabs), "only");
    assert_eq!(row.format_with(ColumnSeparator::Markdown), "| only |");
}

#[test]
fn empty_row() {
    let row = Row::new(Vec::new());
    assert_eq!(row.arity(), 0);
    assert_eq!(row.format_with(ColumnSeparator::Tabs), "");
    assert_eq!(row.format_with(ColumnSeparator::Markdown), "|  |");
}

#[test]
fn cells_come_back_in_order() {
    let row = sample();
    assert_eq!(row.arity(), 3);
    assert_eq!(row.cells(), vec![text("1"), text("NULL"), text("3.5")]);
    assert_eq!(row.cell(1), &text("NULL"));
}

#[test]
fn row_clone_is_equal() {
    let row = sample();
    assert_eq!(row.clone(), row);
    assert_eq!(clone_values(&row.cells()), row.cells());
}
