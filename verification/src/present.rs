//! How rows and cells are put on screen: titles, widths, tooltips, the
//! targets that actions are called with, and what is said afterwards.

use vstd::prelude::*;
use vstd::string::StringExecFns;
use crate::affinity::Affinity;
use crate::column::{separator_named, Column, ColumnSeparator};
use crate::database::SortOrder;
use crate::table::Table;
use crate::text::{
    chars_of, decimal, decimal_of, digit_of, lemma_prefix_len, prefix_len, prefix_length,
    same_text,
};
use crate::value::{tag_model, Value, ValueModel};

verus! {

/// The sign put beside what belongs to a primary key: a white diamond.
pub const SYMBOL_KEY: &'static str = "\u{25c7}";

/// Longest copied value, in bytes, that is quoted when the copy is confirmed.
pub const LONGEST_QUOTED: usize = 96;

/// How wide a column is shown, and whether the width can be changed.
#[derive(Clone, Copy, Debug, PartialEq, Eq, Structural)]
pub struct ColumnWidth {
    pub width: i32,
    pub resizable: bool,
}

/// The width for an affinity: text gets more room, and a blob column keeps
/// its width.
pub open spec fn width_of(a: Affinity) -> ColumnWidth {
    match a {
        Affinity::BLOB => ColumnWidth { width: 128, resizable: false },
        Affinity::TEXT => ColumnWidth { width: 192, resizable: true },
        _ => ColumnWidth { width: 128, resizable: true },
    }
}

/// The width of a column of the given affinity.
pub fn column_width(a: Affinity) -> (w: ColumnWidth)
    ensures
        w == width_of(a),
{
    match a {
        Affinity::BLOB => ColumnWidth { width: 128, resizable: false },
        Affinity::TEXT => ColumnWidth { width: 192, resizable: true },
        _ => ColumnWidth { width: 128, resizable: true },
    }
}

/// A column's title: its name, with the key sign behind it where the column
/// belongs to the primary key.
pub open spec fn title_of(name: Seq<char>, primary_key: bool) -> Seq<char> {
    if primary_key {
        name + " "@ + SYMBOL_KEY@
    } else {
        name
    }
}

/// The title of a column.
pub fn column_title(column: &Column) -> (r: String)
    ensures
        r@ == title_of(column@.name, column@.primary_key),
{
    let mut out = column.name.clone();
    if column.primary_key {
        out.append(" ");
        out.append(SYMBOL_KEY);
    }
    out
}

/// Whether a value is shown dimmed: a null, an empty numeric and a blob are.
pub open spec fn dimmed_model(v: ValueModel) -> bool {
    match v {
        ValueModel::Null => true,
        ValueModel::Numeric(t) => t.len() == 0,
        ValueModel::Blob(_, _) => true,
        _ => false,
    }
}

/// Whether a value is shown dimmed.
pub fn is_dimmed(v: &Value) -> (b: bool)
    ensures
        b == dimmed_model(v@),
{
    match v {
        Value::Null => true,
        Value::Numeric(t) => t.as_str().is_empty(),
        Value::Blob(_, _) => true,
        _ => false,
    }
}

/// What a cell's tooltip says of its value: the storage class and the
/// value; of a blob the preview; of a null only that.
pub open spec fn described(v: ValueModel) -> Seq<char> {
    match v {
        ValueModel::Null => "NULL"@,
        ValueModel::Numeric(t) => if t.len() == 0 {
            "NULL"@
        } else {
            tag_model(v) + " "@ + t
        },
        ValueModel::Blob(_, preview) => tag_model(v) + " "@ + preview + " \u{2026}"@,
        _ => tag_model(v) + " "@ + crate::value::format_model(v),
    }
}

/// A cell's tooltip: the description of its value, marked where the column
/// belongs to the primary key.
pub open spec fn tooltip_of(v: ValueModel, primary_key: bool) -> Seq<char> {
    if primary_key {
        SYMBOL_KEY@ + " PRIMARY_KEY  "@ + described(v)
    } else {
        described(v)
    }
}

/// The tooltip of a cell.
pub fn cell_tooltip(v: &Value, primary_key: bool) -> (r: String)
    ensures
        r@ == tooltip_of(v@, primary_key),
{
    let mut out = String::new();
    if primary_key {
        out.append(SYMBOL_KEY);
        out.append(" PRIMARY_KEY  ");
    }
    let ghost lead = out@;
    match v {
        Value::Null => out.append("NULL"),
        Value::Numeric(t) => {
            if t.as_str().is_empty() {
                out.append("NULL");
            } else {
                out.append(v.type_tag());
                out.append(" ");
                out.append(t.as_str());
            }
        },
        Value::Blob(_, preview) => {
            out.append(v.type_tag());
            out.append(" ");
            out.append(preview.as_str());
            out.append(" \u{2026}");
        },
        _ => {
            out.append(v.type_tag());
            out.append(" ");
            out.append(v.format().as_str());
        },
    }
    assert(out@ =~= lead + described(v@));
    assert(out@ =~= tooltip_of(v@, primary_key));
    out
}

/// The number shown for the row at a position: rows are numbered from 1.
pub fn row_number_text(position: u32) -> (r: String)
    ensures
        r@ == decimal_of(position as nat + 1),
{
    decimal(position as u64 + 1)
}

/// The tooltip of the number of a row: the number and the count of rows.
pub fn index_tooltip(position: u32, row_count: u32) -> (r: String)
    ensures
        r@ == decimal_of(position as nat + 1) + " / "@ + decimal_of(row_count as nat),
{
    let mut out = decimal(position as u64 + 1);
    out.append(" / ");
    out.append(decimal(row_count as u64).as_str());
    out
}

/// The target that the action of copying a row is called with.
pub fn copy_row_target(row: u32) -> (r: String)
    ensures
        r@ == "win.copy-row::"@ + decimal_of(row as nat),
{
    let mut out = "win.copy-row::".to_owned();
    out.append(decimal(row as u64).as_str());
    out
}

/// The target that the action of copying a value is called with.
pub fn copy_val_target(row: u32, col: u32) -> (r: String)
    ensures
        r@ == "win.copy-val::"@ + decimal_of(row as nat) + ":"@ + decimal_of(col as nat),
{
    let mut out = "win.copy-val::".to_owned();
    out.append(decimal(row as u64).as_str());
    out.append(":");
    out.append(decimal(col as u64).as_str());
    out
}

/// The target that the action of switching to a table is called with: the
/// table's position in the list of tables.
pub fn table_target(index: u32) -> (r: String)
    ensures
        r@ == "win.table::"@ + decimal_of(index as nat),
{
    let mut out = "win.table::".to_owned();
    out.append(decimal(index as u64).as_str());
    out
}

/// The heading over the list of tables: it says how many there are.
pub fn tables_heading(count: usize) -> (r: String)
    ensures
        r@ == "Tables \u{2013} "@ + decimal_of(count as nat),
{
    let mut out = "Tables \u{2013} ".to_owned();
    out.append(decimal(count as u64).as_str());
    out
}

/// What is said after a row was copied.
pub fn row_copied_toast(row: u32) -> (r: String)
    ensures
        r@ == "Row "@ + decimal_of(row as nat + 1) + " copied to clipboard"@,
{
    let mut out = "Row ".to_owned();
    out.append(decimal(row as u64 + 1).as_str());
    out.append(" copied to clipboard");
    out
}

/// What is said after a value was copied: the value in quotes, set in
/// tabular figures. After a long value nothing is said.
pub fn value_copied_toast(selection: &str) -> (r: Option<String>)
    ensures
        match r {
            Some(t) => selection.len() < LONGEST_QUOTED && t@
                == "<span font_features='tnum=1'>\u{2018}"@ + selection@
                + "\u{2019}  copied to clipboard</span>"@,
            None => selection.len() >= LONGEST_QUOTED,
        },
{
    if selection.len() < LONGEST_QUOTED {
        let mut out = "<span font_features='tnum=1'>\u{2018}".to_owned();
        out.append(selection);
        out.append("\u{2019}  copied to clipboard</span>");
        Some(out)
    } else {
        None
    }
}

/// The order that a setting names.
pub open spec fn order_named(s: Seq<char>) -> Option<SortOrder> {
    if s == "newest-first"@ {
        Some(SortOrder::Descending)
    } else if s == "oldest-first"@ {
        Some(SortOrder::Ascending)
    } else {
        None
    }
}

/// The order that a setting names, if it names one.
pub fn row_order_named(s: &str) -> (r: Option<SortOrder>)
    ensures
        r == order_named(s@),
{
    if same_text(s, "newest-first") {
        Some(SortOrder::Descending)
    } else if same_text(s, "oldest-first") {
        Some(SortOrder::Ascending)
    } else {
        None
    }
}

/// The order that rows are shown in: the one that the setting names, and
/// oldest first where it names none.
pub fn row_order_setting(s: &str) -> (r: SortOrder)
    ensures
        r == match order_named(s@) {
            Some(order) => order,
            None => SortOrder::Ascending,
        },
{
    match row_order_named(s) {
        Some(order) => order,
        None => SortOrder::Ascending,
    }
}

/// The separator that copied rows are written with: the one that the
/// setting names, and tabs where it names none.
pub fn column_separator_setting(s: &str) -> (r: ColumnSeparator)
    ensures
        r == match separator_named(s@) {
            Some(separator) => separator,
            None => ColumnSeparator::Tabs,
        },
{
    match ColumnSeparator::parse(s) {
        Ok(separator) => separator,
        Err(_) => ColumnSeparator::Tabs,
    }
}

/// The table to show first: the first one of that name where a name is
/// given, and the first of all otherwise.
pub fn pick_table(tables: &Vec<Table>, name: Option<&str>) -> (r: Result<usize, String>)
    ensures
        match (name, r) {
            (Some(n), Ok(i)) => i < tables.len() && tables[i as int]@.name == n@ && forall|j: int|
                0 <= j < i ==> (#[trigger] tables[j])@.name != n@,
            (Some(n), Err(e)) => e@ == "Table does not exist"@ && forall|j: int|
                0 <= j < tables.len() ==> (#[trigger] tables[j])@.name != n@,
            (None, Ok(i)) => i == 0 && tables.len() > 0,
            (None, Err(e)) => e@ == "Table list empty"@ && tables.len() == 0,
        },
{
    match name {
        Some(n) => {
            let mut i: usize = 0;
            while i < tables.len()
                invariant
                    i <= tables.len(),
                    name == Some(n),
                    forall|j: int| 0 <= j < i ==> (#[trigger] tables[j])@.name != n@,
                decreases tables.len() - i,
            {
                if same_text(tables[i].name(), n) {
                    return Ok(i);
                }
                i = i + 1;
            }
            Err("Table does not exist".to_owned())
        },
        None => {
            if tables.len() > 0 {
                Ok(0)
            } else {
                Err("Table list empty".to_owned())
            }
        },
    }
}

/// Whether a character is a decimal digit.
pub open spec fn is_digit(c: char) -> bool {
    '0' as u32 <= c as u32 <= '9' as u32
}

/// Whether every character is a decimal digit.
pub open spec fn all_digits(s: Seq<char>) -> bool {
    forall|i: int| 0 <= i < s.len() ==> is_digit(#[trigger] s[i])
}

/// The number that a text of decimal digits stands for.
pub open spec fn digits_value(s: Seq<char>) -> nat
    decreases s.len(),
{
    if s.len() == 0 {
        0
    } else {
        digits_value(s.drop_last()) * 10 + (s.last() as u32 - '0' as u32) as nat
    }
}

/// The index that a text stands for: decimal digits, one at least, with a
/// plus sign before them or none, for a number of 32 bits.
pub open spec fn index_of_text(s: Seq<char>) -> Option<u32> {
    let body = if s.len() > 0 && s[0] == '+' {
        s.drop_first()
    } else {
        s
    };
    if body.len() > 0 && all_digits(body) && digits_value(body) <= u32::MAX {
        Some(digits_value(body) as u32)
    } else {
        None
    }
}

/// The row and the column that the target of a copy names: two indices
/// with a colon between them. A part that is no index counts as 0; a
/// target without a colon names nothing.
pub open spec fn cell_of_target(s: Seq<char>) -> Option<(u32, u32)> {
    let at = prefix_len(s, ':') as int;
    if at < s.len() {
        Some(
            (
                match index_of_text(s.take(at)) {
                    Some(row) => row,
                    None => 0,
                },
                match index_of_text(s.skip(at + 1)) {
                    Some(col) => col,
                    None => 0,
                },
            ),
        )
    } else {
        None
    }
}

/// The decimal text of a number holds digits only, one at least, and stands
/// for the number.
pub proof fn lemma_decimal_is_digits(n: nat)
    ensures
        decimal_of(n).len() > 0,
        all_digits(decimal_of(n)),
        digits_value(decimal_of(n)) == n,
    decreases n,
{
    if n < 10 {
        assert(decimal_of(n).drop_last() =~= Seq::<char>::empty());
        assert(digits_value(decimal_of(n).drop_last()) == 0);
    } else {
        lemma_decimal_is_digits(n / 10);
        let shorter = decimal_of(n / 10);
        let d = digit_of((n % 10) as int);
        assert(decimal_of(n) == shorter.push(d));
        assert(decimal_of(n).drop_last() =~= shorter);
        assert(decimal_of(n).last() == d);
        assert forall|i: int| 0 <= i < decimal_of(n).len() implies is_digit(
            #[trigger] decimal_of(n)[i],
        ) by {
            if i < shorter.len() {
                assert(decimal_of(n)[i] == shorter[i]);
            }
        }
    }
}

/// An index that is written out in decimal is read back as it was.
pub proof fn lemma_index_round_trip(n: u32)
    ensures
        index_of_text(decimal_of(n as nat)) == Some(n),
{
    lemma_decimal_is_digits(n as nat);
    assert(is_digit(decimal_of(n as nat)[0]));
}

/// The target that a copy is called with names the row and the column that
/// it was made for.
pub proof fn lemma_cell_target_round_trip(row: u32, col: u32)
    ensures
        cell_of_target(decimal_of(row as nat) + ":"@ + decimal_of(col as nat)) == Some(
            (row, col),
        ),
{
    reveal_strlit(":");
    let left = decimal_of(row as nat);
    let right = decimal_of(col as nat);
    let whole = left + ":"@ + right;
    lemma_decimal_is_digits(row as nat);
    lemma_decimal_is_digits(col as nat);
    assert(":"@.len() == 1 && ":"@[0] == ':');
    assert forall|j: int| 0 <= j < left.len() implies whole[j] != ':' by {
        assert(whole[j] == left[j]);
        assert(is_digit(left[j]));
    }
    assert(whole[left.len() as int] == ':');
    lemma_prefix_len(whole, ':', left.len() as int);
    assert(whole.take(left.len() as int) =~= left);
    assert(whole.skip(left.len() as int + 1) =~= right);
    lemma_index_round_trip(row);
    lemma_index_round_trip(col);
}

/// The value of digits only grows as digits are added behind them.
proof fn lemma_digits_grow(s: Seq<char>, n: int)
    requires
        0 <= n <= s.len(),
    ensures
        digits_value(s.take(n)) <= digits_value(s),
    decreases s.len() - n,
{
    if n < s.len() {
        lemma_digits_grow(s.drop_last(), n);
        assert(s.drop_last().take(n) =~= s.take(n));
    } else {
        assert(s.take(n) =~= s);
    }
}

/// The index that the characters from `from` up to `to` stand for.
fn index_of_chars(chars: &Vec<char>, from: usize, to: usize) -> (r: Option<u32>)
    requires
        from <= to <= chars.len(),
    ensures
        r == index_of_text(chars@.subrange(from as int, to as int)),
{
    let ghost s = chars@.subrange(from as int, to as int);
    let start = if from < to && chars[from] == '+' {
        from + 1
    } else {
        from
    };
    let ghost body = chars@.subrange(start as int, to as int);
    assert(body =~= if s.len() > 0 && s[0] == '+' {
        s.drop_first()
    } else {
        s
    });
    let ghost goal = index_of_text(s);
    if start == to {
        return None;
    }
    let mut value: u64 = 0;
    let mut i: usize = start;
    assert(body.take(0) =~= Seq::<char>::empty());
    while i < to
        invariant
            start <= i <= to <= chars.len(),
            body == chars@.subrange(start as int, to as int),
            goal == index_of_text(chars@.subrange(from as int, to as int)),
            goal == if body.len() > 0 && all_digits(body) && digits_value(body) <= u32::MAX {
                Some(digits_value(body) as u32)
            } else {
                None
            },
            from <= start,
            all_digits(body.take(i - start)),
            value == digits_value(body.take(i - start)),
            value <= u32::MAX,
        decreases to - i,
    {
        let c = chars[i];
        let ghost next = body.take(i - start + 1);
        assert(next.drop_last() =~= body.take(i - start));
        assert(next.last() == c);
        let code = c as u32;
        if code < '0' as u32 || code > '9' as u32 {
            assert(!is_digit(body[i - start]));
            return None;
        }
        let d = (code - '0' as u32) as u64;
        value = value * 10 + d;
        assert(value == digits_value(next));
        assert(all_digits(next)) by {
            assert forall|j: int| 0 <= j < next.len() implies is_digit(#[trigger] next[j]) by {
                if j < next.len() - 1 {
                    assert(next[j] == body.take(i - start)[j]);
                }
            }
        }
        if value > u32::MAX as u64 {
            proof {
                lemma_digits_grow(body, i - start + 1);
            }
            return None;
        }
        i = i + 1;
    }
    assert(body.take(to - start) =~= body);
    Some(value as u32)
}

/// The index that a text stands for, if it stands for one.
pub fn parse_index(s: &str) -> (r: Option<u32>)
    ensures
        r == index_of_text(s@),
{
    let chars = chars_of(s);
    assert(chars@.subrange(0, chars.len() as int) =~= s@);
    index_of_chars(&chars, 0, chars.len())
}

/// The row and the column that the target of a copy names.
pub fn parse_cell_target(s: &str) -> (r: Option<(u32, u32)>)
    ensures
        r == cell_of_target(s@),
{
    let chars = chars_of(s);
    let at = prefix_length(&chars, ':');
    if at == chars.len() {
        return None;
    }
    proof {
        assert(chars@.subrange(0, at as int) =~= s@.take(at as int));
        assert(chars@.subrange(at + 1, chars.len() as int) =~= s@.skip(at + 1));
    }
    let row = match index_of_chars(&chars, 0, at) {
        Some(row) => row,
        None => 0,
    };
    let col = match index_of_chars(&chars, at + 1, chars.len()) {
        Some(col) => col,
        None => 0,
    };
    Some((row, col))
}

} // verus!
