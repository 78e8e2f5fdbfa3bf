//! Column definitions, and the separators put between the cells of a row.

use vstd::prelude::*;
use crate::affinity::{affinity_of, Affinity};
use crate::row::Row;
use crate::text::same_text;
use crate::value::{Value, ValueModel};

verus! {

/// One column of a table, as its definition gives it.
#[derive(Debug, PartialEq, Eq)]
pub struct Column {
    /// Ordinal position.
    pub id: u64,
    pub name: String,
    pub affinity: Affinity,
    pub primary_key: bool,
    pub not_null: bool,
    /// Text of the default value, if one is declared.
    pub default: Option<String>,
}

/// What a [`Column`] stands for.
pub struct ColumnModel {
    pub id: int,
    pub name: Seq<char>,
    pub affinity: Affinity,
    pub primary_key: bool,
    pub not_null: bool,
    pub default: Option<Seq<char>>,
}

impl View for Column {
    type V = ColumnModel;

    open spec fn view(&self) -> ColumnModel {
        ColumnModel {
            id: self.id as int,
            name: self.name@,
            affinity: self.affinity,
            primary_key: self.primary_key,
            not_null: self.not_null,
            default: match self.default {
                Some(t) => Some(t@),
                None => None,
            },
        }
    }
}

impl Clone for Column {
    fn clone(&self) -> (c: Column)
        ensures
            c@ == self@,
    {
        Column {
            id: self.id,
            name: self.name.clone(),
            affinity: self.affinity,
            primary_key: self.primary_key,
            not_null: self.not_null,
            default: match &self.default {
                Some(t) => Some(t.clone()),
                None => None,
            },
        }
    }
}

/// The column that one row of a table's definition describes: its
/// position, name, declared type, not-null flag, default and place in the
/// primary key, in this order. A row of another shape describes none.
pub open spec fn column_of(cells: Seq<ValueModel>) -> Option<ColumnModel> {
    if cells.len() < 6 {
        None
    } else {
        match (cells[0], cells[1], cells[2], cells[3], cells[5]) {
            (
                ValueModel::Integer(id),
                ValueModel::Text(name),
                ValueModel::Text(declared),
                ValueModel::Integer(not_null),
                ValueModel::Integer(key),
            ) => if 0 <= id && (cells[4] is Null || cells[4] is Text) {
                Some(
                    ColumnModel {
                        id,
                        name,
                        affinity: affinity_of(declared),
                        primary_key: key != 0,
                        not_null: not_null != 0,
                        default: match cells[4] {
                            ValueModel::Text(t) => Some(t),
                            _ => None,
                        },
                    },
                )
            } else {
                None
            },
            _ => None,
        }
    }
}

/// The model of a column that may be there.
pub open spec fn column_answer(c: Option<Column>) -> Option<ColumnModel> {
    match c {
        Some(column) => Some(column@),
        None => None,
    }
}

impl Column {
    /// The column that one row of a table's definition describes.
    pub fn from_row(row: &Row) -> (r: Option<Column>)
        ensures
            column_answer(r) == column_of(row@),
    {
        if row.arity() < 6 {
            return None;
        }
        let id = match row.cell(0) {
            Value::Integer(n) => if *n >= 0 {
                *n as u64
            } else {
                return None;
            },
            _ => {
                return None;
            },
        };
        let name = match row.cell(1) {
            Value::Text(t) => t.clone(),
            _ => {
                return None;
            },
        };
        let affinity = match row.cell(2) {
            Value::Text(t) => Affinity::parse(t.as_str()),
            _ => {
                return None;
            },
        };
        let not_null = match row.cell(3) {
            Value::Integer(n) => *n != 0,
            _ => {
                return None;
            },
        };
        let default = match row.cell(4) {
            Value::Null => None,
            Value::Text(t) => Some(t.clone()),
            _ => {
                return None;
            },
        };
        let primary_key = match row.cell(5) {
            Value::Integer(n) => *n != 0,
            _ => {
                return None;
            },
        };
        Some(Column { id, name, affinity, primary_key, not_null, default })
    }
}

/// What stands between the cells of a row that is written out as text.
#[derive(Clone, Copy, Debug, PartialEq, Eq, Structural)]
pub enum ColumnSeparator {
    Tabs,
    Spaces,
    Commas,
    Markdown,
}

impl Default for ColumnSeparator {
    fn default() -> (c: ColumnSeparator)
        ensures
            c == ColumnSeparator::Tabs,
    {
        ColumnSeparator::Tabs
    }
}

/// The separator that a setting names, by its word or by its character.
pub open spec fn separator_named(s: Seq<char>) -> Option<ColumnSeparator> {
    if s == "tabs"@ || s == "\t"@ {
        Some(ColumnSeparator::Tabs)
    } else if s == "spaces"@ || s == " "@ {
        Some(ColumnSeparator::Spaces)
    } else if s == "commas"@ || s == ","@ {
        Some(ColumnSeparator::Commas)
    } else if s == "markdown"@ {
        Some(ColumnSeparator::Markdown)
    } else {
        None
    }
}

/// The text put between two cells.
pub open spec fn separator_text(c: ColumnSeparator) -> Seq<char> {
    match c {
        ColumnSeparator::Tabs => "\t"@,
        ColumnSeparator::Spaces => " "@,
        ColumnSeparator::Commas => ","@,
        ColumnSeparator::Markdown => " | "@,
    }
}

impl ColumnSeparator {
    /// The separator that `s` names, or the reason why it names none.
    pub fn parse(s: &str) -> (r: Result<ColumnSeparator, String>)
        ensures
            match r {
                Ok(c) => separator_named(s@) == Some(c),
                Err(e) => separator_named(s@) == None::<ColumnSeparator> && e@
                    == "Invalid column separator"@,
            },
    {
        if same_text(s, "tabs") || same_text(s, "\t") {
            Ok(ColumnSeparator::Tabs)
        } else if same_text(s, "spaces") || same_text(s, " ") {
            Ok(ColumnSeparator::Spaces)
        } else if same_text(s, "commas") || same_text(s, ",") {
            Ok(ColumnSeparator::Commas)
        } else if same_text(s, "markdown") {
            Ok(ColumnSeparator::Markdown)
        } else {
            Err("Invalid column separator".to_owned())
        }
    }

    /// The text put between two cells.
    pub fn text(&self) -> (r: &'static str)
        ensures
            r@ == separator_text(*self),
    {
        match self {
            ColumnSeparator::Tabs => "\t",
            ColumnSeparator::Spaces => " ",
            ColumnSeparator::Commas => ",",
            ColumnSeparator::Markdown => " | ",
        }
    }
}

impl std::str::FromStr for ColumnSeparator {
    type Err = String;

    fn from_str(s: &str) -> (r: Result<Self, Self::Err>)
        ensures
            match r {
                Ok(c) => separator_named(s@) == Some(c),
                Err(e) => separator_named(s@) == None::<ColumnSeparator> && e@
                    == "Invalid column separator"@,
            },
    {
        ColumnSeparator::parse(s)
    }
}

} // verus!
