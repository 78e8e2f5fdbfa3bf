//! Table names.

use vstd::prelude::*;
use crate::database::Database;
use crate::error::FetchError;
use crate::row::Row;
use crate::text::{begins_with, chars_of, matches_at, same_text};
use crate::value::{Value, ValueModel};

verus! {

/// Whether a table has a stable row identifier to order its rows by.
#[derive(Clone, Copy, Debug, PartialEq, Eq, Structural)]
pub enum RowIdentity {
    Present,
    /// The table was declared without one.
    Absent,
    /// Not known, as for a view.
    Unknown,
}

/// Whether a character is a letter or a number, as Unicode defines them.
pub uninterp spec fn alphanumeric(c: char) -> bool;

/// `char::is_alphanumeric`: whether the character is alphabetic or numeric,
/// which depends on the character alone.
#[verifier::external_body]
fn is_alphanumeric(c: char) -> (b: bool)
    ensures
        b == alphanumeric(c),
{
    c.is_alphanumeric()
}

/// Whether every character is a letter, a number or an underscore.
pub open spec fn name_chars_ok(s: Seq<char>) -> bool {
    forall|i: int| 0 <= i < s.len() ==> alphanumeric(#[trigger] s[i]) || s[i] == '_'
}

/// Whether the name is reserved or empty.
pub open spec fn name_reserved(s: Seq<char>) -> bool {
    s.len() == 0 || begins_with(s, "sqlite_"@)
}

/// Whether `s` can name a table.
pub open spec fn valid_name(s: Seq<char>) -> bool {
    !name_reserved(s) && name_chars_ok(s)
}

/// The name of the table or view that one row of a database's catalogue
/// lists, and whether it is a view: the row holds the name and then the
/// kind, `table` or `view`. A row of another shape, or with a name that
/// is not valid, lists none.
pub open spec fn listed(cells: Seq<ValueModel>) -> Option<(Seq<char>, bool)> {
    if cells.len() < 2 {
        None
    } else {
        match (cells[0], cells[1]) {
            (ValueModel::Text(name), ValueModel::Text(kind)) => if valid_name(name) {
                Some((name, kind == "view"@))
            } else {
                None
            },
            _ => None,
        }
    }
}

/// A table or view, by its validated name.
#[derive(Debug, PartialEq, Eq)]
pub struct Table {
    name: String,
    row_id: RowIdentity,
    is_view: bool,
}

/// What a [`Table`] stands for.
pub struct TableModel {
    pub name: Seq<char>,
    pub row_id: RowIdentity,
    pub is_view: bool,
}

impl View for Table {
    type V = TableModel;

    closed spec fn view(&self) -> TableModel {
        TableModel { name: self.name@, row_id: self.row_id, is_view: self.is_view }
    }
}

impl Table {
    /// The name is valid.
    #[verifier::type_invariant]
    closed spec fn wf(&self) -> bool {
        valid_name(self.name@)
    }

    /// The table of that name, of which nothing more is known yet; or why
    /// the name is refused.
    pub fn parse(s: &str) -> (r: Result<Table, String>)
        ensures
            match r {
                Ok(t) => valid_name(s@) && t@.name == s@ && t@.row_id
                    == RowIdentity::Unknown && !t@.is_view,
                Err(e) => if name_reserved(s@) {
                    e@ == "Table name is empty or starts with sqlite_"@
                } else {
                    !name_chars_ok(s@) && e@ == "Table name contains invalid characters"@
                },
            },
    {
        let chars = chars_of(s);
        if chars.len() == 0 || matches_at(&chars, &chars_of("sqlite_"), 0) {
            return Err("Table name is empty or starts with sqlite_".to_owned());
        }
        let mut i: usize = 0;
        while i < chars.len()
            invariant
                i <= chars.len(),
                chars@ == s@,
                !name_reserved(s@),
                forall|j: int| 0 <= j < i ==> alphanumeric(#[trigger] chars[j]) || chars[j] == '_',
            decreases chars.len() - i,
        {
            let c = chars[i];
            if !(is_alphanumeric(c) || c == '_') {
                assert(!(alphanumeric(s@[i as int]) || s@[i as int] == '_'));
                return Err("Table name contains invalid characters".to_owned());
            }
            i = i + 1;
        }
        Ok(Table { name: s.to_owned(), row_id: RowIdentity::Unknown, is_view: false })
    }

    /// The table or view that one row of a database's catalogue lists.
    /// Whether it has a row identifier is not known yet.
    pub fn from_row(row: &Row) -> (r: Option<Table>)
        ensures
            match r {
                Some(t) => listed(row@) == Some((t@.name, t@.is_view))
                    && t@.row_id == RowIdentity::Unknown,
                None => listed(row@) == None::<(Seq<char>, bool)>,
            },
    {
        if row.arity() < 2 {
            return None;
        }
        match (row.cell(0), row.cell(1)) {
            (Value::Text(name), Value::Text(kind)) => {
                match Table::parse(name.as_str()) {
                    Ok(table) => Some(
                        table.with_kind(RowIdentity::Unknown, same_text(kind.as_str(), "view")),
                    ),
                    Err(_) => None,
                }
            },
            _ => None,
        }
    }

    /// The same table, with what is known of its kind.
    pub fn with_kind(self, row_id: RowIdentity, is_view: bool) -> (t: Table)
        ensures
            t@.name == self@.name,
            t@.row_id == row_id,
            t@.is_view == is_view,
    {
        proof {
            use_type_invariant(&self);
        }
        Table { name: self.name, row_id, is_view }
    }

    /// The table's name.
    pub fn name(&self) -> (r: &str)
        ensures
            r@ == self@.name,
            valid_name(r@),
    {
        proof {
            use_type_invariant(self);
        }
        self.name.as_str()
    }

    /// Counts the table's rows in `db`. The count is the answer of one
    /// query: it is cut to the largest index of 32 bits, and anything but a
    /// count is a failed query.
    pub fn row_count(&self, db: &Database) -> (r: Result<u32, FetchError>)
    {
        db.fetch_count(self)
    }

    /// Whether the table has a row identifier.
    pub fn row_identity(&self) -> (r: RowIdentity)
        ensures
            r == self@.row_id,
    {
        self.row_id
    }

    /// Whether this is a view.
    pub fn is_view(&self) -> (b: bool)
        ensures
            b == self@.is_view,
    {
        self.is_view
    }
}

impl Clone for Table {
    fn clone(&self) -> (t: Table)
        ensures
            t@ == self@,
    {
        proof {
            use_type_invariant(self);
        }
        Table { name: self.name.clone(), row_id: self.row_id, is_view: self.is_view }
    }
}

impl std::str::FromStr for Table {
    type Err = String;

    fn from_str(s: &str) -> (r: Result<Self, Self::Err>)
        ensures
            match r {
                Ok(t) => valid_name(s@) && t@.name == s@ && t@.row_id == RowIdentity::Unknown
                    && !t@.is_view,
                Err(e) => if name_reserved(s@) {
                    e@ == "Table name is empty or starts with sqlite_"@
                } else {
                    !name_chars_ok(s@) && e@ == "Table name contains invalid characters"@
                },
            },
    {
        Table::parse(s)
    }
}

} // verus!
