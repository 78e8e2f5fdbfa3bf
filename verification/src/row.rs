//! One table row: a fixed sequence of cell values.

use vstd::prelude::*;
pub use crate::text::hex_preview;
use vstd::string::StringExecFns;
use crate::column::{separator_text, ColumnSeparator};
use crate::value::{format_model, Value, ValueModel};

verus! {

/// An immutable row. Its arity is that of the table at the time it was read.
#[derive(Debug, PartialEq, Eq)]
pub struct Row {
    cells: Vec<Value>,
}

/// The models of a sequence of values.
pub open spec fn models(cells: Seq<Value>) -> Seq<ValueModel> {
    Seq::new(cells.len(), |i: int| cells[i]@)
}

impl View for Row {
    type V = Seq<ValueModel>;

    closed spec fn view(&self) -> Seq<ValueModel> {
        models(self.cells@)
    }
}

/// The cells as they are shown, with `sep` between one and the next.
pub open spec fn joined(cells: Seq<ValueModel>, sep: Seq<char>) -> Seq<char>
    decreases cells.len(),
{
    if cells.len() == 0 {
        Seq::empty()
    } else if cells.len() == 1 {
        format_model(cells[0])
    } else {
        joined(cells.drop_last(), sep) + sep + format_model(cells.last())
    }
}

/// A row written out with a separator.
pub open spec fn formatted(cells: Seq<ValueModel>, separator: ColumnSeparator) -> Seq<char> {
    match separator {
        ColumnSeparator::Markdown => "| "@ + joined(cells, separator_text(separator)) + " |"@,
        _ => joined(cells, separator_text(separator)),
    }
}

/// Copies a sequence of values.
pub fn clone_values(cells: &Vec<Value>) -> (r: Vec<Value>)
    ensures
        models(r@) == models(cells@),
{
    let mut out: Vec<Value> = Vec::new();
    let mut i: usize = 0;
    while i < cells.len()
        invariant
            i <= cells.len(),
            out.len() == i,
            forall|j: int| 0 <= j < i ==> out[j]@ == cells[j]@,
        decreases cells.len() - i,
    {
        out.push(cells[i].clone());
        i = i + 1;
    }
    assert(models(out@) =~= models(cells@));
    out
}

impl Row {
    pub fn new(cells: Vec<Value>) -> (r: Row)
        ensures
            r@ == models(cells@),
    {
        Row { cells }
    }

    pub fn cells(&self) -> (r: Vec<Value>)
        ensures
            models(r@) == self@,
    {
        clone_values(&self.cells)
    }

    /// The row as one line of text: the cells as they are shown, with the
    /// separator between them. The Markdown form is wrapped in `| ` and ` |`.
    pub fn format_with(&self, separator: ColumnSeparator) -> (r: String)
        ensures
            r@ == formatted(self@, separator),
    {
        let sep = separator.text();
        let mut out = String::new();
        if let ColumnSeparator::Markdown = separator {
            out.append("| ");
        }
        let ghost lead = out@;
        let mut i: usize = 0;
        assert(self@.take(0) =~= Seq::<ValueModel>::empty());
        while i < self.cells.len()
            invariant
                i <= self.cells.len(),
                sep@ == separator_text(separator),
                out@ == lead + joined(self@.take(i as int), sep@),
            decreases self.cells.len() - i,
        {
            if i > 0 {
                out.append(sep);
            }
            let shown = self.cells[i].format();
            out.append(shown.as_str());
            proof {
                let next = self@.take(i + 1);
                assert(next.drop_last() =~= self@.take(i as int));
                assert(next.last() == self.cells[i as int]@);
                assert(out@ =~= lead + joined(next, sep@));
            }
            i = i + 1;
        }
        assert(self@.take(self.cells.len() as int) =~= self@);
        if let ColumnSeparator::Markdown = separator {
            out.append(" |");
        }
        out
    }

    /// The cell at position `i`.
    pub fn cell(&self, i: usize) -> (v: &Value)
        requires
            i < self@.len(),
        ensures
            v@ == self@[i as int],
    {
        &self.cells[i]
    }

    /// Number of cells.
    pub fn arity(&self) -> (n: usize)
        ensures
            n == self@.len(),
    {
        self.cells.len()
    }
}

impl Clone for Row {
    fn clone(&self) -> (r: Self)
        ensures
            r@ == self@,
    {
        Row { cells: clone_values(&self.cells) }
    }
}

} // verus!
