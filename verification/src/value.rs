//! The value of a single cell.

use vstd::prelude::*;
use vstd::string::StringExecFns;
use crate::text::{decimal, decimal_of, hex_of, hex_preview, signed_decimal, signed_decimal_of};

verus! {

/// Number of blob bytes of which a preview is kept.
pub const BLOB_PREVIEW_BYTES: usize = 8;

/// One cell of a row. A blob is never held in full: only its length and a
/// hexadecimal preview of its first bytes.
#[derive(Debug, PartialEq, Eq)]
pub enum Value {
    Null,
    Integer(i64),
    /// A double, kept as its shortest decimal text.
    Real(String),
    Text(String),
    /// Length in bytes, and the preview.
    Blob(u64, String),
    Numeric(String),
}

/// What a [`Value`] stands for.
pub enum ValueModel {
    Null,
    Integer(int),
    Real(Seq<char>),
    Text(Seq<char>),
    Blob(nat, Seq<char>),
    Numeric(Seq<char>),
}

impl View for Value {
    type V = ValueModel;

    open spec fn view(&self) -> ValueModel {
        match *self {
            Value::Null => ValueModel::Null,
            Value::Integer(n) => ValueModel::Integer(n as int),
            Value::Real(t) => ValueModel::Real(t@),
            Value::Text(t) => ValueModel::Text(t@),
            Value::Blob(n, p) => ValueModel::Blob(n as nat, p@),
            Value::Numeric(t) => ValueModel::Numeric(t@),
        }
    }
}

impl Clone for Value {
    fn clone(&self) -> (r: Self)
        ensures
            r@ == self@,
    {
        match self {
            Value::Null => Value::Null,
            Value::Integer(n) => Value::Integer(*n),
            Value::Real(t) => Value::Real(t.clone()),
            Value::Text(t) => Value::Text(t.clone()),
            Value::Blob(n, p) => Value::Blob(*n, p.clone()),
            Value::Numeric(t) => Value::Numeric(t.clone()),
        }
    }
}

/// How a value is shown: a dash for a null and for an empty numeric, the
/// byte count for a blob, and the value's own text otherwise.
pub open spec fn format_model(v: ValueModel) -> Seq<char> {
    match v {
        ValueModel::Null => "\u{2014}"@,
        ValueModel::Integer(n) => signed_decimal_of(n),
        ValueModel::Real(t) => t,
        ValueModel::Text(t) => t,
        ValueModel::Blob(n, _) => decimal_of(n) + " BYTES"@,
        ValueModel::Numeric(t) => if t.len() == 0 {
            "\u{2014}"@
        } else {
            t
        },
    }
}

/// The canonical name of a value's storage class, whatever it holds.
pub open spec fn tag_model(v: ValueModel) -> Seq<char> {
    match v {
        ValueModel::Null => "NULL"@,
        ValueModel::Integer(_) => "INTEGER"@,
        ValueModel::Real(_) => "REAL"@,
        ValueModel::Text(_) => "TEXT"@,
        ValueModel::Blob(_, _) => "BLOB"@,
        ValueModel::Numeric(_) => "NUMERIC"@,
    }
}

/// The value that stands for a blob: its length, and the hexadecimal
/// preview of its first bytes.
pub open spec fn blob_model(bytes: Seq<u8>) -> ValueModel {
    ValueModel::Blob(
        bytes.len(),
        hex_of(
            bytes.take(
                if BLOB_PREVIEW_BYTES <= bytes.len() {
                    BLOB_PREVIEW_BYTES as int
                } else {
                    bytes.len() as int
                },
            ),
        ),
    )
}

impl Value {
    /// The value for a blob. The bytes themselves are not kept.
    pub fn of_blob(bytes: &[u8]) -> (v: Value)
        ensures
            v@ == blob_model(bytes@),
    {
        Value::Blob(bytes.len() as u64, hex_preview(bytes, BLOB_PREVIEW_BYTES))
    }

    /// The text shown for the value.
    pub fn format(&self) -> (r: String)
        ensures
            r@ == format_model(self@),
    {
        match self {
            Value::Null => "\u{2014}".to_owned(),
            Value::Integer(n) => signed_decimal(*n),
            Value::Real(t) => t.clone(),
            Value::Text(t) => t.clone(),
            Value::Blob(n, _) => {
                let mut out = decimal(*n);
                out.append(" BYTES");
                out
            },
            Value::Numeric(t) => {
                if t.as_str().is_empty() {
                    "\u{2014}".to_owned()
                } else {
                    t.clone()
                }
            },
        }
    }

    /// The canonical name of the value's storage class.
    pub fn type_tag(&self) -> (r: &'static str)
        ensures
            r@ == tag_model(self@),
    {
        match self {
            Value::Null => "NULL",
            Value::Integer(_) => "INTEGER",
            Value::Real(_) => "REAL",
            Value::Text(_) => "TEXT",
            Value::Blob(_, _) => "BLOB",
            Value::Numeric(_) => "NUMERIC",
        }
    }
}

} // verus!
