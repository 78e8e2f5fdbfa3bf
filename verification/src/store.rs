//! The SQLite handle, and the calls that are made on it. Nothing here is
//! proved: each function states what the call it makes is taken to do.

use vstd::prelude::*;
use rusqlite::Row as SqlRow;

verus! {

#[verifier::external_type_specification]
#[verifier::external_body]
pub struct ExConnection(rusqlite::Connection);

#[verifier::external_type_specification]
#[verifier::external_body]
pub struct ExStatement<'conn>(rusqlite::Statement<'conn>);

#[verifier::external_type_specification]
#[verifier::external_body]
pub struct ExRows<'stmt>(rusqlite::Rows<'stmt>);

#[verifier::external_type_specification]
#[verifier::external_body]
pub struct ExSqlRow<'stmt>(SqlRow<'stmt>);

#[verifier::external_type_specification]
#[verifier::external_body]
pub struct ExSqlError(rusqlite::Error);

/// The longest wait, in milliseconds, that a busy timeout can be set to.
pub const MAX_BUSY_TIMEOUT_MS: u32 = 0x7fff_ffff;

/// One cell as SQLite hands it out, before it is turned into a value. Text
/// and blobs are borrowed from the row and valid as long as it is.
pub enum RawCell<'a> {
    Null,
    Integer(i64),
    /// A double, as its shortest decimal text.
    Real(String),
    Text(&'a [u8]),
    Blob(&'a [u8]),
}

/// The text that a byte string stands for, where every ill-formed part is
/// replaced by U+FFFD.
pub uninterp spec fn utf8_lossy_of(bytes: Seq<u8>) -> Seq<char>;

/// `String::from_utf8_lossy`: the result depends on the bytes alone.
#[verifier::external_body]
pub(crate) fn lossy_text(bytes: &[u8]) -> (r: String)
    ensures
        r@ == utf8_lossy_of(bytes@),
{
    String::from_utf8_lossy(bytes).into_owned()
}

/// `Connection::open`: opens the database at `path`, or fails. Nothing is
/// claimed of the outcome.
#[verifier::external_body]
pub(crate) fn open_connection(path: &str) -> (r: Result<rusqlite::Connection, rusqlite::Error>)
{
    rusqlite::Connection::open(path)
}

/// `Connection::busy_timeout`: sets how long a query waits on a locked
/// database. The call panics on a duration of more than `i32::MAX`
/// milliseconds, which the precondition leaves out.
#[verifier::external_body]
pub(crate) fn set_busy_timeout(connection: &rusqlite::Connection, ms: u32) -> (r: Result<
    (),
    rusqlite::Error,
>)
    requires
        ms <= MAX_BUSY_TIMEOUT_MS,
{
    connection.busy_timeout(std::time::Duration::from_millis(ms.into()))
}

/// `Connection::execute_batch`: runs the statements of `sql`, or fails.
#[verifier::external_body]
pub(crate) fn run_batch(connection: &rusqlite::Connection, sql: &str) -> (r: Result<
    (),
    rusqlite::Error,
>)
{
    connection.execute_batch(sql)
}

/// `Connection::prepare`: compiles `sql`, or fails.
#[verifier::external_body]
pub(crate) fn prepare<'c>(connection: &'c rusqlite::Connection, sql: &str) -> (r: Result<
    rusqlite::Statement<'c>,
    rusqlite::Error,
>)
{
    connection.prepare(sql)
}

/// `Statement::column_count`: number of columns of the statement's result.
#[verifier::external_body]
pub(crate) fn column_count(statement: &rusqlite::Statement<'_>) -> (n: usize)
{
    statement.column_count()
}

/// `Statement::query` without parameters: starts the query, or fails.
#[verifier::external_body]
pub(crate) fn start_query<'s>(statement: &'s mut rusqlite::Statement<'_>) -> (r: Result<
    rusqlite::Rows<'s>,
    rusqlite::Error,
>)
{
    statement.query([])
}

/// `Rows::next`: the next row, `None` after the last one, or a failure.
#[verifier::external_body]
pub(crate) fn next_row<'r, 's>(rows: &'r mut rusqlite::Rows<'s>) -> (r: Result<
    Option<&'r SqlRow<'s>>,
    rusqlite::Error,
>)
{
    rows.next()
}

/// `Row::get_ref`: the cell at column `i`, or a failure where the row has
/// no such column. The variants are handed on one for one; a double is
/// handed on as its text.
#[verifier::external_body]
pub(crate) fn read_cell<'r>(row: &'r SqlRow<'_>, i: usize) -> (r: Result<
    RawCell<'r>,
    rusqlite::Error,
>)
{
    Ok(match row.get_ref(i)? {
        rusqlite::types::ValueRef::Null => RawCell::Null,
        rusqlite::types::ValueRef::Integer(n) => RawCell::Integer(n),
        rusqlite::types::ValueRef::Real(x) => RawCell::Real(x.to_string()),
        rusqlite::types::ValueRef::Text(t) => RawCell::Text(t),
        rusqlite::types::ValueRef::Blob(b) => RawCell::Blob(b),
    })
}

/// The result code that SQLite gave with a failure, if the failure is
/// SQLite's own: the field `extended_code` of `Error::SqliteFailure`.
#[verifier::external_body]
pub(crate) fn failure_code(e: &rusqlite::Error) -> (r: Option<i32>)
{
    match e {
        rusqlite::Error::SqliteFailure(failure, _) => Some(failure.extended_code),
        _ => None,
    }
}

} // verus!
