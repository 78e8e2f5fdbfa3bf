//! Why a fetch from the backing store failed.

use vstd::prelude::*;

verus! {

/// The failure of a single fetch. It is fatal to that fetch only.
#[derive(Clone, Copy, Debug, PartialEq, Eq, Structural)]
pub enum FetchError {
    /// The query was malformed or rejected.
    QueryFailed,
    /// The backing store cannot be reached or stayed locked.
    ConnectionLost,
}

/// SQLite's primary result codes for a store that cannot be used.
pub const SQLITE_BUSY: i32 = 5;

pub const SQLITE_LOCKED: i32 = 6;

pub const SQLITE_IOERR: i32 = 10;

pub const SQLITE_CORRUPT: i32 = 11;

pub const SQLITE_CANTOPEN: i32 = 14;

pub const SQLITE_PROTOCOL: i32 = 15;

pub const SQLITE_NOTADB: i32 = 26;

/// The primary result code within an extended one: its lowest eight bits.
pub open spec fn primary_code(code: int) -> int {
    if code >= 0 {
        code % 256
    } else {
        code
    }
}

/// Whether a result code says that the store is busy, locked, unreadable
/// or not a database at all.
pub open spec fn store_lost(code: int) -> bool {
    let p = primary_code(code);
    p == SQLITE_BUSY || p == SQLITE_LOCKED || p == SQLITE_IOERR || p == SQLITE_CORRUPT || p
        == SQLITE_CANTOPEN || p == SQLITE_PROTOCOL || p == SQLITE_NOTADB
}

/// The error that a failure with this result code is reported as. A failure
/// that is not SQLite's own has no code.
pub open spec fn error_of(code: Option<i32>) -> FetchError {
    match code {
        Some(c) => if store_lost(c as int) {
            FetchError::ConnectionLost
        } else {
            FetchError::QueryFailed
        },
        None => FetchError::QueryFailed,
    }
}

impl FetchError {
    /// The error that a failure with this result code is reported as.
    pub fn of_code(code: Option<i32>) -> (e: FetchError)
        ensures
            e == error_of(code),
    {
        match code {
            Some(c) => {
                let p = if c >= 0 { c % 256 } else { c };
                if p == SQLITE_BUSY || p == SQLITE_LOCKED || p == SQLITE_IOERR || p
                    == SQLITE_CORRUPT || p == SQLITE_CANTOPEN || p == SQLITE_PROTOCOL || p
                    == SQLITE_NOTADB {
                    FetchError::ConnectionLost
                } else {
                    FetchError::QueryFailed
                }
            },
            None => FetchError::QueryFailed,
        }
    }

    /// A sentence that says what failed.
    pub fn message(&self) -> (r: &'static str)
        ensures
            r@ == match *self {
                FetchError::QueryFailed => "the query failed"@,
                FetchError::ConnectionLost => "the database cannot be reached"@,
            },
    {
        match self {
            FetchError::QueryFailed => "the query failed",
            FetchError::ConnectionLost => "the database cannot be reached",
        }
    }
}

} // verus!
