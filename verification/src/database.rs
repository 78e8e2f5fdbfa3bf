//! The database handle: the range fetcher, and the virtual list of the
//! rows of the table that is open.

use vstd::prelude::*;
use vstd::string::StringExecFns;
use crate::cache::{
    answer_model, outcome_model, row_models, uniform, Cache, CacheModel, Lookup, GUARD_RADIUS,
    PAGE_SIZE,
};
use crate::column::{column_of, Column};
use crate::error::FetchError;
use crate::row::Row;
use crate::store::{
    column_count, failure_code, lossy_text, next_row, open_connection, prepare, read_cell,
    run_batch, set_busy_timeout, start_query, utf8_lossy_of, RawCell,
};
use crate::table::{listed, valid_name, RowIdentity, Table};
use crate::text::{decimal, decimal_of};
use crate::value::{blob_model, Value, ValueModel};
use rusqlite::Row as SqlRow;

verus! {

/// The order in which the rows of a table are counted.
#[derive(Clone, Copy, Debug, PartialEq, Eq, Structural)]
pub enum SortOrder {
    Ascending,
    Descending,
}

/// How long a query waits on a locked database, in milliseconds.
pub const BUSY_TIMEOUT_MS: u32 = 5000;

/// The value that a cell stands for.
pub open spec fn value_of_raw(raw: RawCell) -> ValueModel {
    match raw {
        RawCell::Null => ValueModel::Null,
        RawCell::Integer(n) => ValueModel::Integer(n as int),
        RawCell::Real(t) => ValueModel::Real(t@),
        RawCell::Text(bytes) => ValueModel::Text(utf8_lossy_of(bytes@)),
        RawCell::Blob(bytes) => blob_model(bytes@),
    }
}

/// Whether a value is one that the fetcher hands out: a null, an integer, a
/// double, a text, or the length and the preview of some blob. A numeric
/// value is never fetched.
pub open spec fn fetched(v: ValueModel) -> bool {
    match v {
        ValueModel::Blob(_, _) => exists|bytes: Seq<u8>| v == #[trigger] blob_model(bytes),
        ValueModel::Numeric(_) => false,
        _ => true,
    }
}

/// Whether every cell of every row is a value that the fetcher hands out.
pub open spec fn fetched_rows(rows: Seq<Seq<ValueModel>>) -> bool {
    forall|i: int, j: int|
        0 <= i < rows.len() && 0 <= j < rows[i].len() ==> fetched(#[trigger] rows[i][j])
}

/// Turns a cell into a value. Of a blob only the length and the preview
/// are kept.
pub fn cell_value(raw: RawCell) -> (v: Value)
    ensures
        v@ == value_of_raw(raw),
        fetched(v@),
{
    match raw {
        RawCell::Null => Value::Null,
        RawCell::Integer(n) => Value::Integer(n),
        RawCell::Real(t) => Value::Real(t),
        RawCell::Text(bytes) => Value::Text(lossy_text(bytes)),
        RawCell::Blob(bytes) => Value::of_blob(bytes),
    }
}

/// The keyword for an order.
pub open spec fn order_text(order: SortOrder) -> Seq<char> {
    match order {
        SortOrder::Ascending => "ASC"@,
        SortOrder::Descending => "DESC"@,
    }
}

/// The query for `limit` rows of a table from position `offset` on. The rows
/// are ordered by row identifier where the table is known to have one, and
/// left in the order the store gives them otherwise.
pub open spec fn range_query_of(
    name: Seq<char>,
    row_id: RowIdentity,
    order: SortOrder,
    offset: nat,
    limit: nat,
) -> Seq<char> {
    "SELECT * FROM \""@ + name + "\""@ + (if row_id == RowIdentity::Present {
        " ORDER BY rowid "@ + order_text(order)
    } else {
        Seq::empty()
    }) + " LIMIT "@ + decimal_of(limit) + " OFFSET "@ + decimal_of(offset) + ";"@
}

/// The query for the number of rows of a table.
pub open spec fn count_query_of(name: Seq<char>) -> Seq<char> {
    "SELECT COUNT(*) FROM \""@ + name + "\";"@
}

/// The text of the range query.
pub fn range_query(table: &Table, order: SortOrder, offset: u32, limit: u32) -> (r: String)
    ensures
        r@ == range_query_of(table@.name, table@.row_id, order, offset as nat, limit as nat),
{
    let mut out = "SELECT * FROM \"".to_owned();
    out.append(table.name());
    out.append("\"");
    if let RowIdentity::Present = table.row_identity() {
        out.append(" ORDER BY rowid ");
        match order {
            SortOrder::Ascending => out.append("ASC"),
            SortOrder::Descending => out.append("DESC"),
        }
        assert(out@ =~= "SELECT * FROM \""@ + table@.name + "\""@ + (" ORDER BY rowid "@
            + order_text(order)));
    } else {
        assert(out@ =~= "SELECT * FROM \""@ + table@.name + "\""@ + Seq::<char>::empty());
    }
    out.append(" LIMIT ");
    out.append(decimal(limit as u64).as_str());
    out.append(" OFFSET ");
    out.append(decimal(offset as u64).as_str());
    out.append(";");
    out
}

/// The text of the count query.
pub fn count_query(table: &Table) -> (r: String)
    ensures
        r@ == count_query_of(table@.name),
{
    let mut out = "SELECT COUNT(*) FROM \"".to_owned();
    out.append(table.name());
    out.append("\";");
    out
}

/// The query for the definitions of a table's columns.
pub open spec fn columns_query_of(name: Seq<char>) -> Seq<char> {
    "PRAGMA table_info(\""@ + name + "\");"@
}

/// The query that a table with a row identifier answers and one without
/// refuses.
pub open spec fn probe_query_of(name: Seq<char>) -> Seq<char> {
    "SELECT rowid FROM \""@ + name + "\" LIMIT 0;"@
}

/// The query for all the rows of a table.
pub open spec fn rows_query_of(name: Seq<char>) -> Seq<char> {
    "SELECT * FROM \""@ + name + "\";"@
}

/// The text of the query for a table's column definitions.
pub fn columns_query(table: &Table) -> (r: String)
    ensures
        r@ == columns_query_of(table@.name),
{
    let mut out = "PRAGMA table_info(\"".to_owned();
    out.append(table.name());
    out.append("\");");
    out
}

/// The text of the query that probes for a row identifier.
pub fn probe_query(table: &Table) -> (r: String)
    ensures
        r@ == probe_query_of(table@.name),
{
    let mut out = "SELECT rowid FROM \"".to_owned();
    out.append(table.name());
    out.append("\" LIMIT 0;");
    out
}

/// The text of the query for all the rows of a table.
pub fn rows_query(table: &Table) -> (r: String)
    ensures
        r@ == rows_query_of(table@.name),
{
    let mut out = "SELECT * FROM \"".to_owned();
    out.append(table.name());
    out.append("\";");
    out
}

/// The columns that the rows of a table's definition describe, in their
/// order; a row that describes none makes the whole answer a failed query.
pub fn columns_from(rows: &Vec<Row>) -> (r: Result<Vec<Column>, FetchError>)
    ensures
        match r {
            Ok(columns) => columns.len() == rows.len() && forall|i: int|
                0 <= i < rows.len() ==> column_of(rows[i]@) == Some((#[trigger] columns[i])@),
            Err(e) => e == FetchError::QueryFailed && exists|i: int|
                0 <= i < rows.len() && column_of((#[trigger] rows[i])@) is None,
        },
{
    let mut out: Vec<Column> = Vec::new();
    let mut i: usize = 0;
    while i < rows.len()
        invariant
            i <= rows.len(),
            out.len() == i,
            forall|j: int| 0 <= j < i ==> column_of(rows[j]@) == Some((#[trigger] out[j])@),
        decreases rows.len() - i,
    {
        match Column::from_row(&rows[i]) {
            Some(column) => out.push(column),
            None => {
                assert(column_of(rows[i as int]@) is None);
                return Err(FetchError::QueryFailed);
            },
        }
        i = i + 1;
    }
    Ok(out)
}

/// What is set on a connection when it is opened: only queries are taken,
/// and foreign keys are enforced.
pub open spec fn open_pragmas_of() -> Seq<char> {
    "PRAGMA query_only = ON; PRAGMA foreign_keys = ON;"@
}

/// The text of what is set on a connection when it is opened.
pub fn open_pragmas() -> (r: &'static str)
    ensures
        r@ == open_pragmas_of(),
{
    "PRAGMA query_only = ON; PRAGMA foreign_keys = ON;"
}

/// The query for the tables and views of a database, by name, each with its
/// kind; what the store keeps for itself is left out.
pub open spec fn tables_query_of() -> Seq<char> {
    "SELECT name, type FROM sqlite_master WHERE type IN ('table', 'view') AND name NOT LIKE 'sqlite_%' ORDER BY name;"@
}

/// The text of the query for the tables and views of a database.
pub fn tables_query() -> (r: &'static str)
    ensures
        r@ == tables_query_of(),
{
    "SELECT name, type FROM sqlite_master WHERE type IN ('table', 'view') AND name NOT LIKE 'sqlite_%' ORDER BY name;"
}

/// The tables and views that the rows of a database's catalogue list, one
/// for each row and in their order; a row that lists none makes the whole
/// answer a failed query. Whether a table has a row identifier is not known
/// yet.
pub fn tables_from(listing: &Vec<Row>) -> (r: Result<Vec<Table>, FetchError>)
    ensures
        match r {
            Ok(ts) => ts.len() == listing.len() && forall|i: int|
                0 <= i < listing.len() ==> listed(listing[i]@) == Some(
                    ((#[trigger] ts[i])@.name, ts[i]@.is_view),
                ) && ts[i]@.row_id == RowIdentity::Unknown,
            Err(e) => e == FetchError::QueryFailed && exists|i: int|
                0 <= i < listing.len() && listed((#[trigger] listing[i])@) is None,
        },
{
    let mut out: Vec<Table> = Vec::new();
    let mut i: usize = 0;
    while i < listing.len()
        invariant
            i <= listing.len(),
            out.len() == i,
            forall|j: int|
                0 <= j < i ==> listed(listing[j]@) == Some(
                    ((#[trigger] out[j])@.name, out[j]@.is_view),
                ) && out[j]@.row_id == RowIdentity::Unknown,
        decreases listing.len() - i,
    {
        match Table::from_row(&listing[i]) {
            Some(table) => out.push(table),
            None => {
                assert(listed(listing[i as int]@) is None);
                return Err(FetchError::QueryFailed);
            },
        }
        i = i + 1;
    }
    Ok(out)
}

/// Whether the tables are those that the rows of a catalogue list, one for
/// each row and in their order, with nothing known of the row identifier of
/// a view and something of that of a table.
pub open spec fn lists(listing: Seq<Seq<ValueModel>>, tables: Seq<Table>) -> bool {
    &&& tables.len() == listing.len()
    &&& forall|i: int|
        0 <= i < listing.len() ==> listed(listing[i]) == Some(
            ((#[trigger] tables[i])@.name, tables[i]@.is_view),
        ) && (tables[i]@.is_view <==> tables[i]@.row_id == RowIdentity::Unknown)
}

/// Whether the columns are those that the rows of a table's definition
/// describe, one for each row and in their order.
pub open spec fn describes(rows: Seq<Seq<ValueModel>>, columns: Seq<Column>) -> bool {
    &&& columns.len() == rows.len()
    &&& forall|i: int| 0 <= i < rows.len() ==> column_of(rows[i]) == Some((#[trigger] columns[i])@)
}

/// Whether the setting that one row of one cell answers for is on: a number
/// other than 0 says so. Any other answer is a failed query.
pub open spec fn flag_from_model(rows: Seq<Seq<ValueModel>>) -> Result<bool, FetchError> {
    if rows.len() == 1 && rows[0].len() == 1 {
        match rows[0][0] {
            ValueModel::Integer(n) => Ok(n != 0),
            _ => Err(FetchError::QueryFailed),
        }
    } else {
        Err(FetchError::QueryFailed)
    }
}

/// Whether the setting that the rows answer for is on.
pub fn flag_from(rows: &Vec<Row>) -> (r: Result<bool, FetchError>)
    ensures
        r == flag_from_model(row_models(rows@)),
{
    if rows.len() != 1 || rows[0].arity() != 1 {
        return Err(FetchError::QueryFailed);
    }
    match rows[0].cell(0) {
        Value::Integer(n) => Ok(*n != 0),
        _ => Err(FetchError::QueryFailed),
    }
}

/// What is known of a table's row identifier: nothing for a view, and for a
/// table what the probe said.
pub open spec fn identity_of(is_view: bool, probe: bool) -> RowIdentity {
    if is_view {
        RowIdentity::Unknown
    } else if probe {
        RowIdentity::Present
    } else {
        RowIdentity::Absent
    }
}

/// What is known of a table's row identifier after the probe.
pub fn row_identity_for(is_view: bool, probe: bool) -> (r: RowIdentity)
    ensures
        r == identity_of(is_view, probe),
{
    if is_view {
        RowIdentity::Unknown
    } else if probe {
        RowIdentity::Present
    } else {
        RowIdentity::Absent
    }
}

/// The row count that the one cell of a count query's answer stands for:
/// a count that no index of 32 bits can reach is cut to the largest one;
/// anything but a count that is not negative is a failed query.
pub open spec fn count_of(cell: ValueModel) -> Result<u32, FetchError> {
    match cell {
        ValueModel::Integer(n) => if n < 0 {
            Err(FetchError::QueryFailed)
        } else if n > u32::MAX {
            Ok(u32::MAX)
        } else {
            Ok(n as u32)
        },
        _ => Err(FetchError::QueryFailed),
    }
}

/// The row count that the rows of a count query's answer stand for.
pub open spec fn count_from_model(rows: Seq<Seq<ValueModel>>) -> Result<u32, FetchError> {
    if rows.len() == 1 && rows[0].len() == 1 {
        count_of(rows[0][0])
    } else {
        Err(FetchError::QueryFailed)
    }
}

/// The row count that the answer to a count query stands for.
pub fn count_from(rows: &Vec<Row>) -> (r: Result<u32, FetchError>)
    ensures
        r == count_from_model(row_models(rows@)),
{
    if rows.len() != 1 || rows[0].arity() != 1 {
        return Err(FetchError::QueryFailed);
    }
    match rows[0].cell(0) {
        Value::Integer(n) => {
            if *n < 0 {
                Err(FetchError::QueryFailed)
            } else if *n > u32::MAX as i64 {
                Ok(u32::MAX)
            } else {
                Ok(*n as u32)
            }
        },
        _ => Err(FetchError::QueryFailed),
    }
}

/// The error that a failure of the store is reported as.
fn fetch_error(e: &rusqlite::Error) -> (r: FetchError)
{
    FetchError::of_code(failure_code(e))
}

/// Reads the `n` cells of a row, each as the value it stands for.
fn read_row(row: &SqlRow<'_>, n: usize) -> (r: Result<Vec<Value>, rusqlite::Error>)
    ensures
        r is Ok ==> r->Ok_0.len() == n && forall|j: int|
            0 <= j < n ==> fetched((#[trigger] r->Ok_0[j])@),
{
    let mut cells: Vec<Value> = Vec::new();
    let mut i: usize = 0;
    while i < n
        invariant
            i <= n,
            cells.len() == i,
            forall|j: int| 0 <= j < i ==> fetched((#[trigger] cells[j])@),
        decreases n - i,
    {
        match read_cell(row, i) {
            Ok(raw) => cells.push(cell_value(raw)),
            Err(e) => {
                return Err(e);
            },
        }
        i = i + 1;
    }
    Ok(cells)
}

/// Runs a query and reads its rows, `cap` of them at most. All the rows
/// read have as many cells as the query has columns, and every cell is a
/// value that the fetcher hands out.
fn collect_rows(connection: &rusqlite::Connection, sql: &str, cap: usize) -> (r: Result<
    Vec<Row>,
    rusqlite::Error,
>)
    ensures
        r is Ok ==> r->Ok_0.len() <= cap && uniform(row_models(r->Ok_0@)) && fetched_rows(
            row_models(r->Ok_0@),
        ),
{
    let mut statement = match prepare(connection, sql) {
        Ok(s) => s,
        Err(e) => {
            return Err(e);
        },
    };
    let n = column_count(&statement);
    let mut rows = match start_query(&mut statement) {
        Ok(r) => r,
        Err(e) => {
            return Err(e);
        },
    };
    let mut out: Vec<Row> = Vec::new();
    while out.len() < cap
        invariant
            out.len() <= cap,
            forall|i: int| 0 <= i < out.len() ==> (#[trigger] out[i])@.len() == n,
            forall|i: int, j: int|
                0 <= i < out.len() && 0 <= j < n ==> fetched(#[trigger] out[i]@[j]),
        decreases cap - out.len(),
    {
        match next_row(&mut rows) {
            Ok(Some(row)) => {
                match read_row(row, n) {
                    Ok(cells) => {
                        let fresh = Row::new(cells);
                        assert forall|j: int| 0 <= j < n implies fetched(#[trigger] fresh@[j]) by {
                            assert(fresh@[j] == cells[j]@);
                        }
                        out.push(fresh);
                    },
                    Err(e) => {
                        return Err(e);
                    },
                }
            },
            Ok(None) => {
                break ;
            },
            Err(e) => {
                return Err(e);
            },
        }
    }
    assert(uniform(row_models(out@))) by {
        assert forall|i: int, j: int|
            0 <= i < out.len() && 0 <= j < out.len() implies (#[trigger] row_models(out@)[i]).len()
            == (#[trigger] row_models(out@)[j]).len() by {
            assert(out[i]@.len() == n);
            assert(out[j]@.len() == n);
        }
    }
    assert(fetched_rows(row_models(out@))) by {
        assert forall|i: int, j: int|
            0 <= i < out.len() && 0 <= j < row_models(out@)[i].len() implies fetched(
            #[trigger] row_models(out@)[i][j],
        ) by {
            assert(out[i]@.len() == n);
            assert(fetched(out[i]@[j]));
        }
    }
    Ok(out)
}

/// An open database. Its connection is the only way to the backing store;
/// the cache is that of the table that is open, if one is.
#[derive(Debug)]
pub struct Database {
    path: String,
    connection: rusqlite::Connection,
    cache: Option<Cache>,
}

impl Database {
    /// The cache of the open table, if one is open.
    pub closed spec fn cache_model(&self) -> Option<CacheModel> {
        match self.cache {
            Some(c) => Some(c@),
            None => None,
        }
    }

    /// The path that the database was opened at.
    pub closed spec fn path_model(&self) -> Seq<char> {
        self.path@
    }

    /// The cache of the open table, if there is one, is well formed, and
    /// holds no more rows than twice its guard radius and one page.
    pub open spec fn wf(&self) -> bool {
        match self.cache_model() {
            Some(c) => c.bounded(),
            None => true,
        }
    }

    /// Opens the database at `path` for reading: queries only, foreign keys
    /// enforced, and a bounded wait on a locked database. No table is open.
    pub fn from_file(path: &str) -> (r: Result<Database, FetchError>)
        ensures
            r is Ok ==> r->Ok_0.cache_model() == None::<CacheModel> && r->Ok_0.path_model()
                == path@,
    {
        let connection = match open_connection(path) {
            Ok(c) => c,
            Err(e) => {
                return Err(fetch_error(&e));
            },
        };
        match set_busy_timeout(&connection, BUSY_TIMEOUT_MS) {
            Ok(()) => {},
            Err(e) => {
                return Err(fetch_error(&e));
            },
        }
        match run_batch(&connection, open_pragmas()) {
            Ok(()) => {},
            Err(e) => {
                return Err(fetch_error(&e));
            },
        }
        Ok(Database { path: path.to_owned(), connection, cache: None })
    }

    /// Whether the connection takes queries only, as the store says.
    pub fn is_query_only(&self) -> (r: Result<bool, FetchError>)
    {
        match collect_rows(&self.connection, "PRAGMA query_only;", 1) {
            Ok(rows) => flag_from(&rows),
            Err(e) => Err(fetch_error(&e)),
        }
    }

    /// Whether the connection enforces foreign keys, as the store says.
    pub fn enforces_foreign_keys(&self) -> (r: Result<bool, FetchError>)
    {
        match collect_rows(&self.connection, "PRAGMA foreign_keys;", 1) {
            Ok(rows) => flag_from(&rows),
            Err(e) => Err(fetch_error(&e)),
        }
    }

    /// The path that the database was opened at.
    pub fn path(&self) -> (r: &str)
        ensures
            r@ == self.path_model(),
    {
        self.path.as_str()
    }

    /// Reads `limit` rows of `table` at most, from position `offset` on in
    /// the given order. All the rows read have the same number of cells,
    /// and of a blob they hold the length and the preview only. Whether the
    /// rows can be read is for the store to say.
    pub fn fetch_range(&self, table: &Table, offset: u32, limit: u32, order: SortOrder) -> (r:
        Result<Vec<Row>, FetchError>)
        ensures
            r is Ok ==> r->Ok_0.len() <= limit && uniform(row_models(r->Ok_0@)) && fetched_rows(
                row_models(r->Ok_0@),
            ),
    {
        let sql = range_query(table, order, offset, limit);
        match collect_rows(&self.connection, sql.as_str(), limit as usize) {
            Ok(rows) => Ok(rows),
            Err(e) => Err(fetch_error(&e)),
        }
    }

    /// Counts the rows of `table`. Nothing is remembered here.
    pub fn fetch_count(&self, table: &Table) -> (r: Result<u32, FetchError>)
    {
        let sql = count_query(table);
        match collect_rows(&self.connection, sql.as_str(), 1) {
            Ok(rows) => count_from(&rows),
            Err(e) => Err(fetch_error(&e)),
        }
    }

    /// Opens `table`: from now on the virtual list is that of its rows, in
    /// the given order. What was held of another table is dropped.
    pub fn open_table(&mut self, table: Table, order: SortOrder)
        ensures
            final(self).wf(),
            final(self).path_model() == old(self).path_model(),
            final(self).cache_model() == Some(
                CacheModel::fresh(
                    table@,
                    order,
                    PAGE_SIZE as int,
                    GUARD_RADIUS as int,
                ),
            ),
    {
        self.open_table_with(table, order, PAGE_SIZE, GUARD_RADIUS)
    }

    /// Opens `table` with a page size and a guard radius of the caller's.
    pub fn open_table_with(
        &mut self,
        table: Table,
        order: SortOrder,
        page_size: u32,
        guard_radius: u32,
    )
        ensures
            final(self).wf(),
            final(self).path_model() == old(self).path_model(),
            final(self).cache_model() == Some(
                CacheModel::fresh(
                    table@,
                    order,
                    page_size as int,
                    guard_radius as int,
                ),
            ),
    {
        self.cache = Some(Cache::new(table, order, page_size, guard_radius));
    }

    /// Closes the open table, if one is open, and drops what was held of it.
    pub fn close_table(&mut self)
        ensures
            final(self).wf(),
            final(self).path_model() == old(self).path_model(),
            final(self).cache_model() == None::<CacheModel>,
    {
        self.cache = None;
    }

    /// The row of the open table that is held at `index`, if any. Nothing is
    /// fetched.
    pub fn cache_get(&self, index: u32) -> (r: Option<Row>)
        ensures
            answer_model(r) == match self.cache_model() {
                Some(c) => c.get(index as int),
                None => None,
            },
    {
        match &self.cache {
            Some(cache) => cache.get(index),
            None => None,
        }
    }

    /// Number of rows of the open table that are held in memory.
    pub fn rows_held(&self) -> (n: usize)
        ensures
            n == match self.cache_model() {
                Some(c) => c.entries.len(),
                None => 0,
            },
            self.wf() ==> match self.cache_model() {
                Some(c) => n <= 2 * c.guard_radius + c.page_size,
                None => true,
            },
    {
        match &self.cache {
            Some(cache) => cache.len(),
            None => 0,
        }
    }

    /// Fetches the page around `index` of the open table and takes it in,
    /// whether or not the row at `index` is held already. A failed fetch
    /// changes nothing; without an open table there is nothing to query.
    pub fn cache_update(&mut self, index: u32) -> (r: Result<(), FetchError>)
        ensures
            old(self).wf() ==> final(self).wf(),
            final(self).path_model() == old(self).path_model(),
            match old(self).cache_model() {
                None => r == Err::<(), FetchError>(FetchError::QueryFailed) && final(self).cache_model() == None::<CacheModel>,
                Some(c) => exists|fetch: Result<Seq<Seq<ValueModel>>, FetchError>|
                    {
                        &&& fetch is Ok ==> fetch->Ok_0.len() <= c.page_size && uniform(
                            fetch->Ok_0,
                        ) && fetched_rows(fetch->Ok_0)
                        &&& final(self).cache_model() == Some(
                            #[trigger] c.absorb(
                                index as int,
                                crate::cache::window_around(index as int, c.page_size).0,
                                fetch,
                            ),
                        )
                        &&& match r {
                            Ok(()) => fetch is Ok,
                            Err(e) => fetch == Err::<Seq<Seq<ValueModel>>, FetchError>(e),
                        }
                    },
            },
    {
        let mut cache = match self.cache.take() {
            Some(c) => c,
            None => {
                return Err(FetchError::QueryFailed);
            },
        };
        let window = cache.window_for(index);
        let outcome = self.fetch_range(cache.table(), window.offset, window.limit, cache.order());
        let ghost fetch = outcome_model(outcome);
        let r = match &outcome {
            Ok(_) => Ok(()),
            Err(e) => Err(*e),
        };
        cache.absorb(index, window.offset, outcome);
        self.cache = Some(cache);
        proof {
            if old(self).wf() {
                crate::laws::lemma_absorb_keeps_bound(
                    old(self).cache_model()->Some_0,
                    index as int,
                    window.offset as int,
                    fetch,
                );
            }
        }
        assert(final(self).cache_model() == Some(
            old(self).cache_model()->Some_0.absorb(
                index as int,
                crate::cache::window_around(index as int, old(self).cache_model()->Some_0.page_size).0,
                fetch,
            ),
        ));
        r
    }

    /// Number of rows of the open table. The count is computed on the first
    /// call and remembered; while it cannot be computed, or no table is
    /// open, the length is 0.
    pub fn length(&mut self) -> (n: u32)
        ensures
            final(self).path_model() == old(self).path_model(),
            old(self).wf() ==> final(self).wf(),
            match old(self).cache_model() {
                None => n == 0 && final(self).cache_model() == None::<CacheModel>,
                Some(c) => exists|count: Result<u32, FetchError>|
                    {
                        &&& final(self).cache_model() == Some(#[trigger] c.note_count(count))
                        &&& n == c.length_after(count)
                    },
            },
    {
        let mut cache = match self.cache.take() {
            Some(c) => c,
            None => {
                return 0;
            },
        };
        let n = match cache.known_length() {
            Some(n) => {
                assert(cache@ == cache@.note_count(Err(FetchError::QueryFailed)));
                n
            },
            None => {
                let outcome = self.fetch_count(cache.table());
                cache.note_count(outcome)
            },
        };
        self.cache = Some(cache);
        n
    }

    /// The row at position `index` of the open table, counted in the
    /// table's order from 0; `None` where the index is not below the length,
    /// where the page around it cannot be fetched or does not reach it, and
    /// where no table is open. A row that is held is answered from memory.
    pub fn row_at(&mut self, index: u32) -> (r: Option<Row>)
        ensures
            old(self).wf() ==> final(self).wf(),
            final(self).path_model() == old(self).path_model(),
            match old(self).cache_model() {
                None => r is None && final(self).cache_model() == None::<CacheModel>,
                Some(c) => exists|
                    count: Result<u32, FetchError>,
                    fetch: Result<Seq<Seq<ValueModel>>, FetchError>,
                |
                    {
                        &&& fetch is Ok ==> fetch->Ok_0.len() <= c.page_size && uniform(
                            fetch->Ok_0,
                        ) && fetched_rows(fetch->Ok_0)
                        &&& #[trigger] c.serve(index as int, count, fetch) == (
                            final(self).cache_model()->Some_0,
                            answer_model(r),
                        )
                        &&& final(self).cache_model() is Some
                    },
            },
    {
        let mut cache = match self.cache.take() {
            Some(c) => c,
            None => {
                return None;
            },
        };
        let ghost count: Result<u32, FetchError> = Err(FetchError::QueryFailed);
        let ghost fetch: Result<Seq<Seq<ValueModel>>, FetchError> = Err(FetchError::QueryFailed);
        let n = match cache.known_length() {
            Some(n) => n,
            None => {
                let outcome = self.fetch_count(cache.table());
                proof {
                    count = outcome;
                }
                cache.note_count(outcome)
            },
        };
        let r = if index >= n {
            None
        } else {
            match cache.lookup(index) {
                Lookup::Hit(row) => Some(row),
                Lookup::Miss(window) => {
                    let outcome = self.fetch_range(
                        cache.table(),
                        window.offset,
                        window.limit,
                        cache.order(),
                    );
                    proof {
                        fetch = outcome_model(outcome);
                    }
                    cache.absorb(index, window.offset, outcome)
                },
            }
        };
        self.cache = Some(cache);
        proof {
            if old(self).wf() {
                crate::laws::lemma_serve_keeps_bound(
                    old(self).cache_model()->Some_0,
                    index as int,
                    count,
                    fetch,
                );
            }
        }
        assert(old(self).cache_model()->Some_0.serve(index as int, count, fetch) == (
            final(self).cache_model()->Some_0,
            answer_model(r),
        ));
        r
    }

    /// The definitions of the columns of `table`, in their order: on
    /// success, one column for each row that the store answered with, as
    /// that row describes it. Whether the definitions can be read is for the
    /// store to say; a row that describes no column is a failed query.
    pub fn columns(&self, table: &Table) -> (r: Result<Vec<Column>, FetchError>)
        ensures
            r is Ok ==> exists|rows: Seq<Seq<ValueModel>>|
                fetched_rows(rows) && uniform(rows) && #[trigger] describes(rows, r->Ok_0@),
    {
        let sql = columns_query(table);
        match collect_rows(&self.connection, sql.as_str(), usize::MAX) {
            Ok(rows) => {
                let r = columns_from(&rows);
                proof {
                    if r is Ok {
                        let answer = row_models(rows@);
                        assert forall|i: int| 0 <= i < answer.len() implies column_of(answer[i])
                            == Some((#[trigger] r->Ok_0[i])@) by {
                            assert(answer[i] == rows[i]@);
                        }
                        assert(describes(answer, r->Ok_0@));
                    }
                }
                r
            },
            Err(e) => Err(fetch_error(&e)),
        }
    }

    /// All the rows of `table`, in the order the store gives them. They have
    /// the same number of cells, and of a blob they hold the length and the
    /// preview only.
    pub fn rows(&self, table: &Table) -> (r: Result<Vec<Row>, FetchError>)
        ensures
            r is Ok ==> uniform(row_models(r->Ok_0@)) && fetched_rows(row_models(r->Ok_0@)),
    {
        let sql = rows_query(table);
        match collect_rows(&self.connection, sql.as_str(), usize::MAX) {
            Ok(rows) => Ok(rows),
            Err(e) => Err(fetch_error(&e)),
        }
    }

    /// Whether `table` answers a query by row identifier.
    pub fn has_row_id(&self, table: &Table) -> (b: bool)
    {
        let sql = probe_query(table);
        match collect_rows(&self.connection, sql.as_str(), 0) {
            Ok(_) => true,
            Err(_) => false,
        }
    }

    /// The tables and views of the database, by name: on success, one for
    /// each row that the store listed and in the store's order. Of a view it
    /// is not known whether it has a row identifier; of a table it is. A
    /// name that is not valid makes the whole answer a failed query.
    pub fn tables(&self) -> (r: Result<Vec<Table>, FetchError>)
        ensures
            r is Ok ==> exists|listing: Seq<Seq<ValueModel>>|
                fetched_rows(listing) && uniform(listing) && #[trigger] lists(listing, r->Ok_0@),
            r is Ok ==> forall|i: int|
                0 <= i < r->Ok_0.len() ==> valid_name((#[trigger] r->Ok_0[i])@.name),
    {
        let listing = match collect_rows(&self.connection, tables_query(), usize::MAX) {
            Ok(rows) => rows,
            Err(e) => {
                return Err(fetch_error(&e));
            },
        };
        let found = match tables_from(&listing) {
            Ok(tables) => tables,
            Err(e) => {
                return Err(e);
            },
        };
        let ghost answer = row_models(listing@);
        let mut out: Vec<Table> = Vec::new();
        let mut i: usize = 0;
        while i < found.len()
            invariant
                i <= found.len(),
                out.len() == i,
                found.len() == answer.len(),
                forall|j: int|
                    0 <= j < found.len() ==> listed(answer[j]) == Some(
                        ((#[trigger] found[j])@.name, found[j]@.is_view),
                    ),
                forall|j: int|
                    0 <= j < i ==> listed(answer[j]) == Some(
                        ((#[trigger] out[j])@.name, out[j]@.is_view),
                    ) && (out[j]@.is_view <==> out[j]@.row_id == RowIdentity::Unknown),
            decreases found.len() - i,
        {
            let table = found[i].clone();
            let is_view = table.is_view();
            let probe = if is_view {
                false
            } else {
                self.has_row_id(&table)
            };
            out.push(table.with_kind(row_identity_for(is_view, probe), is_view));
            i = i + 1;
        }
        assert(lists(answer, out@));
        Ok(out)
    }
}

} // verus!
