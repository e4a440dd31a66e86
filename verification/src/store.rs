//! The storage adapter: an append-only `tasks` table in a SQLite
//! database file, reached through rusqlite.
//!
//! The table is modelled by two names: `table_rows`, the sequence of
//! `(timestamp, text)` rows in rowid order, and `table_exists`, whether
//! the `tasks` table is present. Each trusted wrapper below states over
//! those names what its one SQL statement does; everything around the
//! wrappers is verified against that.

use vstd::prelude::*;
use crate::errors::AppError;
use crate::text::starts_with;

verus! {

#[verifier::external_type_specification]
#[verifier::external_body]
pub struct ExConnection(rusqlite::Connection);

#[verifier::external_type_specification]
#[verifier::external_body]
pub struct ExSqlError(rusqlite::Error);

/// One stored row at the spec level: the timestamp characters and the
/// text characters.
pub type RowV = (Seq<char>, Seq<char>);

/// The `(date, task)` rows of the `tasks` table, in rowid order.
pub uninterp spec fn table_rows(conn: rusqlite::Connection) -> Seq<RowV>;

/// Whether the `tasks` table exists in the database.
pub uninterp spec fn table_exists(conn: rusqlite::Connection) -> bool;

/// Relies on rusqlite::Connection::open: opens the database file at
/// `path`, creating it if absent. What the opened database holds
/// depends on the file, so nothing is stated of the result's contents.
#[verifier::external_body]
fn open_connection(path: &String) -> (r: Result<rusqlite::Connection, rusqlite::Error>) {
    rusqlite::Connection::open(path.as_str())
}

/// Relies on rusqlite::Connection::execute running
/// `CREATE TABLE IF NOT EXISTS tasks(..)`: a fresh table is empty, an
/// existing one is left as it is, and a failed statement changes
/// nothing.
#[verifier::external_body]
fn create_table(conn: &mut rusqlite::Connection) -> (r: Result<(), rusqlite::Error>)
    ensures
        r is Ok ==> table_exists(*final(conn)),
        r is Ok && table_exists(*old(conn)) ==> table_rows(*final(conn)) == table_rows(*old(conn)),
        r is Ok && !table_exists(*old(conn)) ==> table_rows(*final(conn)) == Seq::<RowV>::empty(),
        r is Err ==> *final(conn) == *old(conn),
{
    let sql = "CREATE TABLE IF NOT EXISTS tasks (
            id INTEGER PRIMARY KEY,
            date TEXT NOT NULL,
            task TEXT NOT NULL
        )";
    conn.execute(sql, ()).map(|_| ())
}

/// Relies on rusqlite::Connection::execute running `INSERT INTO tasks`:
/// one row is appended at the end (`id` is the rowid alias, assigned
/// ascending), and a failed statement changes nothing.
#[verifier::external_body]
fn insert_row(conn: &mut rusqlite::Connection, date: &String, task: &String) -> (r: Result<(), rusqlite::Error>)
    requires
        table_exists(*old(conn)),
    ensures
        r is Ok ==> table_exists(*final(conn)),
        r is Ok ==> table_rows(*final(conn)) == table_rows(*old(conn)).push((date@, task@)),
        r is Err ==> *final(conn) == *old(conn),
{
    let sql = "INSERT INTO tasks (date, task) VALUES (?1, ?2)";
    conn.execute(sql, (date.as_str(), task.as_str())).map(|_| ())
}

/// Relies on rusqlite::Connection::prepare and Statement::query_map
/// running `SELECT date, task FROM tasks ORDER BY id`: every row comes
/// back, in rowid order.
#[verifier::external_body]
fn select_rows(conn: &rusqlite::Connection) -> (r: Result<Vec<(String, String)>, rusqlite::Error>)
    requires
        table_exists(*conn),
    ensures
        r matches Ok(v) ==> v@.map_values(|p: (String, String)| (p.0@, p.1@)) == table_rows(*conn),
{
    let mut stmt = conn.prepare("SELECT date, task FROM tasks ORDER BY id")?;
    let rows = stmt.query_map((), |row| Ok((row.get(0)?, row.get(1)?)))?;
    rows.collect()
}

/// One row as a caller sees it: the timestamp string and the text.
pub struct Entry {
    pub date: String,
    pub task: String,
}

impl View for Entry {
    type V = (Seq<char>, Seq<char>);

    open spec fn view(&self) -> (Seq<char>, Seq<char>) {
        (self.date@, self.task@)
    }
}

/// An open database holding the append-only `tasks` table.
pub struct Store {
    conn: rusqlite::Connection,
}

/// The query predicate: does the row's timestamp start with `prefix`?
pub open spec fn row_matches(prefix: Seq<char>, row: RowV) -> bool {
    prefix.is_prefix_of(row.0)
}

/// The rows whose timestamp starts with `prefix`, in stored order.
pub open spec fn rows_with_prefix(rows: Seq<RowV>, prefix: Seq<char>) -> Seq<RowV> {
    rows.filter(|row: RowV| row_matches(prefix, row))
}

impl Store {
    /// The `(timestamp, text)` rows, oldest first.
    pub closed spec fn rows(self) -> Seq<RowV> {
        table_rows(self.conn)
    }

    /// Whether the entry table is in place, so that reads and writes may run.
    pub closed spec fn ready(self) -> bool {
        table_exists(self.conn)
    }

    /// Open or create the database file at `path`.
    pub fn open(path: &String) -> (r: Result<Store, AppError>)
        ensures
            r matches Err(e) ==> e == AppError::StorageUnavailable,
    {
        match open_connection(path) {
            Ok(conn) => Ok(Store { conn }),
            Err(_) => Err(AppError::StorageUnavailable),
        }
    }

    /// Idempotently ensure the entry table exists: a no-op on a database
    /// that already has it, and an empty table on one that does not.
    pub fn ensure_schema(&mut self) -> (r: Result<(), AppError>)
        ensures
            r is Ok ==> final(self).ready(),
            r is Ok && old(self).ready() ==> final(self).rows() == old(self).rows(),
            r is Ok && !old(self).ready() ==> final(self).rows() == Seq::<RowV>::empty(),
            r matches Err(e) ==> e == AppError::SchemaError && *final(self) == *old(self),
    {
        match create_table(&mut self.conn) {
            Ok(_) => Ok(()),
            Err(_) => Err(AppError::SchemaError),
        }
    }

    /// Append one entry; the stored rows grow by exactly that entry, at
    /// the end, and a failed insert leaves them as they were.
    pub fn insert(&mut self, timestamp: &String, task: &String) -> (r: Result<(), AppError>)
        requires
            old(self).ready(),
        ensures
            r is Ok ==> final(self).ready(),
            r is Ok ==> final(self).rows() == old(self).rows().push((timestamp@, task@)),
            r matches Err(e) ==> e == AppError::WriteError && *final(self) == *old(self),
    {
        match insert_row(&mut self.conn, timestamp, task) {
            Ok(_) => Ok(()),
            Err(_) => Err(AppError::WriteError),
        }
    }

    /// Every entry whose timestamp starts with `prefix`, oldest first.
    /// Reading takes the store shared, so the rows cannot change.
    pub fn query_by_date_prefix(&self, prefix: &String) -> (r: Result<Vec<Entry>, AppError>)
        requires
            self.ready(),
        ensures
            r matches Ok(v) ==> v@.map_values(|e: Entry| e@) == rows_with_prefix(self.rows(), prefix@),
            r matches Err(e) ==> e == AppError::QueryError,
    {
        let all = match select_rows(&self.conn) {
            Ok(v) => v,
            Err(_) => {
                return Err(AppError::QueryError);
            },
        };
        Ok(filter_rows_by_prefix(&all, prefix))
    }
}

/// Keep the rows whose timestamp starts with `prefix`, in order.
pub fn filter_rows_by_prefix(rows: &Vec<(String, String)>, prefix: &String) -> (r: Vec<Entry>)
    ensures
        r@.map_values(|e: Entry| e@) == rows_with_prefix(rows@.map_values(|p: (String, String)| (p.0@, p.1@)), prefix@),
{
    let ghost rows_v: Seq<RowV> = rows@.map_values(|p: (String, String)| (p.0@, p.1@));
    let mut out: Vec<Entry> = Vec::new();
    let mut i: usize = 0;
    proof {
        reveal(Seq::filter);
        assert(rows_v.take(0) =~= Seq::<RowV>::empty());
        assert(out@.map_values(|e: Entry| e@) =~= rows_with_prefix(rows_v.take(0), prefix@));
    }
    while i < rows.len()
        invariant
            i <= rows.len(),
            rows_v == rows@.map_values(|p: (String, String)| (p.0@, p.1@)),
            out@.map_values(|e: Entry| e@) == rows_with_prefix(rows_v.take(i as int), prefix@),
        decreases rows.len() - i,
    {
        let pair = &rows[i];
        let ghost prev = out@.map_values(|e: Entry| e@);
        if starts_with(pair.0.as_str(), prefix.as_str()) {
            out.push(Entry { date: pair.0.clone(), task: pair.1.clone() });
        }
        proof {
            reveal(Seq::filter);
            assert(rows_v.take(i + 1).drop_last() =~= rows_v.take(i as int));
            assert(rows_v.take(i + 1).last() == rows_v[i as int]);
            if row_matches(prefix@, rows_v[i as int]) {
                assert(out@.map_values(|e: Entry| e@) =~= prev.push(rows_v[i as int]));
            } else {
                assert(out@.map_values(|e: Entry| e@) =~= prev);
            }
        }
        i += 1;
    }
    proof {
        assert(rows_v.take(rows@.len() as int) =~= rows_v);
    }
    out
}

} // verus!
