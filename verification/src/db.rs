//! The store: one connection to the history table, behind a lock.

use std::sync::Arc;
use vstd::prelude::*;
use crate::event::ClipboardEvent;
use crate::record::{history_of_rows, present_all, present_some, HistoryRecord, StoredRecord};

verus! {

/// `rusqlite::Connection`, carried as an opaque value.
#[verifier::external_type_specification]
#[verifier::external_body]
pub struct ExConnection(rusqlite::Connection);

/// `rusqlite::Error`, carried as an opaque value.
#[verifier::external_type_specification]
#[verifier::external_body]
pub struct ExSqlError(rusqlite::Error);

/// `std::sync::Mutex`, carried as an opaque value.
#[verifier::external_type_specification]
#[verifier::external_body]
#[verifier::reject_recursive_types(T)]
pub struct ExMutex<T: ?Sized>(std::sync::Mutex<T>);

/// `std::sync::MutexGuard`, carried as an opaque value.
#[verifier::external_type_specification]
#[verifier::external_body]
#[verifier::reject_recursive_types(T)]
pub struct ExMutexGuard<'a, T: ?Sized + 'a>(std::sync::MutexGuard<'a, T>);

/// `rusqlite::Connection::open`: opens the file at `path` as a database,
/// or says why it could not. Nothing is claimed of the outcome.
#[verifier::external_body]
fn open_connection(path: &str) -> (opened: Result<rusqlite::Connection, rusqlite::Error>) {
    rusqlite::Connection::open(path)
}

/// `std::sync::Mutex::new`: puts the connection behind a lock.
#[verifier::external_body]
fn lock_up(conn: rusqlite::Connection) -> (locked: std::sync::Mutex<rusqlite::Connection>) {
    std::sync::Mutex::new(conn)
}

/// `std::sync::Mutex::lock`: waits for the lock and takes it. A lock that
/// a panicking holder left poisoned is taken all the same.
#[verifier::external_body]
fn take_lock<'a>(locked: &'a std::sync::Mutex<rusqlite::Connection>) -> (guard: std::sync::MutexGuard<
    'a,
    rusqlite::Connection,
>) {
    locked.lock().unwrap_or_else(|poisoned| poisoned.into_inner())
}

/// `rusqlite::Connection::execute`: runs one statement with the given
/// texts bound to its parameters in order, and gives the number of rows
/// changed or the error. Nothing is claimed of the outcome, which depends
/// on what the database holds.
#[verifier::external_body]
fn execute_statement(
    conn: &std::sync::MutexGuard<'_, rusqlite::Connection>,
    sql: &str,
    values: &Vec<String>,
) -> (done: Result<usize, rusqlite::Error>) {
    conn.execute(sql, rusqlite::params_from_iter(values.iter()))
}

/// `rusqlite::Connection::prepare` and `rusqlite::Statement::query_map`:
/// runs a query of five text columns with `limit` bound to its one
/// parameter, and gives the rows in the order the database returns them,
/// or the first error. Nothing is claimed of the outcome, which depends
/// on what the database holds.
#[verifier::external_body]
fn query_rows(conn: &std::sync::MutexGuard<'_, rusqlite::Connection>, sql: &str, limit: i64) -> (rows:
    Result<Vec<StoredRecord>, rusqlite::Error>) {
    let mut statement = conn.prepare(sql)?;
    let rows = statement.query_map([limit], |row| {
        Ok(StoredRecord {
            id: row.get(0)?,
            content: row.get(1)?,
            content_type: row.get(2)?,
            create_time: row.get(3)?,
            tags: row.get(4)?,
        })
    })?;
    rows.collect()
}

/// `rusqlite::Error`'s `Display`: the error in words. Nothing is claimed of the text.
#[verifier::external_body]
fn error_text(error: &rusqlite::Error) -> (text: String) {
    error.to_string()
}

/// Why the store could not do what was asked, with the cause in words.
#[derive(Debug, Clone)]
pub enum StorageFault {
    /// The file could not be opened or the table could not be made.
    Init(String),
    /// An event could not be written.
    Write(String),
    /// The history could not be read.
    Read(String),
}

impl StorageFault {
    /// The cause in words.
    pub fn message(&self) -> (text: String)
        ensures
            text@ == self.message_spec(),
    {
        match self {
            StorageFault::Init(text) => text.clone(),
            StorageFault::Write(text) => text.clone(),
            StorageFault::Read(text) => text.clone(),
        }
    }

    /// The cause in words.
    pub open spec fn message_spec(self) -> Seq<char> {
        match self {
            StorageFault::Init(text) => text@,
            StorageFault::Write(text) => text@,
            StorageFault::Read(text) => text@,
        }
    }
}

/// The file that holds the history, beside the program.
pub const HISTORY_FILE: &'static str = "clipboard_history.db";

/// Makes the history table unless it is there.
pub const CREATE_TABLE: &'static str = "CREATE TABLE IF NOT EXISTS clipboard_history (
                id TEXT PRIMARY KEY,
                content TEXT NOT NULL,
                content_type TEXT NOT NULL,
                create_time TEXT NOT NULL,
                tags TEXT
            )";

/// Adds one row; its five parameters are the columns in table order.
pub const INSERT_ROW: &'static str = "INSERT INTO clipboard_history (id, content, content_type, create_time, tags)
             VALUES (?1, ?2, ?3, ?4, ?5)";

/// Reads the rows with the greatest `create_time` text first; its one
/// parameter is the greatest number of rows to give.
pub const SELECT_NEWEST: &'static str = "SELECT id, content, content_type, create_time, tags 
             FROM clipboard_history 
             ORDER BY create_time DESC 
             LIMIT ?";

/// What a caller is told when making the table ended as `done`: success,
/// or an `Init` fault with the cause.
pub fn init_outcome(done: Result<usize, String>) -> (made: Result<(), StorageFault>)
    ensures
        match done {
            Ok(_) => made is Ok,
            Err(cause) => made == Err::<(), StorageFault>(StorageFault::Init(cause)),
        },
{
    match done {
        Ok(_) => Ok(()),
        Err(cause) => Err(StorageFault::Init(cause)),
    }
}

/// What a caller is told when writing a row ended as `done`: success, or
/// a `Write` fault with the cause.
pub fn save_outcome(done: Result<usize, String>) -> (saved: Result<(), StorageFault>)
    ensures
        match done {
            Ok(_) => saved is Ok,
            Err(cause) => saved == Err::<(), StorageFault>(StorageFault::Write(cause)),
        },
{
    match done {
        Ok(_) => Ok(()),
        Err(cause) => Err(StorageFault::Write(cause)),
    }
}

/// The first `limit` of the items, or all of them where there are no
/// more than that or the limit is negative.
pub open spec fn page<A>(items: Seq<A>, limit: int) -> Seq<A> {
    if 0 <= limit < items.len() {
        items.take(limit)
    } else {
        items
    }
}

/// What a caller who asked for at most `limit` entries is told when the
/// query ended as `fetched`: the entries that show its first `limit`
/// rows, one for one and in its order, or a `Read` fault with the cause.
/// A negative limit sets no bound.
pub fn history_outcome(fetched: Result<Vec<StoredRecord>, String>, limit: i32) -> (history: Result<
    Vec<HistoryRecord>,
    StorageFault,
>)
    ensures
        match fetched {
            Ok(rows) => history matches Ok(entries) && present_all(
                entries@,
                page(rows@, limit as int),
            ),
            Err(cause) => history == Err::<Vec<HistoryRecord>, StorageFault>(
                StorageFault::Read(cause),
            ),
        },
{
    match fetched {
        Ok(rows) => {
            let mut rows = rows;
            if limit >= 0 && rows.len() > limit as usize {
                rows.truncate(limit as usize);
            }
            Ok(history_of_rows(&rows))
        },
        Err(cause) => Err(StorageFault::Read(cause)),
    }
}

/// What a caller is told when opening the file ended as `opened`: the
/// store over that connection once the history table is made, or an
/// `Init` fault, with the cause where the file did not open.
pub fn open_outcome(opened: Result<rusqlite::Connection, String>) -> (store: Result<
    Database,
    StorageFault,
>)
    ensures
        store matches Err(fault) ==> fault is Init,
        opened matches Err(cause) ==> store matches Err(fault) && fault == StorageFault::Init(
            cause,
        ),
{
    match opened {
        Ok(conn) => {
            let db = Database { conn: Arc::new(lock_up(conn)) };
            match db.init() {
                Ok(()) => Ok(db),
                Err(fault) => Err(fault),
            }
        },
        Err(cause) => Err(StorageFault::Init(cause)),
    }
}

fn in_words<T>(outcome: Result<T, rusqlite::Error>) -> (told: Result<T, String>)
    ensures
        match outcome {
            Ok(value) => told == Ok::<T, String>(value),
            Err(_) => told is Err,
        },
{
    match outcome {
        Ok(value) => Ok(value),
        Err(error) => Err(error_text(&error)),
    }
}

/// The store. Copies share the one connection and its lock.
#[derive(Clone)]
pub struct Database {
    conn: Arc<std::sync::Mutex<rusqlite::Connection>>,
}

impl Database {
    /// Opens the store at `path` and makes sure that the history table
    /// exists. Any failure is an `Init` fault.
    pub fn new(path: &str) -> (opened: Result<Database, StorageFault>)
        ensures
            opened matches Err(fault) ==> fault is Init,
    {
        open_outcome(in_words(open_connection(path)))
    }

    /// Makes the history table unless it is there already. Any failure is
    /// an `Init` fault.
    pub fn init(&self) -> (made: Result<(), StorageFault>)
        ensures
            made matches Err(fault) ==> fault is Init,
    {
        let guard = take_lock(&self.conn);
        let none: Vec<String> = Vec::new();
        init_outcome(in_words(execute_statement(&guard, CREATE_TABLE, &none)))
    }

    /// Writes `event` to the history table as the row that encodes it.
    /// Any failure is a `Write` fault.
    pub fn save_event(&self, event: &ClipboardEvent) -> (saved: Result<(), StorageFault>)
        ensures
            saved matches Err(fault) ==> fault is Write,
    {
        let values = StoredRecord::of_event(event).columns();
        let guard = take_lock(&self.conn);
        save_outcome(in_words(execute_statement(&guard, INSERT_ROW, &values)))
    }

    /// Reads up to `limit` entries, those with the greatest `create_time`
    /// text first; a negative limit sets no bound. The entries show the
    /// rows that the query gave, one for one and in its order, and are no
    /// more than were asked for. Any failure is a `Read` fault.
    pub fn get_history(&self, limit: i32) -> (history: Result<Vec<HistoryRecord>, StorageFault>)
        ensures
            history matches Err(fault) ==> fault is Read,
            history matches Ok(entries) ==> present_some(entries@) && (limit >= 0
                ==> entries@.len() <= limit),
    {
        let guard = take_lock(&self.conn);
        let fetched = in_words(query_rows(&guard, SELECT_NEWEST, limit as i64));
        let history = history_outcome(fetched, limit);
        proof {
            if history is Ok {
                assert(present_all(history->Ok_0@, page(fetched->Ok_0@, limit as int)));
            }
        }
        history
    }
}

} // verus!
