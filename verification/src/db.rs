//! The user store: a persistent table of `(id, username, password)`
//! records behind an SQLite connection, with a lookup-by-username
//! operation and a password-match predicate. The request path is
//! read-only; the store is mutated only by its own setup routine.

use vstd::prelude::*;

verus! {

/// A record of the user table.
#[derive(Debug, PartialEq, Eq)]
pub struct User {
    pub id: Option<i32>,
    pub username: String,
    pub password: String,
}

/// The error kinds of the store: a filesystem-level failure opening the
/// store file, a storage-engine failure during schema setup or a query,
/// or a username absent from the table.
#[derive(Debug, PartialEq, Eq)]
pub enum DatabaseError {
    Io,
    Backend,
    NotFound(String),
}

#[verifier::external_type_specification]
#[verifier::external_body]
pub struct ExConnection(rusqlite::Connection);

#[verifier::external_type_specification]
#[verifier::external_body]
pub struct ExRusqliteError(rusqlite::Error);

/// The user store: one SQLite connection against the store file. The
/// connection is used through `&self` only, so a caller that shares a
/// store across threads serializes access around it.
pub struct Database {
    conn: rusqlite::Connection,
}

/// Relies on `rusqlite::Connection::open`: opens an SQLite database at
/// `path` with the default flags, which create the store file when none
/// exists and keep an existing file's contents. What comes back depends
/// on the filesystem, so nothing more is promised of the result.
#[verifier::external_body]
fn open_connection(path: &str) -> (r: Result<rusqlite::Connection, rusqlite::Error>) {
    rusqlite::Connection::open(path)
}

/// Relies on `rusqlite::Connection::execute`: runs the idempotent
/// `CREATE TABLE IF NOT EXISTS` statement for the user table, which
/// leaves existing rows untouched. Success depends on the storage
/// engine, so nothing more is promised of the result.
#[verifier::external_body]
fn create_users_table(conn: &rusqlite::Connection) -> (r: Result<usize, rusqlite::Error>) {
    conn.execute(
        "CREATE TABLE IF NOT EXISTS users (
            id INTEGER PRIMARY KEY,
            username VARCHAR(255) NOT NULL,
            password VARCHAR(255) NOT NULL
        )",
        (),
    )
}

/// Relies on `rusqlite::Connection::prepare`, `Statement::query`,
/// `Rows::next` and `Row::get`: the first row of the user table whose
/// `username` column equals the argument, if any. The `WHERE username =
/// ?` comparison uses SQLite's default BINARY collation, so a returned
/// record's username equals the queried name exactly; which record (or
/// none) comes back depends on what is on disk.
#[verifier::external_body]
fn query_user(conn: &rusqlite::Connection, username: &str) -> (r: Result<
    Option<User>,
    rusqlite::Error,
>)
    ensures
        r matches Ok(Some(u)) ==> u.username@ == username@,
{
    let mut stmt = conn.prepare("SELECT id, username, password FROM users WHERE username = ?")?;
    let mut rows = stmt.query([username])?;
    match rows.next()? {
        Some(row) => Ok(
            Some(User { id: row.get(0)?, username: row.get(1)?, password: row.get(2)? }),
        ),
        None => Ok(None),
    }
}

/// Relies on `rusqlite::Connection::prepare`, `Statement::query` and
/// `Rows::next`: whether some row of the user table has this exact
/// `username` and `password` pair under SQLite's default BINARY
/// collation. The answer depends on what is on disk, so nothing more is
/// promised of the result.
#[verifier::external_body]
fn query_password_match(conn: &rusqlite::Connection, username: &str, password: &str) -> (r: Result<
    bool,
    rusqlite::Error,
>) {
    let mut stmt = conn.prepare("SELECT id FROM users WHERE username = ? AND password = ?")?;
    let mut rows = stmt.query([username, password])?;
    Ok(rows.next()?.is_some())
}

/// Settle an attempt to open the connection: any failure to open the
/// store file is the `Io` kind; a connection that opened is handed on.
pub fn settle_open(opened: Result<rusqlite::Connection, rusqlite::Error>) -> (r: Result<
    rusqlite::Connection,
    DatabaseError,
>)
    ensures
        opened is Ok ==> r is Ok,
        opened is Err ==> r == Err::<rusqlite::Connection, DatabaseError>(DatabaseError::Io),
{
    match opened {
        Ok(c) => Ok(c),
        Err(_) => Err(DatabaseError::Io),
    }
}

/// Settle the outcome of the lookup query: a found record is returned
/// as it came, absence becomes `NotFound` carrying the queried name,
/// and an engine failure becomes `Backend`.
pub fn settle_lookup(queried: Result<Option<User>, rusqlite::Error>, username: &str) -> (r: Result<
    User,
    DatabaseError,
>)
    ensures
        queried matches Ok(Some(u)) ==> r == Ok::<User, DatabaseError>(u),
        queried matches Ok(None) ==> (r matches Err(e) && e matches DatabaseError::NotFound(n) && n@
            == username@),
        queried is Err ==> r == Err::<User, DatabaseError>(DatabaseError::Backend),
{
    match queried {
        Ok(Some(u)) => Ok(u),
        Ok(None) => Err(DatabaseError::NotFound(username.to_owned())),
        Err(_) => Err(DatabaseError::Backend),
    }
}

fn setup_db(conn: &rusqlite::Connection) -> (r: Result<(), DatabaseError>)
    ensures
        r matches Err(e) ==> e is Backend,
{
    match create_users_table(conn) {
        Ok(_) => Ok(()),
        Err(_) => Err(DatabaseError::Backend),
    }
}

impl Database {
    /// Open the store at `path`, creating the store file when none
    /// exists, and ensure the user table's schema. Idempotent:
    /// re-opening an existing store keeps its rows. A failure to open
    /// the file is `Io`; a storage-engine failure during setup is
    /// `Backend`.
    pub fn new(path: &str) -> (r: Result<Database, DatabaseError>)
        ensures
            r matches Err(e) ==> (e is Io || e is Backend),
    {
        let conn = match settle_open(open_connection(path)) {
            Ok(c) => c,
            Err(e) => {
                return Err(e);
            },
        };
        match setup_db(&conn) {
            Ok(_) => Ok(Database { conn }),
            Err(e) => Err(e),
        }
    }

    /// Look up the first record whose username equals `username`
    /// exactly. Absence yields `NotFound` carrying the queried name; a
    /// storage-engine failure yields `Backend`.
    pub fn get_user_by_username(&self, username: &str) -> (r: Result<User, DatabaseError>)
        ensures
            r matches Ok(u) ==> u.username@ == username@,
            r matches Err(e) ==> (e is Backend || (e matches DatabaseError::NotFound(n) && n@
                == username@)),
    {
        settle_lookup(query_user(&self.conn, username), username)
    }

    /// Whether a record exists whose username and password both equal
    /// the given pair exactly. The store decides the answer; a
    /// storage-engine failure yields `Backend`.
    pub fn check_password(&self, user: &User, password: &str) -> (r: Result<bool, DatabaseError>)
        ensures
            r matches Err(e) ==> e is Backend,
    {
        match query_password_match(&self.conn, user.username.as_str(), password) {
            Ok(b) => Ok(b),
            Err(_) => Err(DatabaseError::Backend),
        }
    }
}

} // verus!
