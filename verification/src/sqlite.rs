//! The calls into `rusqlite`.
//!
//! What a statement returns depends on the database file, which other
//! connections may change between two calls, so these functions promise
//! nothing about what the database answers: callers are verified for
//! whatever comes back. The one promise made is of a failure that the
//! argument alone decides.

use vstd::prelude::*;
use crate::repository::Note;

verus! {

#[verifier::external_type_specification]
#[verifier::external_body]
pub struct ExConnection(rusqlite::Connection);

#[verifier::external_type_specification]
#[verifier::external_body]
pub struct ExStatement<'conn>(rusqlite::Statement<'conn>);

#[verifier::external_type_specification]
#[verifier::external_body]
pub struct ExTransaction<'conn>(rusqlite::Transaction<'conn>);

#[verifier::external_type_specification]
#[verifier::external_body]
pub struct ExError(rusqlite::Error);

/// `Connection::open`: opens the database at `path`, creating the file
/// where there is none. The call fails where the path cannot be made a C
/// string, that is where it holds a NUL character; of every other path
/// nothing is claimed.
#[verifier::external_body]
pub(crate) fn open(path: &str) -> (res: Result<rusqlite::Connection, rusqlite::Error>)
    ensures
        path@.contains('\0') ==> res is Err,
{
    rusqlite::Connection::open(path)
}

/// `Connection::execute`: runs one statement that returns no rows, with
/// `ids` bound to its positional parameters, and gives the number of rows
/// it changed. Nothing is claimed of the outcome.
#[verifier::external_body]
pub(crate) fn execute(conn: &rusqlite::Connection, sql: &str, ids: &Vec<usize>) -> (res: Result<
    usize,
    rusqlite::Error,
>) {
    conn.execute(sql, rusqlite::params_from_iter(ids.iter()))
}

/// `Connection::prepare`: compiles `sql` for this connection. Nothing is
/// claimed of the outcome.
#[verifier::external_body]
pub(crate) fn prepare<'c>(conn: &'c rusqlite::Connection, sql: &str) -> (res: Result<
    rusqlite::Statement<'c>,
    rusqlite::Error,
>) {
    conn.prepare(sql)
}

/// `Statement::query_map`: runs a prepared `SELECT id, title, text ..` with
/// `ids` bound to its positional parameters and reads every row into a
/// [`Note`], in the order the database yields them; the first row that
/// cannot be read makes the whole call fail. Nothing is claimed of the
/// outcome.
#[verifier::external_body]
pub(crate) fn query_notes(stmt: &mut rusqlite::Statement<'_>, ids: &Vec<usize>) -> (res: Result<
    Vec<Note>,
    rusqlite::Error,
>) {
    stmt.query_map(
        rusqlite::params_from_iter(ids.iter()),
        |row| Ok(Note::new(row.get(0)?, row.get(1)?, row.get(2)?)),
    )?.collect()
}

/// `Connection::transaction`: begins a transaction that is rolled back
/// when the value is dropped without a commit. Nothing is claimed of the
/// outcome.
#[verifier::external_body]
pub(crate) fn begin<'c>(conn: &'c mut rusqlite::Connection) -> (res: Result<
    rusqlite::Transaction<'c>,
    rusqlite::Error,
>) {
    conn.transaction()
}

/// `Transaction::deref`: the connection the transaction runs on.
#[verifier::external_body]
pub(crate) fn connection_of<'t>(tx: &'t rusqlite::Transaction<'_>) -> (conn:
    &'t rusqlite::Connection) {
    tx
}

/// `Statement::execute`: runs a prepared statement that returns no rows
/// with `title` and `text` bound to its two positional parameters, and
/// gives the number of rows it changed. Nothing is claimed of the outcome.
#[verifier::external_body]
pub(crate) fn execute_prepared(stmt: &mut rusqlite::Statement<'_>, title: &str, text: &str) -> (res:
    Result<usize, rusqlite::Error>) {
    stmt.execute([title, text])
}

/// `Transaction::commit`: commits and ends the transaction. Nothing is
/// claimed of the outcome.
#[verifier::external_body]
pub(crate) fn commit(tx: rusqlite::Transaction<'_>) -> (res: Result<(), rusqlite::Error>) {
    tx.commit()
}

} // verus!
