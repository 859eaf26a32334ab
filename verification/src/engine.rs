//! The calls into the storage engine. Nothing in this file is proved: each
//! item says what it takes on trust.
use crate::error::Fault;
use crate::scalar::{Bound, Stored};
use crate::statement::Statement;
use rusqlite::types::Value;
use rusqlite::{Connection, ToSql};
use vstd::prelude::*;

verus! {

/// `rusqlite::Connection`, a live connection to a database. Nothing is
/// known of what it holds.
#[verifier::external_type_specification]
#[verifier::external_body]
pub struct ExConnection(rusqlite::Connection);

/// `rusqlite::Error`, a failure as the engine's binding reports it. It is
/// only handed on to [`describe`].
#[verifier::external_type_specification]
#[verifier::external_body]
pub struct ExEngineError(rusqlite::Error);

/// Calls `rusqlite::Connection::execute` with the text of the statement and
/// its parameters in order, a text bound as text and an integer as an
/// integer. Nothing is claimed of the outcome: it depends on what the
/// database holds.
#[verifier::external_body]
pub(crate) fn execute(connection: &Connection, statement: &Statement) -> (outcome: Result<
    usize,
    rusqlite::Error,
>) {
    let params = statement.params.iter().map(|p| -> &dyn ToSql {
        match p { Bound::Text(s) => s, Bound::Integer(i) => i }
    });
    connection.execute(&statement.text, rusqlite::params_from_iter(params))
}

/// Calls `rusqlite::Connection::query_row` with the text of the statement
/// and its parameters as [`execute`] binds them, and takes the first column
/// of the first row as the engine holds it, storage class for storage class.
/// Nothing is claimed of the outcome: it depends on what the database holds.
#[verifier::external_body]
pub(crate) fn query_value(connection: &Connection, statement: &Statement) -> (outcome: Result<
    Stored,
    rusqlite::Error,
>) {
    let params = statement.params.iter().map(|p| -> &dyn ToSql {
        match p { Bound::Text(s) => s, Bound::Integer(i) => i }
    });
    let params = rusqlite::params_from_iter(params);
    let first = |row: &rusqlite::Row<'_>| row.get::<usize, Value>(0);
    Ok(match connection.query_row(&statement.text, params, first)? {
        Value::Null => Stored::Null,
        Value::Integer(i) => Stored::Integer(i),
        Value::Real(_) => Stored::Real,
        Value::Text(s) => Stored::Text(s),
        Value::Blob(_) => Stored::Blob,
    })
}

/// Tells the variants of `rusqlite::Error` apart: a failure of the engine
/// with its extended result code and message, a query without rows, text
/// that is not UTF-8, and all others by their description. Nothing is
/// claimed of the result.
#[verifier::external_body]
pub(crate) fn describe(error: rusqlite::Error) -> (fault: Fault) {
    match error {
        rusqlite::Error::SqliteFailure(e, message) => Fault::Rejected {
            code: e.extended_code,
            message,
        },
        rusqlite::Error::QueryReturnedNoRows => Fault::NoRows,
        rusqlite::Error::Utf8Error(..) => Fault::Unreadable,
        other => Fault::Other { description: other.to_string() },
    }
}

} // verus!
