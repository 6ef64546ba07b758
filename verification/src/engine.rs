//! The boundary to the embedded database engine. Everything in this file is
//! believed, not proved: each item names the engine call it stands for.

use crate::sql::{
    flag_at, integer_at, optional_text_at, text_at, Cell, SqlValue, Statement,
};
use vstd::prelude::*;

verus! {

/// `rusqlite::Connection`, an open database. Nothing is known of its contents.
#[verifier::external_type_specification]
#[verifier::external_body]
pub struct ExConnection(rusqlite::Connection);

/// `rusqlite::Error`, whatever the engine reports.
#[verifier::external_type_specification]
#[verifier::external_body]
pub struct ExEngineError(rusqlite::Error);

/// `rusqlite::Row`, the current row of a running query.
#[verifier::external_type_specification]
#[verifier::external_body]
pub struct ExRow<'stmt>(rusqlite::Row<'stmt>);

/// `std::path::PathBuf`, a location in the file system.
#[verifier::external_type_specification]
#[verifier::external_body]
pub struct ExPathBuf(std::path::PathBuf);

/// The columns of a row, first column first.
pub uninterp spec fn row_cells(row: &rusqlite::Row<'_>) -> Seq<Cell>;

/// `Connection::open`: opens the database file at `path`, creating it where
/// it is missing. Whether that succeeds is the file system's to say.
#[verifier::external_body]
pub(crate) fn open(path: &std::path::PathBuf) -> (opened: Result<
    rusqlite::Connection,
    rusqlite::Error,
>) {
    rusqlite::Connection::open(path)
}

/// `Connection::execute_batch`: runs the statements of `script` one after the
/// other, none of them with placeholders.
#[verifier::external_body]
pub(crate) fn execute_batch(conn: &rusqlite::Connection, script: &str) -> (done: Result<
    (),
    rusqlite::Error,
>) {
    conn.execute_batch(script)
}

/// `Connection::execute` with `rusqlite::params_from_iter`: runs one
/// statement with its values bound in order, and reports how many rows it
/// changed. The outcome depends on what the database holds.
#[verifier::external_body]
pub(crate) fn execute(conn: &rusqlite::Connection, statement: &Statement) -> (changed: Result<
    usize,
    rusqlite::Error,
>) {
    let values = statement.params.iter().map(
        |value|
            match value {
                SqlValue::Null => rusqlite::types::Value::Null,
                SqlValue::Integer(i) => rusqlite::types::Value::Integer(*i),
                SqlValue::Text(text) => rusqlite::types::Value::Text(text.clone()),
            },
    );
    conn.execute(&statement.sql, rusqlite::params_from_iter(values))
}

/// What `decode` makes of some row: a value that it returns for one.
pub open spec fn decoded_from_row<T, F: Fn(&rusqlite::Row<'_>) -> Result<T, rusqlite::Error>>(
    decode: F,
    value: T,
) -> bool {
    exists|row: &rusqlite::Row<'_>| decode.ensures((row,), Ok::<T, rusqlite::Error>(value))
}

/// `Connection::prepare`, `Statement::query_map` and the collection of its
/// rows: runs a query without placeholders and hands every row to `decode`,
/// in the order the engine yields them. The first failure, of the engine or
/// of `decode`, ends the query and is returned; without one, what comes back
/// is, row by row, what `decode` returned. Which rows there are depends on
/// what the database holds.
#[verifier::external_body]
pub(crate) fn query_rows<T, F: Fn(&rusqlite::Row<'_>) -> Result<T, rusqlite::Error>>(
    conn: &rusqlite::Connection,
    sql: &str,
    decode: F,
) -> (rows: Result<Vec<T>, rusqlite::Error>)
    requires
        forall|row: &rusqlite::Row<'_>| decode.requires((row,)),
    ensures
        rows matches Ok(found) ==> forall|i: int|
            0 <= i < found@.len() ==> decoded_from_row(decode, #[trigger] found@[i]),
{
    let mut stmt = conn.prepare(sql)?;
    let rows = stmt.query_map([], decode)?;
    rows.collect()
}

/// `Row::get` for `String`: the text of column `idx`. It fails where the row
/// has no such column or the column holds anything but well-formed text.
#[verifier::external_body]
pub(crate) fn column_text(row: &rusqlite::Row<'_>, idx: usize) -> (got: Result<
    String,
    rusqlite::Error,
>)
    ensures
        match got {
            Ok(text) => text_at(row_cells(row), idx as int) == Some(text@),
            Err(_) => text_at(row_cells(row), idx as int) is None,
        },
{
    row.get(idx)
}

/// `Row::get` for `Option<String>`: as for `String`, but a null column gives
/// `None` instead of a failure.
#[verifier::external_body]
pub(crate) fn column_optional_text(row: &rusqlite::Row<'_>, idx: usize) -> (got: Result<
    Option<String>,
    rusqlite::Error,
>)
    ensures
        match got {
            Ok(text) => optional_text_at(row_cells(row), idx as int) == Some(text.deep_view()),
            Err(_) => optional_text_at(row_cells(row), idx as int) is None,
        },
{
    row.get(idx)
}

/// `Row::get` for `i32`: the integer of column `idx`. It fails where the row
/// has no such column, the column holds no integer, or the integer does not
/// fit in 32 bits.
#[verifier::external_body]
pub(crate) fn column_integer(row: &rusqlite::Row<'_>, idx: usize) -> (got: Result<
    i32,
    rusqlite::Error,
>)
    ensures
        match got {
            Ok(i) => integer_at(row_cells(row), idx as int) == Some(i),
            Err(_) => integer_at(row_cells(row), idx as int) is None,
        },
{
    row.get(idx)
}

/// `Row::get` for `bool`: the flag of column `idx`, true for every stored
/// integer but 0. It fails where the row has no such column or the column
/// holds no integer.
#[verifier::external_body]
pub(crate) fn column_flag(row: &rusqlite::Row<'_>, idx: usize) -> (got: Result<
    bool,
    rusqlite::Error,
>)
    ensures
        match got {
            Ok(flag) => flag_at(row_cells(row), idx as int) == Some(flag),
            Err(_) => flag_at(row_cells(row), idx as int) is None,
        },
{
    row.get(idx)
}

} // verus!
