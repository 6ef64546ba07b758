//! The steps that every operation shares: take the lock, hand one statement
//! or one query to the engine, and turn what comes back into the operation's
//! result. Failures reach the caller as messages.

use crate::db::Database;
use crate::engine::{decoded_from_row, execute, query_rows};
use crate::sql::{Cell, SqlValue, Statement, StatementView};
use vstd::prelude::*;
use vstd::string::to_string_from_display_ensures;

verus! {

/// The statement that deletes the row `id`: `sql` with the id bound to its
/// single placeholder.
pub open spec fn delete_of(sql: Seq<char>, id: Seq<char>) -> StatementView {
    StatementView { sql, params: seq![Cell::Text(id)] }
}

/// Builds the statement that deletes the row `id` with the text `sql`.
pub fn delete_statement(sql: &str, id: &String) -> (statement: Statement)
    ensures
        statement@ == delete_of(sql@, id@),
{
    let mut params: Vec<SqlValue> = Vec::new();
    params.push(SqlValue::text(id));
    let statement = Statement { sql: String::from_str(sql), params };
    proof {
        assert(statement@.params =~= seq![Cell::Text(id@)]);
    }
    statement
}

/// The result of a write, given what the engine answered: success whatever
/// the number of rows it changed, so also where no row had the id; else the
/// engine's failure as its message.
pub fn written(outcome: Result<usize, rusqlite::Error>) -> (done: Result<(), String>)
    ensures
        match outcome {
            Ok(_) => done is Ok,
            Err(failure) => done is Err && to_string_from_display_ensures(
                &failure,
                done->Err_0,
            ),
        },
{
    match outcome {
        Ok(_) => Ok(()),
        Err(failure) => Err(failure.to_string()),
    }
}

/// The result of a listing, given what the engine answered: the rows as they
/// came, or the engine's failure as its message.
pub fn listed<T>(outcome: Result<Vec<T>, rusqlite::Error>) -> (rows: Result<Vec<T>, String>)
    ensures
        match outcome {
            Ok(found) => rows == Ok::<Vec<T>, String>(found),
            Err(failure) => rows is Err && to_string_from_display_ensures(
                &failure,
                rows->Err_0,
            ),
        },
{
    match outcome {
        Ok(found) => Ok(found),
        Err(failure) => Err(failure.to_string()),
    }
}

/// A message that renders a failure of the engine.
pub open spec fn engine_message(message: String) -> bool {
    exists|failure: rusqlite::Error| to_string_from_display_ensures(&failure, message)
}

/// Runs one statement on the database. Whether it succeeds is the engine's
/// to say; a failure is the engine's, as its message.
pub(crate) fn run(db: &Database, statement: &Statement) -> (done: Result<(), String>)
    ensures
        done matches Err(message) ==> engine_message(message),
{
    written(execute(&db.conn, statement))
}

/// Runs the statement of a partial update, where there is one. Without a
/// statement nothing is handed to the engine and the update has succeeded;
/// with one, a failure is the engine's, as its message.
pub(crate) fn run_if_any(db: &Database, statement: &Option<Statement>) -> (done: Result<
    (),
    String,
>)
    ensures
        statement is None ==> done is Ok,
        done matches Err(message) ==> engine_message(message),
{
    match statement {
        Some(built) => run(db, built),
        None => Ok(()),
    }
}

/// Runs one query on the database and decodes every row of its answer: what
/// comes back is, row by row, what `decode` returned, and a failure is the
/// engine's or that of `decode`, as its message.
pub(crate) fn list<T, F: Fn(&rusqlite::Row<'_>) -> Result<T, rusqlite::Error>>(
    db: &Database,
    sql: &str,
    decode: F,
) -> (rows: Result<Vec<T>, String>)
    requires
        forall|row: &rusqlite::Row<'_>| decode.requires((row,)),
    ensures
        match rows {
            Ok(found) => forall|i: int|
                0 <= i < found@.len() ==> decoded_from_row(decode, #[trigger] found@[i]),
            Err(message) => engine_message(message),
        },
{
    listed(query_rows(&db.conn, sql, decode))
}

} // verus!
