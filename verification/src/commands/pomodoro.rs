//! Pomodoro sessions. A session is written once and never changed.

use crate::engine::{
    column_flag, column_integer, column_optional_text, column_text, decoded_from_row,
    row_cells,
};
use crate::sql::{
    flag_at, flag_cell, integer_at, optional_text_at, optional_text_cell, text_at, Cell, SqlValue,
    Statement, StatementView,
};
use crate::state::{acquire, guarded, lock_message, AppState};
use crate::store::{engine_message, list, run};
use vstd::prelude::*;

verus! {

/// Lists the sessions, newest first.
pub const SESSION_SELECT: &'static str =
    "SELECT id, habit_id, duration, type, completed, started_at, ended_at FROM pomodoro_sessions ORDER BY started_at DESC";

/// Inserts one session.
pub const SESSION_INSERT: &'static str =
    "INSERT INTO pomodoro_sessions (id, habit_id, duration, type, completed, started_at, ended_at) VALUES (?1, ?2, ?3, ?4, ?5, ?6, ?7)";

/// A session, as a plain value.
pub struct PomodoroSessionView {
    pub id: Seq<char>,
    pub habit_id: Option<Seq<char>>,
    pub duration: i32,
    pub session_type: Seq<char>,
    pub completed: bool,
    pub started_at: Seq<char>,
    pub ended_at: Option<Seq<char>>,
}

/// One stretch of timed work or rest. It may name a habit; when that habit
/// is deleted the session stays and names none.
#[derive(Debug, Clone, PartialEq)]
pub struct PomodoroSession {
    pub id: String,
    pub habit_id: Option<String>,
    pub duration: i32,
    pub session_type: String,
    pub completed: bool,
    pub started_at: String,
    pub ended_at: Option<String>,
}

impl View for PomodoroSession {
    type V = PomodoroSessionView;

    open spec fn view(&self) -> PomodoroSessionView {
        PomodoroSessionView {
            id: self.id@,
            habit_id: self.habit_id.deep_view(),
            duration: self.duration,
            session_type: self.session_type@,
            completed: self.completed,
            started_at: self.started_at@,
            ended_at: self.ended_at.deep_view(),
        }
    }
}

/// The row that stores a session: what the insert binds, column by column.
pub open spec fn session_cells(session: PomodoroSessionView) -> Seq<Cell> {
    seq![
        Cell::Text(session.id),
        optional_text_cell(session.habit_id),
        Cell::Integer(session.duration as i64),
        Cell::Text(session.session_type),
        flag_cell(session.completed),
        Cell::Text(session.started_at),
        optional_text_cell(session.ended_at),
    ]
}

/// The session that a row spells, where every column has the type the
/// session needs; the completed flag is true for every stored integer but 0.
pub open spec fn decode_session(cells: Seq<Cell>) -> Option<PomodoroSessionView> {
    if text_at(cells, 0) is Some && optional_text_at(cells, 1) is Some && integer_at(cells, 2)
        is Some && text_at(cells, 3) is Some && flag_at(cells, 4) is Some && text_at(cells, 5)
        is Some && optional_text_at(cells, 6) is Some {
        Some(
            PomodoroSessionView {
                id: text_at(cells, 0).unwrap(),
                habit_id: optional_text_at(cells, 1).unwrap(),
                duration: integer_at(cells, 2).unwrap(),
                session_type: text_at(cells, 3).unwrap(),
                completed: flag_at(cells, 4).unwrap(),
                started_at: text_at(cells, 5).unwrap(),
                ended_at: optional_text_at(cells, 6).unwrap(),
            },
        )
    } else {
        None
    }
}

/// Decodes one row of the session listing.
pub fn session_from_row(row: &rusqlite::Row<'_>) -> (decoded: Result<
    PomodoroSession,
    rusqlite::Error,
>)
    ensures
        match decoded {
            Ok(session) => decode_session(row_cells(row)) == Some(session@),
            Err(_) => decode_session(row_cells(row)) is None,
        },
{
    let id = column_text(row, 0)?;
    let habit_id = column_optional_text(row, 1)?;
    let duration = column_integer(row, 2)?;
    let session_type = column_text(row, 3)?;
    let completed = column_flag(row, 4)?;
    let started_at = column_text(row, 5)?;
    let ended_at = column_optional_text(row, 6)?;
    Ok(PomodoroSession { id, habit_id, duration, session_type, completed, started_at, ended_at })
}

/// The statement that stores a session.
pub open spec fn session_insert(session: PomodoroSessionView) -> StatementView {
    StatementView { sql: SESSION_INSERT@, params: session_cells(session) }
}

/// Builds the statement that stores `session`; an absent habit and an absent
/// end are bound as null.
pub fn session_insert_statement(session: &PomodoroSession) -> (statement: Statement)
    ensures
        statement@ == session_insert(session@),
{
    let mut params: Vec<SqlValue> = Vec::new();
    params.push(SqlValue::text(&session.id));
    params.push(SqlValue::optional_text(&session.habit_id));
    params.push(SqlValue::integer(session.duration));
    params.push(SqlValue::text(&session.session_type));
    params.push(SqlValue::flag(session.completed));
    params.push(SqlValue::text(&session.started_at));
    params.push(SqlValue::optional_text(&session.ended_at));
    let statement = Statement { sql: String::from_str(SESSION_INSERT), params };
    proof {
        assert(statement@.params =~= session_cells(session@));
    }
    statement
}

/// A session that some row spells.
pub open spec fn listed_session(value: PomodoroSessionView) -> bool {
    exists|row: &rusqlite::Row<'_>| decode_session(row_cells(row)) == Some(value)
}

/// Lists all sessions, the most recently started first. Every session
/// listed is what a row of the engine's answer spells. It fails where the
/// lock or the engine fails, or where a stored row is no session, with the
/// failure's message.
pub fn get_pomodoro_sessions(state: &AppState) -> (sessions: Result<Vec<PomodoroSession>, String>)
    ensures
        match sessions {
            Ok(found) => forall|i: int|
                0 <= i < found@.len() ==> listed_session((#[trigger] found@[i])@),
            Err(message) => lock_message(message) || engine_message(message),
        },
{
    let held = match acquire(state) {
        Ok(held) => held,
        Err(message) => return Err(message),
    };
    let sessions = list(guarded(&held), SESSION_SELECT, session_from_row);
    proof {
        if let Ok(found) = &sessions {
            assert forall|i: int| 0 <= i < found@.len() implies listed_session(
                (#[trigger] found@[i])@,
            ) by {
                assert(decoded_from_row(session_from_row, found@[i]));
            }
        }
    }
    sessions
}

/// Stores a new session. Whether that succeeds is the engine's to say, which
/// refuses a session whose id is taken or whose habit is unknown; a failure
/// is the lock's or the engine's, as its message.
pub fn add_pomodoro_session(state: &AppState, session: PomodoroSession) -> (done: Result<
    (),
    String,
>)
    ensures
        done matches Err(message) ==> lock_message(message) || engine_message(message),
{
    let held = match acquire(state) {
        Ok(held) => held,
        Err(message) => return Err(message),
    };
    run(guarded(&held), &session_insert_statement(&session))
}

} // verus!
