//! Achievements. The payload of an achievement is any JSON value; the store
//! keeps it as text and looks at nothing inside it.

use crate::engine::{column_optional_text, column_text, decoded_from_row, row_cells};
use crate::json::{json_read, json_written, read_value, write_value};
use crate::sql::{
    optional_text_at, optional_text_cell, text_at, Cell, SqlValue, Statement, StatementView,
};
use crate::state::{acquire, guarded, lock_message, AppState};
use crate::store::{engine_message, list, run};
use vstd::prelude::*;

verus! {

/// Lists the achievements, newest first.
pub const ACHIEVEMENT_SELECT: &'static str =
    "SELECT id, type, unlocked_at, data FROM achievements ORDER BY unlocked_at DESC";

/// Inserts one achievement.
pub const ACHIEVEMENT_INSERT: &'static str =
    "INSERT INTO achievements (id, type, unlocked_at, data) VALUES (?1, ?2, ?3, ?4)";

/// An achievement, as a plain value but for its payload.
pub struct AchievementView {
    pub id: Seq<char>,
    pub achievement_type: Seq<char>,
    pub unlocked_at: Seq<char>,
    pub data: Option<serde_json::Value>,
}

/// Something the user has reached, with an optional payload.
#[derive(Debug, Clone, PartialEq)]
pub struct Achievement {
    pub id: String,
    pub achievement_type: String,
    pub unlocked_at: String,
    pub data: Option<serde_json::Value>,
}

impl View for Achievement {
    type V = AchievementView;

    open spec fn view(&self) -> AchievementView {
        AchievementView {
            id: self.id@,
            achievement_type: self.achievement_type@,
            unlocked_at: self.unlocked_at@,
            data: self.data,
        }
    }
}

/// The text that stores a payload: the payload written out as JSON, and
/// nothing where there is no payload or it cannot be written.
pub open spec fn payload_text(data: Option<serde_json::Value>) -> Option<Seq<char>> {
    match data {
        Some(value) => json_written(value),
        None => None,
    }
}

/// The payload that a stored column spells: the value of the text where it
/// is JSON, and none where it is not or the column is null.
pub open spec fn stored_payload(stored: Option<Seq<char>>) -> Option<serde_json::Value> {
    match stored {
        Some(text) => json_read(text),
        None => None,
    }
}

/// Writes a payload out for storage.
pub fn encode_payload(data: &Option<serde_json::Value>) -> (text: Option<String>)
    ensures
        text.deep_view() == payload_text(*data),
{
    match data {
        Some(value) => match write_value(value) {
            Ok(text) => Some(text),
            Err(_) => None,
        },
        None => None,
    }
}

/// Decodes the payload column. Text that is not JSON gives no payload and no
/// failure.
pub fn decode_payload(stored: &Option<String>) -> (data: Option<serde_json::Value>)
    ensures
        data == stored_payload(stored.deep_view()),
{
    match stored {
        Some(text) => match read_value(text.as_str()) {
            Ok(value) => Some(value),
            Err(_) => None,
        },
        None => None,
    }
}

/// The row that stores an achievement: what the insert binds, column by
/// column.
pub open spec fn achievement_cells(achievement: AchievementView) -> Seq<Cell> {
    seq![
        Cell::Text(achievement.id),
        Cell::Text(achievement.achievement_type),
        Cell::Text(achievement.unlocked_at),
        optional_text_cell(payload_text(achievement.data)),
    ]
}

/// The achievement that a row spells, where every column has the type the
/// achievement needs. The payload column never stands in the way: whatever
/// text it holds, the row is an achievement.
pub open spec fn decode_achievement(cells: Seq<Cell>) -> Option<AchievementView> {
    if text_at(cells, 0) is Some && text_at(cells, 1) is Some && text_at(cells, 2) is Some
        && optional_text_at(cells, 3) is Some {
        Some(
            AchievementView {
                id: text_at(cells, 0).unwrap(),
                achievement_type: text_at(cells, 1).unwrap(),
                unlocked_at: text_at(cells, 2).unwrap(),
                data: stored_payload(optional_text_at(cells, 3).unwrap()),
            },
        )
    } else {
        None
    }
}

/// Decodes one row of the achievement listing.
pub fn achievement_from_row(row: &rusqlite::Row<'_>) -> (decoded: Result<
    Achievement,
    rusqlite::Error,
>)
    ensures
        match decoded {
            Ok(achievement) => decode_achievement(row_cells(row)) == Some(achievement@),
            Err(_) => decode_achievement(row_cells(row)) is None,
        },
{
    let stored = column_optional_text(row, 3)?;
    let data = decode_payload(&stored);
    let id = column_text(row, 0)?;
    let achievement_type = column_text(row, 1)?;
    let unlocked_at = column_text(row, 2)?;
    Ok(Achievement { id, achievement_type, unlocked_at, data })
}

/// The statement that stores an achievement.
pub open spec fn achievement_insert(achievement: AchievementView) -> StatementView {
    StatementView { sql: ACHIEVEMENT_INSERT@, params: achievement_cells(achievement) }
}

/// Builds the statement that stores `achievement`; an absent payload is
/// bound as null.
pub fn achievement_insert_statement(achievement: &Achievement) -> (statement: Statement)
    ensures
        statement@ == achievement_insert(achievement@),
{
    let data_text = encode_payload(&achievement.data);
    let mut params: Vec<SqlValue> = Vec::new();
    params.push(SqlValue::text(&achievement.id));
    params.push(SqlValue::text(&achievement.achievement_type));
    params.push(SqlValue::text(&achievement.unlocked_at));
    params.push(SqlValue::optional_text(&data_text));
    let statement = Statement { sql: String::from_str(ACHIEVEMENT_INSERT), params };
    proof {
        assert(statement@.params =~= achievement_cells(achievement@));
    }
    statement
}

/// An achievement that some row spells.
pub open spec fn listed_achievement(value: AchievementView) -> bool {
    exists|row: &rusqlite::Row<'_>| decode_achievement(row_cells(row)) == Some(value)
}

/// Lists all achievements, the most recently unlocked first. Every
/// achievement listed is what a row of the engine's answer spells, so a
/// payload that is not JSON is absent and fails nothing. It fails where the
/// lock or the engine fails, or where a stored row is no achievement, with
/// the failure's message.
pub fn get_achievements(state: &AppState) -> (achievements: Result<Vec<Achievement>, String>)
    ensures
        match achievements {
            Ok(found) => forall|i: int|
                0 <= i < found@.len() ==> listed_achievement((#[trigger] found@[i])@),
            Err(message) => lock_message(message) || engine_message(message),
        },
{
    let held = match acquire(state) {
        Ok(held) => held,
        Err(message) => return Err(message),
    };
    let achievements = list(guarded(&held), ACHIEVEMENT_SELECT, achievement_from_row);
    proof {
        if let Ok(found) = &achievements {
            assert forall|i: int| 0 <= i < found@.len() implies listed_achievement(
                (#[trigger] found@[i])@,
            ) by {
                assert(decoded_from_row(achievement_from_row, found@[i]));
            }
        }
    }
    achievements
}

/// Stores a new achievement. Whether that succeeds is the engine's to say,
/// which refuses an achievement whose id is taken; a failure is the lock's
/// or the engine's, as its message.
pub fn add_achievement(state: &AppState, achievement: Achievement) -> (done: Result<(), String>)
    ensures
        done matches Err(message) ==> lock_message(message) || engine_message(message),
{
    let held = match acquire(state) {
        Ok(held) => held,
        Err(message) => return Err(message),
    };
    run(guarded(&held), &achievement_insert_statement(&achievement))
}

} // verus!
