//! What holds of the records, their rows and their updates, whatever the
//! engine does.

use crate::commands::achievements::{
    achievement_cells, decode_achievement, payload_text, stored_payload, AchievementView,
};
use crate::commands::habits::{
    completion_cells, decode_completion, decode_habit, habit_cells, habit_update, habit_update_of,
    HabitCompletionView, HabitUpdateView, HabitView,
};
use crate::commands::mood::{
    decode_mood, mood_cells, mood_level_member, mood_update, mood_update_of, stored_tags,
    MoodEntryView, MoodUpdateView,
};
use crate::commands::pomodoro::{decode_session, session_cells, PomodoroSessionView};
use crate::json::{flag_member, json_read, tags_read, text_member, written_member};
use crate::sql::{flag_at, integer_at, optional_text_at, text_at, Cell};
use vstd::prelude::*;

verus! {

/// A row that holds in every column what the insert of a habit binds there
/// spells that habit again, field by field, the archived flag included.
pub proof fn lemma_habit_round_trip(habit: HabitView)
    ensures
        decode_habit(habit_cells(habit)) == Some(habit),
{
}

/// A row that holds in every column what the insert of a completion binds
/// there spells that completion again.
pub proof fn lemma_completion_round_trip(completion: HabitCompletionView)
    ensures
        decode_completion(completion_cells(completion)) == Some(completion),
{
}

/// A row that holds in every column what the insert of a session binds there
/// spells that session again, the completed flag included.
pub proof fn lemma_session_round_trip(session: PomodoroSessionView)
    ensures
        decode_session(session_cells(session)) == Some(session),
{
}

/// A row that holds in every column what the insert of a mood entry binds
/// there spells an entry with the same fields and with the tags that the
/// written tags read back as. Where they read back as the tags of the entry,
/// the row spells the entry itself.
pub proof fn lemma_mood_round_trip(entry: MoodEntryView, tags_text: Seq<char>)
    ensures
        decode_mood(mood_cells(entry, tags_text)) == Some(
            MoodEntryView { tags: stored_tags(Some(tags_text)), ..entry },
        ),
        tags_read(tags_text) == Some(entry.tags) ==> decode_mood(mood_cells(entry, tags_text))
            == Some(entry),
{
}

/// A row that holds in every column what the insert of an achievement binds
/// there spells an achievement with the same fields and with the payload
/// that the written payload reads back as.
pub proof fn lemma_achievement_round_trip(achievement: AchievementView)
    ensures
        decode_achievement(achievement_cells(achievement)) == Some(
            AchievementView {
                data: stored_payload(payload_text(achievement.data)),
                ..achievement
            },
        ),
{
}

/// A stored flag reads as true for every integer but 0, also one beyond 32
/// bits, and as false for 0.
pub proof fn lemma_any_nonzero_flag_is_true(cells: Seq<Cell>, idx: int, stored: i64)
    requires
        0 <= idx < cells.len(),
        cells[idx] == Cell::Integer(stored),
    ensures
        flag_at(cells, idx) == Some(stored != 0),
{
}

/// A row of the habit listing whose other columns hold what a habit needs is
/// a habit whatever integer its archived column holds, archived unless that
/// integer is 0.
pub proof fn lemma_habit_archived_unless_zero(cells: Seq<Cell>, stored: i64)
    requires
        cells.len() == 9,
        decode_habit(cells.update(8, Cell::Integer(0))) is Some,
        cells[8] == Cell::Integer(stored),
    ensures
        decode_habit(cells) is Some,
        decode_habit(cells).unwrap().archived == (stored != 0),
{
    let cleared = cells.update(8, Cell::Integer(0));
    assert(forall|i: int| 0 <= i < 8 ==> cleared[i] == cells[i]);
}

/// A row of the session listing whose other columns hold what a session
/// needs is a session whatever integer its completed column holds, completed
/// unless that integer is 0.
pub proof fn lemma_session_completed_unless_zero(cells: Seq<Cell>, stored: i64)
    requires
        cells.len() == 7,
        decode_session(cells.update(4, Cell::Integer(0))) is Some,
        cells[4] == Cell::Integer(stored),
    ensures
        decode_session(cells) is Some,
        decode_session(cells).unwrap().completed == (stored != 0),
{
    let cleared = cells.update(4, Cell::Integer(0));
    assert(forall|i: int| 0 <= i < 7 && i != 4 ==> cleared[i] == cells[i]);
}

/// A row of the achievement listing whose first three columns hold text is
/// an achievement whatever text its payload column holds; where that text is
/// not JSON, the achievement has no payload.
pub proof fn lemma_malformed_payload_is_absent(cells: Seq<Cell>, payload: Seq<char>)
    requires
        cells.len() == 4,
        text_at(cells, 0) is Some,
        text_at(cells, 1) is Some,
        text_at(cells, 2) is Some,
        cells[3] == Cell::Text(payload),
    ensures
        decode_achievement(cells) is Some,
        decode_achievement(cells).unwrap().id == text_at(cells, 0).unwrap(),
        decode_achievement(cells).unwrap().achievement_type == text_at(cells, 1).unwrap(),
        decode_achievement(cells).unwrap().unlocked_at == text_at(cells, 2).unwrap(),
        json_read(payload) is None ==> decode_achievement(cells).unwrap().data is None,
{
}

/// A row of the mood listing whose other columns hold what an entry needs
/// is a mood entry whatever text its tags column holds; where that text is
/// no list of tags, the entry has no tags.
pub proof fn lemma_malformed_tags_are_empty(cells: Seq<Cell>, tags_text: Seq<char>)
    requires
        cells.len() == 6,
        text_at(cells, 0) is Some,
        integer_at(cells, 1) is Some,
        text_at(cells, 2) is Some,
        optional_text_at(cells, 3) is Some,
        cells[4] == Cell::Text(tags_text),
        text_at(cells, 5) is Some,
    ensures
        decode_mood(cells) is Some,
        tags_read(tags_text) is None ==> decode_mood(cells).unwrap().tags == Seq::<
            Seq<char>,
        >::empty(),
{
}

/// A habit update gives no statement exactly when every slot of it is empty.
pub proof fn lemma_habit_update_without_fields(id: Seq<char>, update: HabitUpdateView)
    ensures
        habit_update(id, update) is None <==> update.name is None && update.description is None
            && update.icon is None && update.color is None && update.archived is None,
{
}

/// A mood update gives no statement exactly when every slot of it is empty.
pub proof fn lemma_mood_update_without_fields(id: Seq<char>, update: MoodUpdateView)
    ensures
        mood_update(id, update) is None <==> update.mood_level is None && update.emoji is None
            && update.journal is None && update.tags is None,
{
}

/// A field map that names no field of a habit that may change, each with a
/// value of its type, asks for no statement: the habit's row stays as it is.
pub proof fn lemma_unrecognized_habit_fields(id: Seq<char>, fields: serde_json::Value)
    requires
        text_member(fields, "name"@) is None,
        text_member(fields, "description"@) is None,
        text_member(fields, "icon"@) is None,
        text_member(fields, "color"@) is None,
        flag_member(fields, "archived"@) is None,
    ensures
        habit_update(id, habit_update_of(fields)) is None,
{
    lemma_habit_update_without_fields(id, habit_update_of(fields));
}

/// A field map that names no field of a mood entry that may change, each
/// with a value of its type, asks for no statement: the entry's row stays as
/// it is.
pub proof fn lemma_unrecognized_mood_fields(id: Seq<char>, fields: serde_json::Value)
    requires
        mood_level_member(fields) is None,
        text_member(fields, "emoji"@) is None,
        text_member(fields, "journal"@) is None,
        written_member(fields, "tags"@) is None,
    ensures
        mood_update(id, mood_update_of(fields)) is None,
{
    lemma_mood_update_without_fields(id, mood_update_of(fields));
}

} // verus!
