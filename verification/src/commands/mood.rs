//! Mood entries. The tags of an entry are stored in one column, as a JSON
//! array of strings.

use crate::db::Database;
use crate::engine::{
    column_integer, column_optional_text, column_text, decoded_from_row, row_cells,
};
use crate::json::{
    integer_field, integer_member, json_message, read_tags, tags_read, tags_written, text_field, text_member,
    write_tags, written_field, written_member,
};
use crate::sql::{
    integer_at, optional_text_at, optional_text_cell, text_at, Cell, SqlValue, Statement,
    StatementView,
};
use crate::state::{acquire, guarded, lock_message, AppState};
use crate::store::{delete_statement, engine_message, list, run, run_if_any};
use crate::update::{
    assign_integer, assign_text, assignment_views, integer_assignment, text_assignment,
    update_of, update_statement, Assignment, AssignmentView,
};
use vstd::prelude::*;

verus! {

/// Lists the mood entries, newest first.
pub const MOOD_SELECT: &'static str =
    "SELECT id, mood_level, emoji, journal, tags, created_at FROM mood_entries ORDER BY created_at DESC";

/// Inserts one mood entry.
pub const MOOD_INSERT: &'static str =
    "INSERT INTO mood_entries (id, mood_level, emoji, journal, tags, created_at) VALUES (?1, ?2, ?3, ?4, ?5, ?6)";

/// Deletes the mood entry with an id.
pub const MOOD_DELETE: &'static str = "DELETE FROM mood_entries WHERE id = ?";

/// The table of the mood entries.
pub const MOOD_TABLE: &'static str = "mood_entries";

/// A mood entry, as a plain value.
pub struct MoodEntryView {
    pub id: Seq<char>,
    pub mood_level: i32,
    pub emoji: Seq<char>,
    pub journal: Option<Seq<char>>,
    pub tags: Seq<Seq<char>>,
    pub created_at: Seq<char>,
}

/// How the user felt at one moment, with an optional note and any number of
/// tags, in the order the user gave them.
#[derive(Debug, Clone, PartialEq)]
pub struct MoodEntry {
    pub id: String,
    pub mood_level: i32,
    pub emoji: String,
    pub journal: Option<String>,
    pub tags: Vec<String>,
    pub created_at: String,
}

impl View for MoodEntry {
    type V = MoodEntryView;

    open spec fn view(&self) -> MoodEntryView {
        MoodEntryView {
            id: self.id@,
            mood_level: self.mood_level,
            emoji: self.emoji@,
            journal: self.journal.deep_view(),
            tags: self.tags.deep_view(),
            created_at: self.created_at@,
        }
    }
}

/// The tags that a stored column spells: those of the text where it is a
/// JSON array of strings, and none where it is anything else or missing.
pub open spec fn stored_tags(stored: Option<Seq<char>>) -> Seq<Seq<char>> {
    match stored {
        Some(text) => match tags_read(text) {
            Some(tags) => tags,
            None => Seq::empty(),
        },
        None => Seq::empty(),
    }
}

/// Decodes the tags column. Text that is no list of tags gives no tags and
/// no failure.
pub fn decode_tags(stored: &Option<String>) -> (tags: Vec<String>)
    ensures
        tags.deep_view() == stored_tags(stored.deep_view()),
{
    let tags = match stored {
        Some(text) => match read_tags(text.as_str()) {
            Ok(tags) => tags,
            Err(_) => Vec::new(),
        },
        None => Vec::new(),
    };
    proof {
        assert(tags.deep_view() =~= stored_tags(stored.deep_view()));
    }
    tags
}

/// The row that stores a mood entry whose tags are written out as
/// `tags_text`: what the insert binds, column by column.
pub open spec fn mood_cells(entry: MoodEntryView, tags_text: Seq<char>) -> Seq<Cell> {
    seq![
        Cell::Text(entry.id),
        Cell::Integer(entry.mood_level as i64),
        Cell::Text(entry.emoji),
        optional_text_cell(entry.journal),
        Cell::Text(tags_text),
        Cell::Text(entry.created_at),
    ]
}

/// The mood entry that a row spells, where every column has the type the
/// entry needs. The tags column never stands in the way: whatever text it
/// holds, the row is an entry.
pub open spec fn decode_mood(cells: Seq<Cell>) -> Option<MoodEntryView> {
    if text_at(cells, 0) is Some && integer_at(cells, 1) is Some && text_at(cells, 2) is Some
        && optional_text_at(cells, 3) is Some && optional_text_at(cells, 4) is Some && text_at(
        cells,
        5,
    ) is Some {
        Some(
            MoodEntryView {
                id: text_at(cells, 0).unwrap(),
                mood_level: integer_at(cells, 1).unwrap(),
                emoji: text_at(cells, 2).unwrap(),
                journal: optional_text_at(cells, 3).unwrap(),
                tags: stored_tags(optional_text_at(cells, 4).unwrap()),
                created_at: text_at(cells, 5).unwrap(),
            },
        )
    } else {
        None
    }
}

/// Decodes one row of the mood listing.
pub fn mood_from_row(row: &rusqlite::Row<'_>) -> (decoded: Result<MoodEntry, rusqlite::Error>)
    ensures
        match decoded {
            Ok(entry) => decode_mood(row_cells(row)) == Some(entry@),
            Err(_) => decode_mood(row_cells(row)) is None,
        },
{
    let stored = column_optional_text(row, 4)?;
    let tags = decode_tags(&stored);
    let id = column_text(row, 0)?;
    let mood_level = column_integer(row, 1)?;
    let emoji = column_text(row, 2)?;
    let journal = column_optional_text(row, 3)?;
    let created_at = column_text(row, 5)?;
    Ok(MoodEntry { id, mood_level, emoji, journal, tags, created_at })
}

/// The statement that stores a mood entry, where its tags can be written
/// out.
pub open spec fn mood_insert(entry: MoodEntryView) -> Option<StatementView> {
    match tags_written(entry.tags) {
        Some(tags_text) => Some(
            StatementView { sql: MOOD_INSERT@, params: mood_cells(entry, tags_text) },
        ),
        None => None,
    }
}

/// Builds the statement that stores `entry`. It fails where the tags cannot
/// be written out as JSON.
pub fn mood_insert_statement(entry: &MoodEntry) -> (statement: Result<
    Statement,
    serde_json::Error,
>)
    ensures
        match statement {
            Ok(built) => mood_insert(entry@) == Some(built@),
            Err(_) => mood_insert(entry@) is None,
        },
{
    let tags_text = write_tags(&entry.tags)?;
    let mut params: Vec<SqlValue> = Vec::new();
    params.push(SqlValue::text(&entry.id));
    params.push(SqlValue::integer(entry.mood_level));
    params.push(SqlValue::text(&entry.emoji));
    params.push(SqlValue::optional_text(&entry.journal));
    params.push(SqlValue::text(&tags_text));
    params.push(SqlValue::text(&entry.created_at));
    let statement = Statement { sql: String::from_str(MOOD_INSERT), params };
    proof {
        assert(statement@.params =~= mood_cells(entry@, tags_text@));
    }
    Ok(statement)
}

/// The fields of a mood entry that a partial update may set, as plain
/// values.
pub struct MoodUpdateView {
    pub mood_level: Option<i32>,
    pub emoji: Option<Seq<char>>,
    pub journal: Option<Seq<char>>,
    pub tags: Option<Seq<char>>,
}

/// A partial update of a mood entry: one slot for each field that may
/// change. A slot that is empty leaves its field as it is. The tags slot
/// holds the whole new list, in the form in which it is stored.
#[derive(Debug, Clone, PartialEq)]
pub struct MoodUpdate {
    pub mood_level: Option<i32>,
    pub emoji: Option<String>,
    pub journal: Option<String>,
    pub tags: Option<String>,
}

impl View for MoodUpdate {
    type V = MoodUpdateView;

    open spec fn view(&self) -> MoodUpdateView {
        MoodUpdateView {
            mood_level: self.mood_level,
            emoji: self.emoji.deep_view(),
            journal: self.journal.deep_view(),
            tags: self.tags.deep_view(),
        }
    }
}

/// The mood level that a field map asks for: the integer under `moodLevel`,
/// cut to its low 32 bits.
pub open spec fn mood_level_member(fields: serde_json::Value) -> Option<i32> {
    match integer_member(fields, "moodLevel"@) {
        Some(level) => Some(level as i32),
        None => None,
    }
}

/// The update that a field map asks for: the recognized names are
/// `moodLevel` with an integer, `emoji` and `journal` with text, and `tags`
/// with any value, which is stored as it is written. Every other member, and
/// a recognized name with a value of another type, is passed over.
pub open spec fn mood_update_of(fields: serde_json::Value) -> MoodUpdateView {
    MoodUpdateView {
        mood_level: mood_level_member(fields),
        emoji: text_member(fields, "emoji"@),
        journal: text_member(fields, "journal"@),
        tags: written_member(fields, "tags"@),
    }
}

/// The assignments of a mood update: one for each filled slot, in the order
/// mood level, emoji, journal, tags.
pub open spec fn mood_assignments(update: MoodUpdateView) -> Seq<AssignmentView> {
    integer_assignment("mood_level"@, update.mood_level) + text_assignment("emoji"@, update.emoji)
        + text_assignment("journal"@, update.journal) + text_assignment("tags"@, update.tags)
}

impl MoodUpdate {
    /// Reads the update out of a field map.
    pub fn from_json(fields: &serde_json::Value) -> (update: MoodUpdate)
        ensures
            update@ == mood_update_of(*fields),
    {
        let mood_level = match integer_field(fields, "moodLevel") {
            Some(level) => Some(
                #[verifier::truncate]
                (level as i32),
            ),
            None => None,
        };
        MoodUpdate {
            mood_level,
            emoji: text_field(fields, "emoji"),
            journal: text_field(fields, "journal"),
            tags: written_field(fields, "tags"),
        }
    }

    /// Lists the assignments that the update asks for.
    pub fn assignments(&self) -> (list: Vec<Assignment>)
        ensures
            assignment_views(list@) == mood_assignments(self@),
    {
        let mut list: Vec<Assignment> = Vec::new();
        proof {
            assert(assignment_views(list@) =~= Seq::empty());
        }
        assign_integer(&mut list, "mood_level", self.mood_level);
        assign_text(&mut list, "emoji", &self.emoji);
        assign_text(&mut list, "journal", &self.journal);
        assign_text(&mut list, "tags", &self.tags);
        proof {
            assert(assignment_views(list@) =~= mood_assignments(self@));
        }
        list
    }
}

/// The statement of a mood update on the row `id`, where the update sets
/// anything at all.
pub open spec fn mood_update(id: Seq<char>, update: MoodUpdateView) -> Option<StatementView> {
    update_of(MOOD_TABLE@, mood_assignments(update), id)
}

/// Builds the statement that applies `update` to the mood entry `id`. An
/// update with every slot empty gives no statement.
pub fn mood_update_statement(id: &String, update: &MoodUpdate) -> (statement: Option<Statement>)
    ensures
        match statement {
            Some(built) => mood_update(id@, update@) == Some(built@),
            None => mood_update(id@, update@) is None,
        },
{
    let assignments = update.assignments();
    update_statement(MOOD_TABLE, &assignments, id)
}

/// A mood entry that some row spells.
pub open spec fn listed_mood(value: MoodEntryView) -> bool {
    exists|row: &rusqlite::Row<'_>| decode_mood(row_cells(row)) == Some(value)
}

/// Lists all mood entries, the most recently created first. Every entry
/// listed is what a row of the engine's answer spells, so tags that are no
/// list are none and fail nothing. It fails where the lock or the engine
/// fails, or where a stored row is no mood entry, with the failure's message.
pub fn get_mood_entries(state: &AppState) -> (entries: Result<Vec<MoodEntry>, String>)
    ensures
        match entries {
            Ok(found) => forall|i: int|
                0 <= i < found@.len() ==> listed_mood((#[trigger] found@[i])@),
            Err(message) => lock_message(message) || engine_message(message),
        },
{
    let held = match acquire(state) {
        Ok(held) => held,
        Err(message) => return Err(message),
    };
    let entries = list(guarded(&held), MOOD_SELECT, mood_from_row);
    proof {
        if let Ok(found) = &entries {
            assert forall|i: int| 0 <= i < found@.len() implies listed_mood(
                (#[trigger] found@[i])@,
            ) by {
                assert(decoded_from_row(mood_from_row, found@[i]));
            }
        }
    }
    entries
}

/// Stores a new mood entry. Where the tags cannot be written out it fails
/// and runs no statement; else whether it succeeds is the engine's to say,
/// which refuses an entry whose id is taken. A failure is the lock's, the
/// engine's or that of writing the tags, as its message.
pub fn add_mood_entry(state: &AppState, entry: MoodEntry) -> (done: Result<(), String>)
    ensures
        mood_insert(entry@) is None ==> done is Err,
        done matches Err(message) ==> lock_message(message) || (mood_insert(entry@) is Some
            && engine_message(message)) || (mood_insert(entry@) is None && json_message(
            message,
        )),
{
    let held = match acquire(state) {
        Ok(held) => held,
        Err(message) => return Err(message),
    };
    match mood_insert_statement(&entry) {
        Ok(statement) => run(guarded(&held), &statement),
        Err(failure) => Err(failure.to_string()),
    }
}

/// Applies a field map to the mood entry `id` of an open database: one
/// statement that sets the recognized fields. Where the map names none of
/// them, no statement is run and the update has succeeded; else the engine
/// decides, and an id that no entry has is no failure to it.
pub fn apply_mood_update(db: &Database, id: &String, updates: &serde_json::Value) -> (done: Result<
    (),
    String,
>)
    ensures
        mood_update(id@, mood_update_of(*updates)) is None ==> done is Ok,
        done matches Err(message) ==> engine_message(message),
{
    let update = MoodUpdate::from_json(updates);
    run_if_any(db, &mood_update_statement(id, &update))
}

/// Sets the fields of the mood entry `id` that `updates` names and that may
/// change. A failure is the lock's, or, where there is anything to set, the
/// engine's, as its message.
pub fn update_mood_entry(state: &AppState, id: String, updates: serde_json::Value) -> (done: Result<
    (),
    String,
>)
    ensures
        done matches Err(message) ==> lock_message(message) || (mood_update(
            id@,
            mood_update_of(updates),
        ) is Some && engine_message(message)),
{
    let held = match acquire(state) {
        Ok(held) => held,
        Err(message) => return Err(message),
    };
    apply_mood_update(guarded(&held), &id, &updates)
}

/// Deletes the mood entry `id`. Whether that succeeds is the engine's to
/// say, to which an id that no entry has is no failure; a failure is the
/// lock's or the engine's, as its message.
pub fn delete_mood_entry(state: &AppState, id: String) -> (done: Result<(), String>)
    ensures
        done matches Err(message) ==> lock_message(message) || engine_message(message),
{
    let held = match acquire(state) {
        Ok(held) => held,
        Err(message) => return Err(message),
    };
    run(guarded(&held), &delete_statement(MOOD_DELETE, &id))
}

} // verus!
