//! Habits and their completions.

use crate::db::Database;
use crate::engine::{
    column_flag, column_integer, column_optional_text, column_text, decoded_from_row,
    row_cells,
};
use crate::json::{flag_field, flag_member, text_field, text_member};
use crate::sql::{
    flag_at, flag_cell, integer_at, optional_text_at, optional_text_cell, text_at, Cell, SqlValue,
    Statement, StatementView,
};
use crate::state::{acquire, guarded, lock_message, AppState};
use crate::store::{delete_statement, engine_message, list, run, run_if_any};
use crate::update::{
    assign_flag, assign_text, assignment_views, flag_assignment, text_assignment, update_of,
    update_statement, Assignment, AssignmentView,
};
use vstd::prelude::*;

verus! {

/// Lists the habits, newest first.
pub const HABIT_SELECT: &'static str =
    "SELECT id, name, description, icon, color, frequency, target_count, created_at, archived FROM habits ORDER BY created_at DESC";

/// Inserts one habit.
pub const HABIT_INSERT: &'static str =
    "INSERT INTO habits (id, name, description, icon, color, frequency, target_count, created_at, archived) VALUES (?1, ?2, ?3, ?4, ?5, ?6, ?7, ?8, ?9)";

/// Deletes the habit with an id.
pub const HABIT_DELETE: &'static str = "DELETE FROM habits WHERE id = ?";

/// The table of the habits.
pub const HABIT_TABLE: &'static str = "habits";

/// Lists the completions, newest first.
pub const COMPLETION_SELECT: &'static str =
    "SELECT id, habit_id, completed_at, count, notes FROM habit_completions ORDER BY completed_at DESC";

/// Inserts one completion.
pub const COMPLETION_INSERT: &'static str =
    "INSERT INTO habit_completions (id, habit_id, completed_at, count, notes) VALUES (?1, ?2, ?3, ?4, ?5)";

/// Deletes the completion with an id.
pub const COMPLETION_DELETE: &'static str = "DELETE FROM habit_completions WHERE id = ?";

/// A habit, as a plain value.
pub struct HabitView {
    pub id: Seq<char>,
    pub name: Seq<char>,
    pub description: Option<Seq<char>>,
    pub icon: Seq<char>,
    pub color: Seq<char>,
    pub frequency: Seq<char>,
    pub target_count: i32,
    pub created_at: Seq<char>,
    pub archived: bool,
}

/// Something to do regularly. The caller chooses the id; an archived habit is
/// kept, only marked.
#[derive(Debug, Clone, PartialEq)]
pub struct Habit {
    pub id: String,
    pub name: String,
    pub description: Option<String>,
    pub icon: String,
    pub color: String,
    pub frequency: String,
    pub target_count: i32,
    pub created_at: String,
    pub archived: bool,
}

impl View for Habit {
    type V = HabitView;

    open spec fn view(&self) -> HabitView {
        HabitView {
            id: self.id@,
            name: self.name@,
            description: self.description.deep_view(),
            icon: self.icon@,
            color: self.color@,
            frequency: self.frequency@,
            target_count: self.target_count,
            created_at: self.created_at@,
            archived: self.archived,
        }
    }
}

/// The row that stores a habit: what the insert binds, column by column.
pub open spec fn habit_cells(habit: HabitView) -> Seq<Cell> {
    seq![
        Cell::Text(habit.id),
        Cell::Text(habit.name),
        optional_text_cell(habit.description),
        Cell::Text(habit.icon),
        Cell::Text(habit.color),
        Cell::Text(habit.frequency),
        Cell::Integer(habit.target_count as i64),
        Cell::Text(habit.created_at),
        flag_cell(habit.archived),
    ]
}

/// The habit that a row spells, where every column has the type the habit
/// needs; the archived flag is true for every stored integer but 0.
pub open spec fn decode_habit(cells: Seq<Cell>) -> Option<HabitView> {
    if text_at(cells, 0) is Some && text_at(cells, 1) is Some && optional_text_at(cells, 2) is Some
        && text_at(cells, 3) is Some && text_at(cells, 4) is Some && text_at(cells, 5) is Some
        && integer_at(cells, 6) is Some && text_at(cells, 7) is Some && flag_at(cells, 8) is Some {
        Some(
            HabitView {
                id: text_at(cells, 0).unwrap(),
                name: text_at(cells, 1).unwrap(),
                description: optional_text_at(cells, 2).unwrap(),
                icon: text_at(cells, 3).unwrap(),
                color: text_at(cells, 4).unwrap(),
                frequency: text_at(cells, 5).unwrap(),
                target_count: integer_at(cells, 6).unwrap(),
                created_at: text_at(cells, 7).unwrap(),
                archived: flag_at(cells, 8).unwrap(),
            },
        )
    } else {
        None
    }
}

/// Decodes one row of the habit listing.
pub fn habit_from_row(row: &rusqlite::Row<'_>) -> (decoded: Result<Habit, rusqlite::Error>)
    ensures
        match decoded {
            Ok(habit) => decode_habit(row_cells(row)) == Some(habit@),
            Err(_) => decode_habit(row_cells(row)) is None,
        },
{
    let id = column_text(row, 0)?;
    let name = column_text(row, 1)?;
    let description = column_optional_text(row, 2)?;
    let icon = column_text(row, 3)?;
    let color = column_text(row, 4)?;
    let frequency = column_text(row, 5)?;
    let target_count = column_integer(row, 6)?;
    let created_at = column_text(row, 7)?;
    let archived = column_flag(row, 8)?;
    Ok(Habit { id, name, description, icon, color, frequency, target_count, created_at, archived })
}

/// The statement that stores a habit.
pub open spec fn habit_insert(habit: HabitView) -> StatementView {
    StatementView { sql: HABIT_INSERT@, params: habit_cells(habit) }
}

/// Builds the statement that stores `habit`; absent text is bound as null.
pub fn habit_insert_statement(habit: &Habit) -> (statement: Statement)
    ensures
        statement@ == habit_insert(habit@),
{
    let mut params: Vec<SqlValue> = Vec::new();
    params.push(SqlValue::text(&habit.id));
    params.push(SqlValue::text(&habit.name));
    params.push(SqlValue::optional_text(&habit.description));
    params.push(SqlValue::text(&habit.icon));
    params.push(SqlValue::text(&habit.color));
    params.push(SqlValue::text(&habit.frequency));
    params.push(SqlValue::integer(habit.target_count));
    params.push(SqlValue::text(&habit.created_at));
    params.push(SqlValue::flag(habit.archived));
    let statement = Statement { sql: String::from_str(HABIT_INSERT), params };
    proof {
        assert(statement@.params =~= habit_cells(habit@));
    }
    statement
}

/// The fields of a habit that a partial update may set, as plain values.
pub struct HabitUpdateView {
    pub name: Option<Seq<char>>,
    pub description: Option<Seq<char>>,
    pub icon: Option<Seq<char>>,
    pub color: Option<Seq<char>>,
    pub archived: Option<bool>,
}

/// A partial update of a habit: one slot for each field that may change. A
/// slot that is empty leaves its field as it is.
#[derive(Debug, Clone, PartialEq)]
pub struct HabitUpdate {
    pub name: Option<String>,
    pub description: Option<String>,
    pub icon: Option<String>,
    pub color: Option<String>,
    pub archived: Option<bool>,
}

impl View for HabitUpdate {
    type V = HabitUpdateView;

    open spec fn view(&self) -> HabitUpdateView {
        HabitUpdateView {
            name: self.name.deep_view(),
            description: self.description.deep_view(),
            icon: self.icon.deep_view(),
            color: self.color.deep_view(),
            archived: self.archived,
        }
    }
}

/// The update that a field map asks for: the recognized names are `name`,
/// `description`, `icon` and `color`, each with text, and `archived` with a
/// truth value. Every other member, and a recognized name with a value of
/// another type, is passed over.
pub open spec fn habit_update_of(fields: serde_json::Value) -> HabitUpdateView {
    HabitUpdateView {
        name: text_member(fields, "name"@),
        description: text_member(fields, "description"@),
        icon: text_member(fields, "icon"@),
        color: text_member(fields, "color"@),
        archived: flag_member(fields, "archived"@),
    }
}

/// The assignments of a habit update: one for each filled slot, in the order
/// name, description, icon, color, archived.
pub open spec fn habit_assignments(update: HabitUpdateView) -> Seq<AssignmentView> {
    text_assignment("name"@, update.name) + text_assignment("description"@, update.description)
        + text_assignment("icon"@, update.icon) + text_assignment("color"@, update.color)
        + flag_assignment("archived"@, update.archived)
}

impl HabitUpdate {
    /// Reads the update out of a field map.
    pub fn from_json(fields: &serde_json::Value) -> (update: HabitUpdate)
        ensures
            update@ == habit_update_of(*fields),
    {
        HabitUpdate {
            name: text_field(fields, "name"),
            description: text_field(fields, "description"),
            icon: text_field(fields, "icon"),
            color: text_field(fields, "color"),
            archived: flag_field(fields, "archived"),
        }
    }

    /// Lists the assignments that the update asks for.
    pub fn assignments(&self) -> (list: Vec<Assignment>)
        ensures
            assignment_views(list@) == habit_assignments(self@),
    {
        let mut list: Vec<Assignment> = Vec::new();
        proof {
            assert(assignment_views(list@) =~= Seq::empty());
        }
        assign_text(&mut list, "name", &self.name);
        assign_text(&mut list, "description", &self.description);
        assign_text(&mut list, "icon", &self.icon);
        assign_text(&mut list, "color", &self.color);
        assign_flag(&mut list, "archived", self.archived);
        proof {
            assert(assignment_views(list@) =~= habit_assignments(self@));
        }
        list
    }
}

/// The statement of a habit update on the row `id`, where the update sets
/// anything at all.
pub open spec fn habit_update(id: Seq<char>, update: HabitUpdateView) -> Option<StatementView> {
    update_of(HABIT_TABLE@, habit_assignments(update), id)
}

/// Builds the statement that applies `update` to the habit `id`. An update
/// with every slot empty gives no statement.
pub fn habit_update_statement(id: &String, update: &HabitUpdate) -> (statement: Option<Statement>)
    ensures
        match statement {
            Some(built) => habit_update(id@, update@) == Some(built@),
            None => habit_update(id@, update@) is None,
        },
{
    let assignments = update.assignments();
    update_statement(HABIT_TABLE, &assignments, id)
}

/// A habit that some row spells.
pub open spec fn listed_habit(value: HabitView) -> bool {
    exists|row: &rusqlite::Row<'_>| decode_habit(row_cells(row)) == Some(value)
}

/// Lists all habits, the most recently created first. Every habit listed is
/// what a row of the engine's answer spells. It fails where the lock or the
/// engine fails, or where a stored row is no habit, with the failure's
/// message.
pub fn get_habits(state: &AppState) -> (habits: Result<Vec<Habit>, String>)
    ensures
        match habits {
            Ok(found) => forall|i: int|
                0 <= i < found@.len() ==> listed_habit((#[trigger] found@[i])@),
            Err(message) => lock_message(message) || engine_message(message),
        },
{
    let held = match acquire(state) {
        Ok(held) => held,
        Err(message) => return Err(message),
    };
    let habits = list(guarded(&held), HABIT_SELECT, habit_from_row);
    proof {
        if let Ok(found) = &habits {
            assert forall|i: int| 0 <= i < found@.len() implies listed_habit(
                (#[trigger] found@[i])@,
            ) by {
                assert(decoded_from_row(habit_from_row, found@[i]));
            }
        }
    }
    habits
}

/// Stores a new habit. Whether that succeeds is the engine's to say, which
/// refuses a habit whose id is taken; a failure is the lock's or the
/// engine's, as its message.
pub fn add_habit(state: &AppState, habit: Habit) -> (done: Result<(), String>)
    ensures
        done matches Err(message) ==> lock_message(message) || engine_message(message),
{
    let held = match acquire(state) {
        Ok(held) => held,
        Err(message) => return Err(message),
    };
    run(guarded(&held), &habit_insert_statement(&habit))
}

/// Applies a field map to the habit `id` of an open database: one statement
/// that sets the recognized fields. Where the map names none of them, no
/// statement is run and the update has succeeded; else the engine decides,
/// and an id that no habit has is no failure to it.
pub fn apply_habit_update(db: &Database, id: &String, updates: &serde_json::Value) -> (done: Result<
    (),
    String,
>)
    ensures
        habit_update(id@, habit_update_of(*updates)) is None ==> done is Ok,
        done matches Err(message) ==> engine_message(message),
{
    let update = HabitUpdate::from_json(updates);
    run_if_any(db, &habit_update_statement(id, &update))
}

/// Sets the fields of the habit `id` that `updates` names and that may
/// change. A failure is the lock's, or, where there is anything to set, the
/// engine's, as its message.
pub fn update_habit(state: &AppState, id: String, updates: serde_json::Value) -> (done: Result<
    (),
    String,
>)
    ensures
        done matches Err(message) ==> lock_message(message) || (habit_update(
            id@,
            habit_update_of(updates),
        ) is Some && engine_message(message)),
{
    let held = match acquire(state) {
        Ok(held) => held,
        Err(message) => return Err(message),
    };
    apply_habit_update(guarded(&held), &id, &updates)
}

/// Deletes the habit `id`, and with it, by the schema, its completions.
/// Whether that succeeds is the engine's to say, to which an id that no
/// habit has is no failure; a failure is the lock's or the engine's, as its
/// message.
pub fn delete_habit(state: &AppState, id: String) -> (done: Result<(), String>)
    ensures
        done matches Err(message) ==> lock_message(message) || engine_message(message),
{
    let held = match acquire(state) {
        Ok(held) => held,
        Err(message) => return Err(message),
    };
    run(guarded(&held), &delete_statement(HABIT_DELETE, &id))
}

/// A completion, as a plain value.
pub struct HabitCompletionView {
    pub id: Seq<char>,
    pub habit_id: Seq<char>,
    pub completed_at: Seq<char>,
    pub count: i32,
    pub notes: Option<Seq<char>>,
}

/// One time that a habit was done. It belongs to the habit it names and goes
/// when that habit is deleted.
#[derive(Debug, Clone, PartialEq)]
pub struct HabitCompletion {
    pub id: String,
    pub habit_id: String,
    pub completed_at: String,
    pub count: i32,
    pub notes: Option<String>,
}

impl View for HabitCompletion {
    type V = HabitCompletionView;

    open spec fn view(&self) -> HabitCompletionView {
        HabitCompletionView {
            id: self.id@,
            habit_id: self.habit_id@,
            completed_at: self.completed_at@,
            count: self.count,
            notes: self.notes.deep_view(),
        }
    }
}

/// The row that stores a completion: what the insert binds, column by column.
pub open spec fn completion_cells(completion: HabitCompletionView) -> Seq<Cell> {
    seq![
        Cell::Text(completion.id),
        Cell::Text(completion.habit_id),
        Cell::Text(completion.completed_at),
        Cell::Integer(completion.count as i64),
        optional_text_cell(completion.notes),
    ]
}

/// The completion that a row spells, where every column has the type the
/// completion needs.
pub open spec fn decode_completion(cells: Seq<Cell>) -> Option<HabitCompletionView> {
    if text_at(cells, 0) is Some && text_at(cells, 1) is Some && text_at(cells, 2) is Some
        && integer_at(cells, 3) is Some && optional_text_at(cells, 4) is Some {
        Some(
            HabitCompletionView {
                id: text_at(cells, 0).unwrap(),
                habit_id: text_at(cells, 1).unwrap(),
                completed_at: text_at(cells, 2).unwrap(),
                count: integer_at(cells, 3).unwrap(),
                notes: optional_text_at(cells, 4).unwrap(),
            },
        )
    } else {
        None
    }
}

/// Decodes one row of the completion listing.
pub fn completion_from_row(row: &rusqlite::Row<'_>) -> (decoded: Result<
    HabitCompletion,
    rusqlite::Error,
>)
    ensures
        match decoded {
            Ok(completion) => decode_completion(row_cells(row)) == Some(completion@),
            Err(_) => decode_completion(row_cells(row)) is None,
        },
{
    let id = column_text(row, 0)?;
    let habit_id = column_text(row, 1)?;
    let completed_at = column_text(row, 2)?;
    let count = column_integer(row, 3)?;
    let notes = column_optional_text(row, 4)?;
    Ok(HabitCompletion { id, habit_id, completed_at, count, notes })
}

/// The statement that stores a completion.
pub open spec fn completion_insert(completion: HabitCompletionView) -> StatementView {
    StatementView { sql: COMPLETION_INSERT@, params: completion_cells(completion) }
}

/// Builds the statement that stores `completion`; absent notes are bound as
/// null.
pub fn completion_insert_statement(completion: &HabitCompletion) -> (statement: Statement)
    ensures
        statement@ == completion_insert(completion@),
{
    let mut params: Vec<SqlValue> = Vec::new();
    params.push(SqlValue::text(&completion.id));
    params.push(SqlValue::text(&completion.habit_id));
    params.push(SqlValue::text(&completion.completed_at));
    params.push(SqlValue::integer(completion.count));
    params.push(SqlValue::optional_text(&completion.notes));
    let statement = Statement { sql: String::from_str(COMPLETION_INSERT), params };
    proof {
        assert(statement@.params =~= completion_cells(completion@));
    }
    statement
}

/// A completion that some row spells.
pub open spec fn listed_completion(value: HabitCompletionView) -> bool {
    exists|row: &rusqlite::Row<'_>| decode_completion(row_cells(row)) == Some(value)
}

/// Lists all completions, the most recent first. Every completion listed is
/// what a row of the engine's answer spells. It fails where the lock or the
/// engine fails, or where a stored row is no completion, with the failure's
/// message.
pub fn get_completions(state: &AppState) -> (completions: Result<Vec<HabitCompletion>, String>)
    ensures
        match completions {
            Ok(found) => forall|i: int|
                0 <= i < found@.len() ==> listed_completion((#[trigger] found@[i])@),
            Err(message) => lock_message(message) || engine_message(message),
        },
{
    let held = match acquire(state) {
        Ok(held) => held,
        Err(message) => return Err(message),
    };
    let completions = list(guarded(&held), COMPLETION_SELECT, completion_from_row);
    proof {
        if let Ok(found) = &completions {
            assert forall|i: int| 0 <= i < found@.len() implies listed_completion(
                (#[trigger] found@[i])@,
            ) by {
                assert(decoded_from_row(completion_from_row, found@[i]));
            }
        }
    }
    completions
}

/// Stores a new completion. Whether that succeeds is the engine's to say,
/// which refuses a completion whose id is taken or whose habit is unknown; a
/// failure is the lock's or the engine's, as its message.
pub fn add_completion(state: &AppState, completion: HabitCompletion) -> (done: Result<
    (),
    String,
>)
    ensures
        done matches Err(message) ==> lock_message(message) || engine_message(message),
{
    let held = match acquire(state) {
        Ok(held) => held,
        Err(message) => return Err(message),
    };
    run(guarded(&held), &completion_insert_statement(&completion))
}

/// Deletes the completion `id`. Whether that succeeds is the engine's to
/// say, to which an id that no completion has is no failure; a failure is
/// the lock's or the engine's, as its message.
pub fn delete_completion(state: &AppState, id: String) -> (done: Result<(), String>)
    ensures
        done matches Err(message) ==> lock_message(message) || engine_message(message),
{
    let held = match acquire(state) {
        Ok(held) => held,
        Err(message) => return Err(message),
    };
    run(guarded(&held), &delete_statement(COMPLETION_DELETE, &id))
}

} // verus!
