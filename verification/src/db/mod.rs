//! The database file: where it lies, how it is opened, and its schema.

use crate::engine::{execute_batch, open};
use std::path::PathBuf;
use vstd::prelude::*;

verus! {

/// The directory that holds the database file when the platform names no
/// data directory of its own.
pub const FALLBACK_DIR: &'static str = ".";

/// The application's folder inside the data directory.
pub const APP_DIR: &'static str = "habitflow";

/// The database file inside the application's folder.
pub const DB_FILE: &'static str = "habitflow.db";

/// The schema: one table per record kind and one for settings, with the
/// indexes on the columns that listings are ordered by. Every statement only
/// creates what is missing, so the script may run at every start. Deleting a
/// habit deletes its completions and clears the habit of its sessions.
pub const SCHEMA: &'static str = "
            -- Habits table
            CREATE TABLE IF NOT EXISTS habits (
                id TEXT PRIMARY KEY,
                name TEXT NOT NULL,
                description TEXT,
                icon TEXT NOT NULL,
                color TEXT NOT NULL,
                frequency TEXT NOT NULL,
                target_count INTEGER NOT NULL DEFAULT 1,
                created_at TEXT NOT NULL,
                archived INTEGER NOT NULL DEFAULT 0
            );

            -- Habit completions
            CREATE TABLE IF NOT EXISTS habit_completions (
                id TEXT PRIMARY KEY,
                habit_id TEXT NOT NULL,
                completed_at TEXT NOT NULL,
                count INTEGER NOT NULL DEFAULT 1,
                notes TEXT,
                FOREIGN KEY (habit_id) REFERENCES habits(id) ON DELETE CASCADE
            );

            -- Mood entries
            CREATE TABLE IF NOT EXISTS mood_entries (
                id TEXT PRIMARY KEY,
                mood_level INTEGER NOT NULL,
                emoji TEXT NOT NULL,
                journal TEXT,
                tags TEXT,
                created_at TEXT NOT NULL
            );

            -- Pomodoro sessions
            CREATE TABLE IF NOT EXISTS pomodoro_sessions (
                id TEXT PRIMARY KEY,
                habit_id TEXT,
                duration INTEGER NOT NULL,
                type TEXT NOT NULL,
                completed INTEGER NOT NULL,
                started_at TEXT NOT NULL,
                ended_at TEXT,
                FOREIGN KEY (habit_id) REFERENCES habits(id) ON DELETE SET NULL
            );

            -- Achievements
            CREATE TABLE IF NOT EXISTS achievements (
                id TEXT PRIMARY KEY,
                type TEXT NOT NULL,
                unlocked_at TEXT NOT NULL,
                data TEXT
            );

            -- Settings
            CREATE TABLE IF NOT EXISTS settings (
                key TEXT PRIMARY KEY,
                value TEXT NOT NULL
            );

            -- Create indexes
            CREATE INDEX IF NOT EXISTS idx_completions_habit_id ON habit_completions(habit_id);
            CREATE INDEX IF NOT EXISTS idx_completions_date ON habit_completions(completed_at);
            CREATE INDEX IF NOT EXISTS idx_mood_date ON mood_entries(created_at);
            CREATE INDEX IF NOT EXISTS idx_pomodoro_date ON pomodoro_sessions(started_at);
            ";

/// A path made of one piece of text.
pub uninterp spec fn path_of(text: Seq<char>) -> PathBuf;

/// A path extended by one relative component.
pub uninterp spec fn path_joined(base: PathBuf, component: Seq<char>) -> PathBuf;

/// `PathBuf::from` on text.
#[verifier::external_body]
fn path_from(text: &str) -> (path: PathBuf)
    ensures
        path == path_of(text@),
{
    PathBuf::from(text)
}

/// `PathBuf::push` with a relative component.
#[verifier::external_body]
fn push(path: &mut PathBuf, component: &str)
    ensures
        *final(path) == path_joined(*old(path), component@),
{
    path.push(component)
}

/// Where the database file lies under a data directory.
pub open spec fn database_path(data_dir: Option<PathBuf>) -> PathBuf {
    let base = match data_dir {
        Some(dir) => dir,
        None => path_of(FALLBACK_DIR@),
    };
    path_joined(path_joined(base, APP_DIR@), DB_FILE@)
}

/// The path of the database file: the application's folder inside the
/// platform's data directory, or inside the current directory where the
/// platform names none.
pub fn get_database_path(data_dir: Option<PathBuf>) -> (path: PathBuf)
    ensures
        path == database_path(data_dir),
{
    let mut path = match data_dir {
        Some(dir) => dir,
        None => path_from(FALLBACK_DIR),
    };
    push(&mut path, APP_DIR);
    push(&mut path, DB_FILE);
    path
}

/// The open database.
pub struct Database {
    pub conn: rusqlite::Connection,
}

/// The result of opening, given the connection and what the engine answered
/// to the schema script: the database where the script ran, and the script's
/// failure, with no database, where it did not.
pub fn with_schema(db: Database, script: Result<(), rusqlite::Error>) -> (opened: Result<
    Database,
    rusqlite::Error,
>)
    ensures
        match script {
            Ok(_) => opened == Ok::<Database, rusqlite::Error>(db),
            Err(failure) => opened == Err::<Database, rusqlite::Error>(failure),
        },
{
    match script {
        Ok(_) => Ok(db),
        Err(failure) => Err(failure),
    }
}

impl Database {
    /// Opens the database file at `db_path`, creating it where it is missing,
    /// and brings its schema up. The directory of the file must exist. A
    /// failure to open the file or to run the schema script is returned, and
    /// no database with it.
    pub fn new(db_path: &PathBuf) -> (opened: Result<Database, rusqlite::Error>) {
        match open(db_path) {
            Ok(conn) => {
                let db = Database { conn };
                let script = db.initialize();
                with_schema(db, script)
            },
            Err(failure) => Err(failure),
        }
    }

    /// Runs the schema script, which creates every table and index that is
    /// not there yet and touches nothing that is.
    pub fn initialize(&self) -> (done: Result<(), rusqlite::Error>) {
        execute_batch(&self.conn, SCHEMA)
    }
}

} // verus!
