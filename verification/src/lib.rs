//! Local store of a personal tracker: habits and their completions, mood
//! entries, pomodoro sessions and achievements, kept in one embedded database.

pub mod commands;
pub mod db;
pub mod engine;
pub mod json;
pub mod laws;
pub mod sql;
pub mod state;
pub mod store;
pub mod update;

pub use db::Database;
pub use state::AppState;
