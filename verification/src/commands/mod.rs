//! The operations offered to the user interface, one family per record kind.

pub mod achievements;
pub mod habits;
pub mod mood;
pub mod pomodoro;
