//! A small task-logging library: an append-only log of timestamped text
//! entries kept in a local SQLite table, queried by date-string prefix.
//!
//! The calendar arithmetic, timestamp formatting, command parsing and
//! prefix filtering are verified; the SQLite and clock calls stand behind
//! trusted wrappers whose contracts state what those calls do.

pub mod cli;
pub mod clock;
pub mod config;
pub mod date;
pub mod errors;
pub mod interp;
pub mod laws;
pub mod store;
pub mod text;
