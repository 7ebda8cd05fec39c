//! A small library behind a config-driven "select and act" command-line tool:
//! named SQL queries are loaded from a configuration file, offered to the user
//! through a fuzzy picker, and the chosen one is printed or handed to an
//! external database client. The picker UI, the file reading and the process
//! spawning live outside; this crate holds the verified logic in between:
//! building the configuration, rendering and parsing picker lines, and
//! constructing the client's argument list.

pub mod config;
pub mod dispatch;
pub mod picker;
