//! Feedback and issue tracking for local software projects.
//!
//! A project keeps its feedback items and issues in a handful of documents.
//! This library holds the rules by which records are created, patched, moved
//! between documents, archived and deleted, together with the small parsers
//! and decisions that surround them.
//!
//! The library touches no file. A caller loads the documents of a project
//! into a [`store::ProjectStore`], runs a command on it, and persists the
//! documents that the command wrote.
//!
//! Every function states in a contract what it returns and changes, over a
//! mathematical view of the data, and the contract is proved. A few small
//! functions are trusted instead, because they call code from outside: they
//! draw an id, read the clock, or ask the standard library about a
//! character, a text or a path. Each of them says so in its documentation.

pub mod text;
pub mod chars;
pub mod clock;
pub mod ids;
pub mod sequences;
pub mod records;
pub mod models;
pub mod store;
pub mod commands;
pub mod laws;
