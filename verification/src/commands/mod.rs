//! The commands of the library, one module for each area.

pub mod feedback;
pub mod github;
pub mod issues;
pub mod launcher;
pub mod npm;
pub mod projects;
pub mod prompts;
pub mod watcher;
