//! The records that a project stores, each with its mathematical view.

pub mod feedback;
pub mod issue;
pub mod project;
pub mod settings;

pub use feedback::{FeedbackFile, FeedbackItem, FeedbackStatus, NewFeedbackItem, UpdateFeedbackItem};
pub use issue::{Issue, IssueFile, IssueStatus, NewIssue, UpdateIssue};
pub use project::{Project, ProjectMetadata};
pub use settings::Settings;
