//! A project as the application shows it, and the metadata that its
//! author wrote down.

use vstd::prelude::*;
use crate::text::{clone_opt_text, opt_text};

verus! {

/// The mathematical view of a [`Project`].
pub struct ProjectView {
    pub id: Seq<char>,
    pub name: Seq<char>,
    pub display_name: Option<Seq<char>>,
    pub path: Seq<char>,
    pub description: Seq<char>,
    pub platform: Option<Seq<char>>,
    pub is_local_first: Option<bool>,
    pub is_open_source: Option<bool>,
    pub has_backend: Option<bool>,
    pub deployment_url: Option<Seq<char>>,
    pub status: Seq<char>,
    pub color: Option<Seq<char>>,
    pub text_color: Option<Seq<char>>,
    pub icon_path: Option<Seq<char>>,
    pub last_modified: Option<Seq<char>>,
    pub feedback_count: usize,
    pub highest_feedback_priority: Option<u8>,
    pub has_uncommitted_changes: bool,
    pub has_git_repo: bool,
}

/// A project directory with what is known of it.
///
/// `feedback_count` counts the pending feedback items,
/// `highest_feedback_priority` is the smallest priority number among them,
/// and `last_modified` is a timestamp as text.
#[derive(Debug, PartialEq, Eq)]
pub struct Project {
    pub id: String,
    pub name: String,
    pub display_name: Option<String>,
    pub path: String,
    pub description: String,
    pub platform: Option<String>,
    pub is_local_first: Option<bool>,
    pub is_open_source: Option<bool>,
    pub has_backend: Option<bool>,
    pub deployment_url: Option<String>,
    pub status: String,
    pub color: Option<String>,
    pub text_color: Option<String>,
    pub icon_path: Option<String>,
    pub last_modified: Option<String>,
    pub feedback_count: usize,
    pub highest_feedback_priority: Option<u8>,
    pub has_uncommitted_changes: bool,
    pub has_git_repo: bool,
}

impl View for Project {
    type V = ProjectView;

    open spec fn view(&self) -> ProjectView {
        ProjectView {
            id: self.id@,
            name: self.name@,
            display_name: opt_text(self.display_name),
            path: self.path@,
            description: self.description@,
            platform: opt_text(self.platform),
            is_local_first: self.is_local_first,
            is_open_source: self.is_open_source,
            has_backend: self.has_backend,
            deployment_url: opt_text(self.deployment_url),
            status: self.status@,
            color: opt_text(self.color),
            text_color: opt_text(self.text_color),
            icon_path: opt_text(self.icon_path),
            last_modified: opt_text(self.last_modified),
            feedback_count: self.feedback_count,
            highest_feedback_priority: self.highest_feedback_priority,
            has_uncommitted_changes: self.has_uncommitted_changes,
            has_git_repo: self.has_git_repo,
        }
    }
}

impl Clone for Project {
    fn clone(&self) -> (r: Self)
        ensures
            r@ == self@,
    {
        Project {
            id: self.id.clone(),
            name: self.name.clone(),
            display_name: clone_opt_text(&self.display_name),
            path: self.path.clone(),
            description: self.description.clone(),
            platform: clone_opt_text(&self.platform),
            is_local_first: self.is_local_first,
            is_open_source: self.is_open_source,
            has_backend: self.has_backend,
            deployment_url: clone_opt_text(&self.deployment_url),
            status: self.status.clone(),
            color: clone_opt_text(&self.color),
            text_color: clone_opt_text(&self.text_color),
            icon_path: clone_opt_text(&self.icon_path),
            last_modified: clone_opt_text(&self.last_modified),
            feedback_count: self.feedback_count,
            highest_feedback_priority: self.highest_feedback_priority,
            has_uncommitted_changes: self.has_uncommitted_changes,
            has_git_repo: self.has_git_repo,
        }
    }
}

/// The mathematical view of [`ProjectMetadata`].
pub struct ProjectMetadataView {
    pub name: Option<Seq<char>>,
    pub description: Option<Seq<char>>,
    pub platform: Option<Seq<char>>,
    pub is_local_first: Option<bool>,
    pub is_open_source: Option<bool>,
    pub has_backend: Option<bool>,
    pub deployment_url: Option<Seq<char>>,
    pub status: Option<Seq<char>>,
    pub icon_path: Option<Seq<char>>,
}

/// What the author of a project recorded about it. Every field is optional.
#[derive(Debug, PartialEq, Eq)]
pub struct ProjectMetadata {
    pub name: Option<String>,
    pub description: Option<String>,
    pub platform: Option<String>,
    pub is_local_first: Option<bool>,
    pub is_open_source: Option<bool>,
    pub has_backend: Option<bool>,
    pub deployment_url: Option<String>,
    pub status: Option<String>,
    pub icon_path: Option<String>,
}

impl View for ProjectMetadata {
    type V = ProjectMetadataView;

    open spec fn view(&self) -> ProjectMetadataView {
        ProjectMetadataView {
            name: opt_text(self.name),
            description: opt_text(self.description),
            platform: opt_text(self.platform),
            is_local_first: self.is_local_first,
            is_open_source: self.is_open_source,
            has_backend: self.has_backend,
            deployment_url: opt_text(self.deployment_url),
            status: opt_text(self.status),
            icon_path: opt_text(self.icon_path),
        }
    }
}

impl Default for ProjectMetadata {
    /// The metadata of a project of which nothing was recorded.
    fn default() -> (r: Self)
        ensures
            r@ == (ProjectMetadataView {
                name: None,
                description: None,
                platform: None,
                is_local_first: None,
                is_open_source: None,
                has_backend: None,
                deployment_url: None,
                status: None,
                icon_path: None,
            }),
    {
        ProjectMetadata {
            name: None,
            description: None,
            platform: None,
            is_local_first: None,
            is_open_source: None,
            has_backend: None,
            deployment_url: None,
            status: None,
            icon_path: None,
        }
    }
}

impl Clone for ProjectMetadata {
    fn clone(&self) -> (r: Self)
        ensures
            r@ == self@,
    {
        ProjectMetadata {
            name: clone_opt_text(&self.name),
            description: clone_opt_text(&self.description),
            platform: clone_opt_text(&self.platform),
            is_local_first: self.is_local_first,
            is_open_source: self.is_open_source,
            has_backend: self.has_backend,
            deployment_url: clone_opt_text(&self.deployment_url),
            status: clone_opt_text(&self.status),
            icon_path: clone_opt_text(&self.icon_path),
        }
    }
}

} // verus!
