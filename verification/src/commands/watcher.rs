//! Deciding whether the documents of a project changed on disk since they
//! were last looked at.

use vstd::prelude::*;

verus! {

/// Whether the feedback and the issues of a project changed on disk.
#[derive(Clone, Copy, Debug, PartialEq, Eq, Structural)]
pub struct FileModificationInfo {
    pub feedback_modified: bool,
    pub issues_modified: bool,
}

/// What the file system says of one file: whether it exists and, where it
/// could be read, the second after 1970 in which it was last modified.
#[derive(Clone, Copy, Debug, PartialEq, Eq, Structural)]
pub struct FileStamp {
    pub exists: bool,
    pub modified_at: Option<u64>,
}

/// Whether a file counts as modified since it was last checked. A file
/// that does not exist never does. One that was never checked does. Else
/// it does where its modification time is known and later than the check.
pub open spec fn modified_since(stamp: FileStamp, last_check: Option<u64>) -> bool {
    stamp.exists && match last_check {
        None => true,
        Some(checked) => match stamp.modified_at {
            Some(modified) => modified > checked,
            None => false,
        },
    }
}

/// Decides whether a file was modified since it was last checked.
pub fn is_modified_since(stamp: FileStamp, last_check: Option<u64>) -> (r: bool)
    ensures
        r == modified_since(stamp, last_check),
{
    if !stamp.exists {
        return false;
    }
    match last_check {
        None => true,
        Some(checked) => match stamp.modified_at {
            Some(modified) => modified > checked,
            None => false,
        },
    }
}

/// Decides for the pending feedback and the pending issues of a project
/// whether each was modified since it was last checked.
pub fn check_project_files_modified(
    feedback: FileStamp,
    issues: FileStamp,
    last_feedback_check: Option<u64>,
    last_issues_check: Option<u64>,
) -> (r: FileModificationInfo)
    ensures
        r.feedback_modified == modified_since(feedback, last_feedback_check),
        r.issues_modified == modified_since(issues, last_issues_check),
{
    FileModificationInfo {
        feedback_modified: is_modified_since(feedback, last_feedback_check),
        issues_modified: is_modified_since(issues, last_issues_check),
    }
}

/// The modification time of a file as it is reported: that of the stamp
/// where the file exists, none where it does not.
pub open spec fn reported_time(stamp: FileStamp) -> Option<u64> {
    if stamp.exists {
        stamp.modified_at
    } else {
        None
    }
}

/// The modification times of the pending feedback and the pending issues
/// of a project, as they are reported.
pub fn get_project_files_timestamps(feedback: FileStamp, issues: FileStamp) -> (r: (
    Option<u64>,
    Option<u64>,
))
    ensures
        r.0 == reported_time(feedback),
        r.1 == reported_time(issues),
{
    (
        if feedback.exists {
            feedback.modified_at
        } else {
            None
        },
        if issues.exists {
            issues.modified_at
        } else {
            None
        },
    )
}

} // verus!
