//! Issues, the patch that updates one, and the document that holds them.

use vstd::prelude::*;
use vstd::string::StringExecFns;
use crate::records::Record;
use crate::sequences::views;
use crate::text::{
    clone_opt_text, clone_texts, opt_text, opt_texts, replace_opt_text, replace_opt_value, replace_text,
    replace_texts, replace_value, replaced, replaced_opt, texts,
};

verus! {

/// The complexity of an issue for which none was recorded: moderate.
pub fn default_complexity() -> (r: u8)
    ensures
        r == 3,
{
    3
}

/// The state of an issue.
#[derive(Clone, Copy, Debug, PartialEq, Eq, Structural)]
pub enum IssueStatus {
    Pending,
    InProgress,
    ForReview,
    NeedsRework,
    Completed,
}

impl IssueStatus {
    /// The label under which the status is stored.
    pub open spec fn label(self) -> Seq<char> {
        match self {
            IssueStatus::Pending => "pending"@,
            IssueStatus::InProgress => "in-progress"@,
            IssueStatus::ForReview => "for-review"@,
            IssueStatus::NeedsRework => "needs-rework"@,
            IssueStatus::Completed => "completed"@,
        }
    }

    /// The status that a stored label stands for, if any.
    pub open spec fn of_label(label: Seq<char>) -> Option<IssueStatus> {
        if label == IssueStatus::Pending.label() {
            Some(IssueStatus::Pending)
        } else if label == IssueStatus::InProgress.label() {
            Some(IssueStatus::InProgress)
        } else if label == IssueStatus::ForReview.label() {
            Some(IssueStatus::ForReview)
        } else if label == IssueStatus::NeedsRework.label() {
            Some(IssueStatus::NeedsRework)
        } else if label == IssueStatus::Completed.label() {
            Some(IssueStatus::Completed)
        } else {
            None
        }
    }

    /// The five labels differ from one another, so a label names one status.
    pub proof fn label_is_injective(a: IssueStatus, b: IssueStatus)
        ensures
            a.label() == b.label() <==> a == b,
            IssueStatus::of_label(a.label()) == Some(a),
    {
        reveal_strlit("pending");
        reveal_strlit("in-progress");
        reveal_strlit("for-review");
        reveal_strlit("needs-rework");
        reveal_strlit("completed");
        assert("pending"@.len() == 7);
        assert("in-progress"@.len() == 11);
        assert("for-review"@.len() == 10);
        assert("needs-rework"@.len() == 12);
    }

    /// The label of the status, as text.
    pub fn as_str(&self) -> (r: &'static str)
        ensures
            r@ == self.label(),
    {
        match self {
            IssueStatus::Pending => "pending",
            IssueStatus::InProgress => "in-progress",
            IssueStatus::ForReview => "for-review",
            IssueStatus::NeedsRework => "needs-rework",
            IssueStatus::Completed => "completed",
        }
    }

    /// Reads a stored label. Any text but the five labels gives `None`.
    pub fn parse(label: &str) -> (r: Option<IssueStatus>)
        ensures
            r == IssueStatus::of_label(label@),
    {
        let owned = String::from_str(label);
        if owned == String::from_str("pending") {
            Some(IssueStatus::Pending)
        } else if owned == String::from_str("in-progress") {
            Some(IssueStatus::InProgress)
        } else if owned == String::from_str("for-review") {
            Some(IssueStatus::ForReview)
        } else if owned == String::from_str("needs-rework") {
            Some(IssueStatus::NeedsRework)
        } else if owned == String::from_str("completed") {
            Some(IssueStatus::Completed)
        } else {
            None
        }
    }
}

/// The mathematical view of an [`Issue`].
pub struct IssueView {
    pub id: Seq<char>,
    pub original_feedback_id: Option<Seq<char>>,
    pub title: Seq<char>,
    pub description: Seq<char>,
    pub subtasks: Seq<Seq<char>>,
    pub time_estimate: Option<Seq<char>>,
    pub complexity: u8,
    pub priority: u8,
    pub status: IssueStatus,
    pub created_at: Seq<char>,
    pub completed_at: Option<Seq<char>>,
    pub review_notes: Option<Seq<char>>,
    pub bug_report: Option<Seq<char>>,
    pub last_user_critique: Option<Seq<char>>,
    pub implementation_summary: Option<Seq<char>>,
    pub github_issue_number: Option<u64>,
    pub github_issue_url: Option<Seq<char>>,
}

/// One unit of work on a project.
///
/// `complexity` and `priority` run from 1 to 5. `original_feedback_id` names
/// the feedback item that the issue came from, if it came from one.
#[derive(Debug, PartialEq, Eq)]
pub struct Issue {
    pub id: String,
    pub original_feedback_id: Option<String>,
    pub title: String,
    pub description: String,
    pub subtasks: Vec<String>,
    pub time_estimate: Option<String>,
    pub complexity: u8,
    pub priority: u8,
    pub status: IssueStatus,
    pub created_at: String,
    pub completed_at: Option<String>,
    pub review_notes: Option<String>,
    pub bug_report: Option<String>,
    pub last_user_critique: Option<String>,
    pub implementation_summary: Option<String>,
    pub github_issue_number: Option<u64>,
    pub github_issue_url: Option<String>,
}

impl View for Issue {
    type V = IssueView;

    open spec fn view(&self) -> IssueView {
        IssueView {
            id: self.id@,
            original_feedback_id: opt_text(self.original_feedback_id),
            title: self.title@,
            description: self.description@,
            subtasks: texts(self.subtasks@),
            time_estimate: opt_text(self.time_estimate),
            complexity: self.complexity,
            priority: self.priority,
            status: self.status,
            created_at: self.created_at@,
            completed_at: opt_text(self.completed_at),
            review_notes: opt_text(self.review_notes),
            bug_report: opt_text(self.bug_report),
            last_user_critique: opt_text(self.last_user_critique),
            implementation_summary: opt_text(self.implementation_summary),
            github_issue_number: self.github_issue_number,
            github_issue_url: opt_text(self.github_issue_url),
        }
    }
}

impl Clone for Issue {
    fn clone(&self) -> (r: Self)
        ensures
            r@ == self@,
    {
        Issue {
            id: self.id.clone(),
            original_feedback_id: clone_opt_text(&self.original_feedback_id),
            title: self.title.clone(),
            description: self.description.clone(),
            subtasks: clone_texts(&self.subtasks),
            time_estimate: clone_opt_text(&self.time_estimate),
            complexity: self.complexity,
            priority: self.priority,
            status: self.status,
            created_at: self.created_at.clone(),
            completed_at: clone_opt_text(&self.completed_at),
            review_notes: clone_opt_text(&self.review_notes),
            bug_report: clone_opt_text(&self.bug_report),
            last_user_critique: clone_opt_text(&self.last_user_critique),
            implementation_summary: clone_opt_text(&self.implementation_summary),
            github_issue_number: self.github_issue_number,
            github_issue_url: clone_opt_text(&self.github_issue_url),
        }
    }
}

impl Record for Issue {
    open spec fn id_of(v: IssueView) -> Seq<char> {
        v.id
    }

    open spec fn priority_of(v: IssueView) -> u8 {
        v.priority
    }

    open spec fn is_done(v: IssueView) -> bool {
        v.status == IssueStatus::Completed
    }

    fn id(&self) -> (r: &String) {
        &self.id
    }

    fn priority(&self) -> (r: u8) {
        self.priority
    }

    fn done(&self) -> (r: bool) {
        self.status == IssueStatus::Completed
    }
}

/// The mathematical view of a [`NewIssue`].
pub struct NewIssueView {
    pub original_feedback_id: Option<Seq<char>>,
    pub title: Seq<char>,
    pub description: Seq<char>,
    pub subtasks: Seq<Seq<char>>,
    pub time_estimate: Option<Seq<char>>,
    pub complexity: u8,
    pub priority: u8,
    pub status: IssueStatus,
    pub github_issue_number: Option<u64>,
    pub github_issue_url: Option<Seq<char>>,
}

/// What a caller supplies to create an issue.
#[derive(Debug)]
pub struct NewIssue {
    pub original_feedback_id: Option<String>,
    pub title: String,
    pub description: String,
    pub subtasks: Vec<String>,
    pub time_estimate: Option<String>,
    pub complexity: u8,
    pub priority: u8,
    pub status: IssueStatus,
    pub github_issue_number: Option<u64>,
    pub github_issue_url: Option<String>,
}

impl View for NewIssue {
    type V = NewIssueView;

    open spec fn view(&self) -> NewIssueView {
        NewIssueView {
            original_feedback_id: opt_text(self.original_feedback_id),
            title: self.title@,
            description: self.description@,
            subtasks: texts(self.subtasks@),
            time_estimate: opt_text(self.time_estimate),
            complexity: self.complexity,
            priority: self.priority,
            status: self.status,
            github_issue_number: self.github_issue_number,
            github_issue_url: opt_text(self.github_issue_url),
        }
    }
}

/// The issue that a request creates under the given id and creation time:
/// it holds what the request holds and nothing else.
pub open spec fn created_issue(request: NewIssueView, id: Seq<char>, created_at: Seq<char>) -> IssueView {
    IssueView {
        id,
        original_feedback_id: request.original_feedback_id,
        title: request.title,
        description: request.description,
        subtasks: request.subtasks,
        time_estimate: request.time_estimate,
        complexity: request.complexity,
        priority: request.priority,
        status: request.status,
        created_at,
        completed_at: None,
        review_notes: None,
        bug_report: None,
        last_user_critique: None,
        implementation_summary: None,
        github_issue_number: request.github_issue_number,
        github_issue_url: request.github_issue_url,
    }
}

/// The mathematical view of an [`UpdateIssue`].
pub struct UpdateIssueView {
    pub title: Option<Seq<char>>,
    pub description: Option<Seq<char>>,
    pub subtasks: Option<Seq<Seq<char>>>,
    pub time_estimate: Option<Seq<char>>,
    pub complexity: Option<u8>,
    pub priority: Option<u8>,
    pub status: Option<IssueStatus>,
    pub completed_at: Option<Seq<char>>,
    pub review_notes: Option<Seq<char>>,
    pub bug_report: Option<Seq<char>>,
    pub last_user_critique: Option<Seq<char>>,
    pub implementation_summary: Option<Seq<char>>,
    pub github_issue_number: Option<u64>,
    pub github_issue_url: Option<Seq<char>>,
}

/// A partial update of an issue: a field that is `None` leaves the issue's
/// field as it was.
#[derive(Debug)]
pub struct UpdateIssue {
    pub title: Option<String>,
    pub description: Option<String>,
    pub subtasks: Option<Vec<String>>,
    pub time_estimate: Option<String>,
    pub complexity: Option<u8>,
    pub priority: Option<u8>,
    pub status: Option<IssueStatus>,
    pub completed_at: Option<String>,
    pub review_notes: Option<String>,
    pub bug_report: Option<String>,
    pub last_user_critique: Option<String>,
    pub implementation_summary: Option<String>,
    pub github_issue_number: Option<u64>,
    pub github_issue_url: Option<String>,
}

impl View for UpdateIssue {
    type V = UpdateIssueView;

    open spec fn view(&self) -> UpdateIssueView {
        UpdateIssueView {
            title: opt_text(self.title),
            description: opt_text(self.description),
            subtasks: opt_texts(self.subtasks),
            time_estimate: opt_text(self.time_estimate),
            complexity: self.complexity,
            priority: self.priority,
            status: self.status,
            completed_at: opt_text(self.completed_at),
            review_notes: opt_text(self.review_notes),
            bug_report: opt_text(self.bug_report),
            last_user_critique: opt_text(self.last_user_critique),
            implementation_summary: opt_text(self.implementation_summary),
            github_issue_number: self.github_issue_number,
            github_issue_url: opt_text(self.github_issue_url),
        }
    }
}

/// The completion time that a patch leaves where the issue has `current`.
/// A time in the patch wins. Else a patch that sets the status to completed
/// keeps a time that is there and stamps `now` where none is; one that sets
/// any other status removes the time; one without a status leaves it.
pub open spec fn patched_completion(
    current: Option<Seq<char>>,
    status: Option<IssueStatus>,
    completed_at: Option<Seq<char>>,
    now: Seq<char>,
) -> Option<Seq<char>> {
    match completed_at {
        Some(c) => Some(c),
        None => match status {
            Some(IssueStatus::Completed) => match current {
                Some(c) => Some(c),
                None => Some(now),
            },
            Some(_) => None,
            None => current,
        },
    }
}

/// The issue that results from applying a patch at the time `now`: each
/// field that the patch holds replaces the issue's, every other field stays,
/// and the completion time follows [`patched_completion`].
pub open spec fn patched_issue(issue: IssueView, patch: UpdateIssueView, now: Seq<char>) -> IssueView {
    IssueView {
        id: issue.id,
        original_feedback_id: issue.original_feedback_id,
        title: replaced(patch.title, issue.title),
        description: replaced(patch.description, issue.description),
        subtasks: replaced(patch.subtasks, issue.subtasks),
        time_estimate: replaced_opt(patch.time_estimate, issue.time_estimate),
        complexity: replaced(patch.complexity, issue.complexity),
        priority: replaced(patch.priority, issue.priority),
        status: replaced(patch.status, issue.status),
        created_at: issue.created_at,
        completed_at: patched_completion(issue.completed_at, patch.status, patch.completed_at, now),
        review_notes: replaced_opt(patch.review_notes, issue.review_notes),
        bug_report: replaced_opt(patch.bug_report, issue.bug_report),
        last_user_critique: replaced_opt(patch.last_user_critique, issue.last_user_critique),
        implementation_summary: replaced_opt(
            patch.implementation_summary,
            issue.implementation_summary,
        ),
        github_issue_number: replaced_opt(patch.github_issue_number, issue.github_issue_number),
        github_issue_url: replaced_opt(patch.github_issue_url, issue.github_issue_url),
    }
}

impl Issue {
    /// Sets the completion time as a patch with this status and this time
    /// asks, at the time `now`.
    fn settle_completion(&mut self, status: Option<IssueStatus>, completed_at: Option<String>, now: String)
        ensures
            opt_text(final(self).completed_at) == patched_completion(
                opt_text(old(self).completed_at),
                status,
                opt_text(completed_at),
                now@,
            ),
            *final(self) == (Issue { completed_at: final(self).completed_at, ..*old(self) }),
    {
        if let Some(status) = status {
            if status == IssueStatus::Completed {
                if self.completed_at.is_none() {
                    self.completed_at = Some(now);
                }
            } else {
                self.completed_at = None;
            }
        }
        if let Some(completed_at) = completed_at {
            self.completed_at = Some(completed_at);
        }
    }

    /// Applies a patch to the issue in place, at the time `now`.
    pub fn apply(&mut self, patch: UpdateIssue, now: String)
        ensures
            final(self)@ == patched_issue(old(self)@, patch@, now@),
    {
        replace_text(&mut self.title, patch.title);
        replace_text(&mut self.description, patch.description);
        replace_texts(&mut self.subtasks, patch.subtasks);
        replace_opt_text(&mut self.time_estimate, patch.time_estimate);
        replace_value(&mut self.complexity, patch.complexity);
        replace_value(&mut self.priority, patch.priority);
        self.settle_completion(patch.status, patch.completed_at, now);
        replace_value(&mut self.status, patch.status);
        replace_opt_text(&mut self.review_notes, patch.review_notes);
        replace_opt_text(&mut self.bug_report, patch.bug_report);
        replace_opt_text(&mut self.last_user_critique, patch.last_user_critique);
        replace_opt_text(&mut self.implementation_summary, patch.implementation_summary);
        replace_opt_value(&mut self.github_issue_number, patch.github_issue_number);
        replace_opt_text(&mut self.github_issue_url, patch.github_issue_url);
    }
}

/// A document of issues, in the order in which they were stored.
#[derive(Debug, PartialEq, Eq)]
pub struct IssueFile {
    pub issues: Vec<Issue>,
}

impl View for IssueFile {
    type V = Seq<IssueView>;

    open spec fn view(&self) -> Seq<IssueView> {
        views(self.issues@)
    }
}

impl Default for IssueFile {
    /// The empty document, which also stands for one that does not exist yet.
    fn default() -> (r: Self)
        ensures
            r@ == Seq::<IssueView>::empty(),
    {
        IssueFile { issues: Vec::new() }
    }
}

impl Clone for IssueFile {
    fn clone(&self) -> (r: Self)
        ensures
            r@ == self@,
    {
        let mut out: Vec<Issue> = Vec::new();
        let mut i: usize = 0;
        while i < self.issues.len()
            invariant
                i <= self.issues.len(),
                out@.len() == i,
                forall|j: int| 0 <= j < i ==> out@[j]@ == self.issues@[j]@,
            decreases self.issues.len() - i,
        {
            out.push(self.issues[i].clone());
            i += 1;
        }
        IssueFile { issues: out }
    }
}

} // verus!
