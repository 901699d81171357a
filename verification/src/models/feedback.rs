//! Feedback items, the patch that updates one, and the document that holds them.

use vstd::prelude::*;
use vstd::string::StringExecFns;
use crate::records::Record;
use crate::sequences::views;
use crate::text::{
    clone_opt_text, clone_opt_texts, opt_text, opt_texts, replace_opt_text, replace_opt_texts,
    replace_text, replace_value, replaced, replaced_opt,
};

verus! {

/// The state of a feedback item.
#[derive(Clone, Copy, Debug, PartialEq, Eq, Structural)]
pub enum FeedbackStatus {
    Pending,
    NeedsReview,
    Refined,
    Completed,
}

impl FeedbackStatus {
    /// The label under which the status is stored.
    pub open spec fn label(self) -> Seq<char> {
        match self {
            FeedbackStatus::Pending => "pending"@,
            FeedbackStatus::NeedsReview => "needs-review"@,
            FeedbackStatus::Refined => "refined"@,
            FeedbackStatus::Completed => "completed"@,
        }
    }

    /// The status that a stored label stands for, if any.
    pub open spec fn of_label(label: Seq<char>) -> Option<FeedbackStatus> {
        if label == FeedbackStatus::Pending.label() {
            Some(FeedbackStatus::Pending)
        } else if label == FeedbackStatus::NeedsReview.label() {
            Some(FeedbackStatus::NeedsReview)
        } else if label == FeedbackStatus::Refined.label() {
            Some(FeedbackStatus::Refined)
        } else if label == FeedbackStatus::Completed.label() {
            Some(FeedbackStatus::Completed)
        } else {
            None
        }
    }

    /// The four labels differ from one another, so a label names one status.
    pub proof fn label_is_injective(a: FeedbackStatus, b: FeedbackStatus)
        ensures
            a.label() == b.label() <==> a == b,
            FeedbackStatus::of_label(a.label()) == Some(a),
    {
        reveal_strlit("pending");
        reveal_strlit("needs-review");
        reveal_strlit("refined");
        reveal_strlit("completed");
        assert("needs-review"@.len() == 12);
        assert("refined"@.len() == 7);
        assert("pending"@[0] == 'p');
    }

    /// The label of the status, as text.
    pub fn as_str(&self) -> (r: &'static str)
        ensures
            r@ == self.label(),
    {
        match self {
            FeedbackStatus::Pending => "pending",
            FeedbackStatus::NeedsReview => "needs-review",
            FeedbackStatus::Refined => "refined",
            FeedbackStatus::Completed => "completed",
        }
    }

    /// Reads a stored label. Any text but the four labels gives `None`.
    pub fn parse(label: &str) -> (r: Option<FeedbackStatus>)
        ensures
            r == FeedbackStatus::of_label(label@),
    {
        let owned = String::from_str(label);
        if owned == String::from_str("pending") {
            Some(FeedbackStatus::Pending)
        } else if owned == String::from_str("needs-review") {
            Some(FeedbackStatus::NeedsReview)
        } else if owned == String::from_str("refined") {
            Some(FeedbackStatus::Refined)
        } else if owned == String::from_str("completed") {
            Some(FeedbackStatus::Completed)
        } else {
            None
        }
    }
}

/// The mathematical view of a [`FeedbackItem`].
pub struct FeedbackItemView {
    pub id: Seq<char>,
    pub text: Seq<char>,
    pub priority: u8,
    pub status: FeedbackStatus,
    pub created_at: Seq<char>,
    pub completed_at: Option<Seq<char>>,
    pub refined_into_issue_ids: Option<Seq<Seq<char>>>,
    pub review_notes: Option<Seq<char>>,
    pub github_issue_number: Option<u64>,
    pub github_issue_url: Option<Seq<char>>,
}

/// One piece of feedback on a project.
///
/// `priority` runs from 1, the most urgent, to 5. `completed_at` is present
/// while the item counts as completed. `refined_into_issue_ids` lists the
/// issues that an archived item was turned into.
#[derive(Debug, PartialEq, Eq)]
pub struct FeedbackItem {
    pub id: String,
    pub text: String,
    pub priority: u8,
    pub status: FeedbackStatus,
    pub created_at: String,
    pub completed_at: Option<String>,
    pub refined_into_issue_ids: Option<Vec<String>>,
    pub review_notes: Option<String>,
    pub github_issue_number: Option<u64>,
    pub github_issue_url: Option<String>,
}

impl View for FeedbackItem {
    type V = FeedbackItemView;

    open spec fn view(&self) -> FeedbackItemView {
        FeedbackItemView {
            id: self.id@,
            text: self.text@,
            priority: self.priority,
            status: self.status,
            created_at: self.created_at@,
            completed_at: opt_text(self.completed_at),
            refined_into_issue_ids: opt_texts(self.refined_into_issue_ids),
            review_notes: opt_text(self.review_notes),
            github_issue_number: self.github_issue_number,
            github_issue_url: opt_text(self.github_issue_url),
        }
    }
}

impl Clone for FeedbackItem {
    fn clone(&self) -> (r: Self)
        ensures
            r@ == self@,
    {
        FeedbackItem {
            id: self.id.clone(),
            text: self.text.clone(),
            priority: self.priority,
            status: self.status,
            created_at: self.created_at.clone(),
            completed_at: clone_opt_text(&self.completed_at),
            refined_into_issue_ids: clone_opt_texts(&self.refined_into_issue_ids),
            review_notes: clone_opt_text(&self.review_notes),
            github_issue_number: self.github_issue_number,
            github_issue_url: clone_opt_text(&self.github_issue_url),
        }
    }
}

impl Record for FeedbackItem {
    open spec fn id_of(v: FeedbackItemView) -> Seq<char> {
        v.id
    }

    open spec fn priority_of(v: FeedbackItemView) -> u8 {
        v.priority
    }

    open spec fn is_done(v: FeedbackItemView) -> bool {
        v.status == FeedbackStatus::Completed
    }

    fn id(&self) -> (r: &String) {
        &self.id
    }

    fn priority(&self) -> (r: u8) {
        self.priority
    }

    fn done(&self) -> (r: bool) {
        self.status == FeedbackStatus::Completed
    }
}

/// What a caller supplies to create a feedback item.
///
/// Only `text` and `priority` reach the new item: it always starts pending
/// and without a completion time.
#[derive(Debug)]
pub struct NewFeedbackItem {
    pub text: String,
    pub priority: u8,
    pub status: FeedbackStatus,
    pub completed_at: Option<String>,
}

/// The mathematical view of a [`NewFeedbackItem`].
pub struct NewFeedbackItemView {
    pub text: Seq<char>,
    pub priority: u8,
    pub status: FeedbackStatus,
    pub completed_at: Option<Seq<char>>,
}

impl View for NewFeedbackItem {
    type V = NewFeedbackItemView;

    open spec fn view(&self) -> NewFeedbackItemView {
        NewFeedbackItemView {
            text: self.text@,
            priority: self.priority,
            status: self.status,
            completed_at: opt_text(self.completed_at),
        }
    }
}

/// The mathematical view of an [`UpdateFeedbackItem`].
pub struct UpdateFeedbackItemView {
    pub text: Option<Seq<char>>,
    pub priority: Option<u8>,
    pub status: Option<FeedbackStatus>,
    pub completed_at: Option<Seq<char>>,
    pub refined_into_issue_ids: Option<Seq<Seq<char>>>,
    pub review_notes: Option<Seq<char>>,
}

/// A partial update of a feedback item: a field that is `None` leaves the
/// item's field as it was.
#[derive(Debug)]
pub struct UpdateFeedbackItem {
    pub text: Option<String>,
    pub priority: Option<u8>,
    pub status: Option<FeedbackStatus>,
    pub completed_at: Option<String>,
    pub refined_into_issue_ids: Option<Vec<String>>,
    pub review_notes: Option<String>,
}

impl View for UpdateFeedbackItem {
    type V = UpdateFeedbackItemView;

    open spec fn view(&self) -> UpdateFeedbackItemView {
        UpdateFeedbackItemView {
            text: opt_text(self.text),
            priority: self.priority,
            status: self.status,
            completed_at: opt_text(self.completed_at),
            refined_into_issue_ids: opt_texts(self.refined_into_issue_ids),
            review_notes: opt_text(self.review_notes),
        }
    }
}

/// The item that results from applying a patch: each field that the patch
/// holds replaces the item's, every other field stays.
pub open spec fn patched(item: FeedbackItemView, patch: UpdateFeedbackItemView) -> FeedbackItemView {
    FeedbackItemView {
        id: item.id,
        text: replaced(patch.text, item.text),
        priority: replaced(patch.priority, item.priority),
        status: replaced(patch.status, item.status),
        created_at: item.created_at,
        completed_at: replaced_opt(patch.completed_at, item.completed_at),
        refined_into_issue_ids: replaced_opt(
            patch.refined_into_issue_ids,
            item.refined_into_issue_ids,
        ),
        review_notes: replaced_opt(patch.review_notes, item.review_notes),
        github_issue_number: item.github_issue_number,
        github_issue_url: item.github_issue_url,
    }
}

impl FeedbackItem {
    /// Applies a patch to the item in place.
    pub fn apply(&mut self, patch: UpdateFeedbackItem)
        ensures
            final(self)@ == patched(old(self)@, patch@),
    {
        replace_text(&mut self.text, patch.text);
        replace_value(&mut self.priority, patch.priority);
        replace_value(&mut self.status, patch.status);
        replace_opt_text(&mut self.completed_at, patch.completed_at);
        replace_opt_texts(&mut self.refined_into_issue_ids, patch.refined_into_issue_ids);
        replace_opt_text(&mut self.review_notes, patch.review_notes);
    }
}

/// A document of feedback items, in the order in which they were stored.
#[derive(Debug, PartialEq, Eq)]
pub struct FeedbackFile {
    pub feedback: Vec<FeedbackItem>,
}

impl View for FeedbackFile {
    type V = Seq<FeedbackItemView>;

    open spec fn view(&self) -> Seq<FeedbackItemView> {
        views(self.feedback@)
    }
}

impl Default for FeedbackFile {
    /// The empty document, which also stands for one that does not exist yet.
    fn default() -> (r: Self)
        ensures
            r@ == Seq::<FeedbackItemView>::empty(),
    {
        FeedbackFile { feedback: Vec::new() }
    }
}

impl Clone for FeedbackFile {
    fn clone(&self) -> (r: Self)
        ensures
            r@ == self@,
    {
        let mut out: Vec<FeedbackItem> = Vec::new();
        let mut i: usize = 0;
        while i < self.feedback.len()
            invariant
                i <= self.feedback.len(),
                out@.len() == i,
                forall|j: int| 0 <= j < i ==> out@[j]@ == self.feedback@[j]@,
            decreases self.feedback.len() - i,
        {
            out.push(self.feedback[i].clone());
            i += 1;
        }
        FeedbackFile { feedback: out }
    }
}

} // verus!
