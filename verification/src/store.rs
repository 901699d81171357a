//! The documents of one project, held as plain values.
//!
//! A project keeps five documents. Each one may be missing, present, or
//! present but impossible to load. Commands read the slots and write whole
//! documents back; the store records which documents were written, in order,
//! so that whoever owns the files can persist exactly those.

use vstd::prelude::*;
use vstd::string::StringExecFns;
use crate::models::feedback::{FeedbackFile, FeedbackItemView};
use crate::models::issue::{IssueFile, IssueView};

verus! {

/// The five documents that a project keeps.
#[derive(Clone, Copy, Debug, PartialEq, Eq, Structural)]
pub enum DocumentKind {
    /// Feedback that is still open: `feedback.json`.
    Feedback,
    /// Feedback that was completed: `feedback-completed.json`.
    FeedbackCompleted,
    /// Feedback that was refined into issues: `feedback-archive.json`.
    FeedbackArchive,
    /// Issues that are still open: `issues.json`.
    Issues,
    /// Issues that were completed: `issues-archive.json`.
    IssuesArchive,
}

impl DocumentKind {
    /// The file name of the document inside the project's `.vibe` directory.
    pub open spec fn name(self) -> Seq<char> {
        match self {
            DocumentKind::Feedback => "feedback.json"@,
            DocumentKind::FeedbackCompleted => "feedback-completed.json"@,
            DocumentKind::FeedbackArchive => "feedback-archive.json"@,
            DocumentKind::Issues => "issues.json"@,
            DocumentKind::IssuesArchive => "issues-archive.json"@,
        }
    }

    /// What the document is called in an error message.
    pub open spec fn description(self) -> Seq<char> {
        match self {
            DocumentKind::Feedback => "feedback file"@,
            DocumentKind::FeedbackCompleted => "feedback file"@,
            DocumentKind::FeedbackArchive => "feedback archive file"@,
            DocumentKind::Issues => "issues file"@,
            DocumentKind::IssuesArchive => "issues archive file"@,
        }
    }

    /// The file name of the document inside the project's `.vibe` directory.
    pub fn file_name(&self) -> (r: &'static str)
        ensures
            r@ == self.name(),
    {
        match self {
            DocumentKind::Feedback => "feedback.json",
            DocumentKind::FeedbackCompleted => "feedback-completed.json",
            DocumentKind::FeedbackArchive => "feedback-archive.json",
            DocumentKind::Issues => "issues.json",
            DocumentKind::IssuesArchive => "issues-archive.json",
        }
    }

    /// What the document is called in an error message.
    pub fn describe(&self) -> (r: &'static str)
        ensures
            r@ == self.description(),
    {
        match self {
            DocumentKind::Feedback => "feedback file",
            DocumentKind::FeedbackCompleted => "feedback file",
            DocumentKind::FeedbackArchive => "feedback archive file",
            DocumentKind::Issues => "issues file",
            DocumentKind::IssuesArchive => "issues archive file",
        }
    }
}

/// What a command looked for and did not find.
#[derive(Clone, Copy, Debug, PartialEq, Eq, Structural)]
pub enum Lookup {
    /// A feedback item, in the pending and the completed document.
    Feedback,
    /// A feedback item, in the pending document alone.
    PendingFeedback,
    /// An issue, in the pending and the archive document.
    Issue,
}

/// The mathematical view of a [`StoreError`].
pub enum StoreErrorView {
    NotFound(Lookup),
    Read(DocumentKind, Seq<char>),
    Parse(DocumentKind, Seq<char>),
    Write(DocumentKind, Seq<char>),
}

/// Why a command failed.
#[derive(Debug, PartialEq, Eq)]
pub enum StoreError {
    /// No record with the given id is in the documents that were searched.
    NotFound(Lookup),
    /// The document exists but could not be read; the text says why.
    Read(DocumentKind, String),
    /// The document was read but is not a well-formed document of its kind.
    Parse(DocumentKind, String),
    /// The document could not be written. No command of this library
    /// returns it: it is for the code that persists the store.
    Write(DocumentKind, String),
}

impl View for StoreError {
    type V = StoreErrorView;

    open spec fn view(&self) -> StoreErrorView {
        match *self {
            StoreError::NotFound(w) => StoreErrorView::NotFound(w),
            StoreError::Read(k, d) => StoreErrorView::Read(k, d@),
            StoreError::Parse(k, d) => StoreErrorView::Parse(k, d@),
            StoreError::Write(k, d) => StoreErrorView::Write(k, d@),
        }
    }
}

impl StoreErrorView {
    /// The message that describes the error.
    pub open spec fn message(self) -> Seq<char> {
        match self {
            StoreErrorView::NotFound(Lookup::Feedback) => "Feedback item not found"@,
            StoreErrorView::NotFound(Lookup::PendingFeedback) => "Feedback item not found in pending feedback"@,
            StoreErrorView::NotFound(Lookup::Issue) => "Issue not found"@,
            StoreErrorView::Read(k, d) => "Failed to read "@ + k.description() + ": "@ + d,
            StoreErrorView::Parse(k, d) => "Failed to parse "@ + k.description() + ": "@ + d,
            StoreErrorView::Write(k, d) => "Failed to write "@ + k.description() + ": "@ + d,
        }
    }
}

impl StoreError {
    /// The message that describes the error.
    pub fn message(&self) -> (r: String)
        ensures
            r@ == self@.message(),
    {
        match self {
            StoreError::NotFound(Lookup::Feedback) => String::from_str("Feedback item not found"),
            StoreError::NotFound(Lookup::PendingFeedback) => String::from_str(
                "Feedback item not found in pending feedback",
            ),
            StoreError::NotFound(Lookup::Issue) => String::from_str("Issue not found"),
            StoreError::Read(k, d) => String::from_str("Failed to read ").concat(k.describe()).concat(
                ": ",
            ).concat(d.as_str()),
            StoreError::Parse(k, d) => String::from_str("Failed to parse ").concat(
                k.describe(),
            ).concat(": ").concat(d.as_str()),
            StoreError::Write(k, d) => String::from_str("Failed to write ").concat(
                k.describe(),
            ).concat(": ").concat(d.as_str()),
        }
    }
}

/// Whether a result is the failure with the given error.
pub open spec fn fails_with<T>(r: Result<T, StoreError>, e: StoreErrorView) -> bool {
    r matches Err(x) && x@ == e
}

/// Whether a result is the success with the given value.
pub open spec fn gives<T: View>(r: Result<T, StoreError>, v: T::V) -> bool {
    r matches Ok(x) && x@ == v
}

/// Whether a result is what was expected of it, success or failure.
pub open spec fn agrees<T: View>(r: Result<T, StoreError>, expected: Result<T::V, StoreErrorView>) -> bool {
    match expected {
        Ok(v) => gives(r, v),
        Err(e) => fails_with(r, e),
    }
}

/// A kind of document that a slot can hold.
pub trait Document: View + Sized {
    /// The view of the document without records.
    spec fn blank() -> Self::V;

    /// The document without records.
    fn empty() -> (r: Self)
        ensures
            r@ == Self::blank(),
    ;

    /// A copy of the document.
    fn duplicate(&self) -> (r: Self)
        ensures
            r@ == self@,
    ;
}

impl Document for FeedbackFile {
    open spec fn blank() -> Seq<FeedbackItemView> {
        Seq::empty()
    }

    fn empty() -> (r: Self) {
        let r = FeedbackFile { feedback: Vec::new() };
        assert(r@ =~= Seq::empty());
        r
    }

    fn duplicate(&self) -> (r: Self) {
        self.clone()
    }
}

/// The mathematical view of a [`Slot`].
pub enum SlotView<V> {
    Missing,
    Present(V),
    Unreadable(Seq<char>),
    Malformed(Seq<char>),
}

impl<V> SlotView<V> {
    /// Whether the document exists, loadable or not.
    pub open spec fn is_on_disk(self) -> bool {
        !(self is Missing)
    }

    /// What loading the slot gives: the document, `blank` for a missing one,
    /// or the error that says why it cannot be loaded.
    pub open spec fn load(self, kind: DocumentKind, blank: V) -> Result<V, StoreErrorView> {
        match self {
            SlotView::Missing => Ok(blank),
            SlotView::Present(d) => Ok(d),
            SlotView::Unreadable(why) => Err(StoreErrorView::Read(kind, why)),
            SlotView::Malformed(why) => Err(StoreErrorView::Parse(kind, why)),
        }
    }
}

/// The place of one document in a project.
#[derive(Debug, PartialEq, Eq)]
pub enum Slot<T> {
    /// The document does not exist.
    Missing,
    /// The document exists and holds this.
    Present(T),
    /// The document exists but could not be read; the text says why.
    Unreadable(String),
    /// The document was read but is not well-formed; the text says why.
    Malformed(String),
}

impl<T: View> View for Slot<T> {
    type V = SlotView<T::V>;

    open spec fn view(&self) -> SlotView<T::V> {
        match *self {
            Slot::Missing => SlotView::Missing,
            Slot::Present(d) => SlotView::Present(d@),
            Slot::Unreadable(why) => SlotView::Unreadable(why@),
            Slot::Malformed(why) => SlotView::Malformed(why@),
        }
    }
}

impl<T: Document> Slot<T> {
    /// Whether the document exists, loadable or not.
    pub fn on_disk(&self) -> (r: bool)
        ensures
            r == self@.is_on_disk(),
    {
        match self {
            Slot::Missing => false,
            _ => true,
        }
    }

    /// Loads the document of the slot. A missing document loads as the
    /// empty one; a document that exists but cannot be loaded is an error.
    pub fn load(&self, kind: DocumentKind) -> (r: Result<T, StoreError>)
        ensures
            agrees(r, self@.load(kind, T::blank())),
    {
        match self {
            Slot::Missing => Ok(T::empty()),
            Slot::Present(d) => Ok(d.duplicate()),
            Slot::Unreadable(why) => Err(StoreError::Read(kind, why.clone())),
            Slot::Malformed(why) => Err(StoreError::Parse(kind, why.clone())),
        }
    }
}

impl Document for IssueFile {
    open spec fn blank() -> Seq<IssueView> {
        Seq::empty()
    }

    fn empty() -> (r: Self) {
        let r = IssueFile { issues: Vec::new() };
        assert(r@ =~= Seq::empty());
        r
    }

    fn duplicate(&self) -> (r: Self) {
        self.clone()
    }
}

/// The mathematical view of a [`ProjectStore`].
pub struct ProjectStoreView {
    pub feedback: SlotView<Seq<FeedbackItemView>>,
    pub feedback_completed: SlotView<Seq<FeedbackItemView>>,
    pub feedback_archive: SlotView<Seq<FeedbackItemView>>,
    pub issues: SlotView<Seq<IssueView>>,
    pub issues_archive: SlotView<Seq<IssueView>>,
    pub writes: Seq<DocumentKind>,
}

impl ProjectStoreView {
    /// What loading the pending feedback gives.
    pub open spec fn pending_feedback(self) -> Result<Seq<FeedbackItemView>, StoreErrorView> {
        self.feedback.load(DocumentKind::Feedback, Seq::empty())
    }

    /// What loading the completed feedback gives.
    pub open spec fn completed_feedback(self) -> Result<Seq<FeedbackItemView>, StoreErrorView> {
        self.feedback_completed.load(DocumentKind::FeedbackCompleted, Seq::empty())
    }

    /// What loading the archived feedback gives.
    pub open spec fn archived_feedback(self) -> Result<Seq<FeedbackItemView>, StoreErrorView> {
        self.feedback_archive.load(DocumentKind::FeedbackArchive, Seq::empty())
    }

    /// What loading the pending issues gives.
    pub open spec fn pending_issues(self) -> Result<Seq<IssueView>, StoreErrorView> {
        self.issues.load(DocumentKind::Issues, Seq::empty())
    }

    /// What loading the archived issues gives.
    pub open spec fn archived_issues(self) -> Result<Seq<IssueView>, StoreErrorView> {
        self.issues_archive.load(DocumentKind::IssuesArchive, Seq::empty())
    }

    /// The store after the pending feedback was written.
    pub open spec fn with_pending_feedback(self, doc: Seq<FeedbackItemView>) -> ProjectStoreView {
        ProjectStoreView {
            feedback: SlotView::Present(doc),
            writes: self.writes.push(DocumentKind::Feedback),
            ..self
        }
    }

    /// The store after the completed feedback was written.
    pub open spec fn with_completed_feedback(self, doc: Seq<FeedbackItemView>) -> ProjectStoreView {
        ProjectStoreView {
            feedback_completed: SlotView::Present(doc),
            writes: self.writes.push(DocumentKind::FeedbackCompleted),
            ..self
        }
    }

    /// The store after the archived feedback was written.
    pub open spec fn with_archived_feedback(self, doc: Seq<FeedbackItemView>) -> ProjectStoreView {
        ProjectStoreView {
            feedback_archive: SlotView::Present(doc),
            writes: self.writes.push(DocumentKind::FeedbackArchive),
            ..self
        }
    }

    /// The store after the pending issues were written.
    pub open spec fn with_pending_issues(self, doc: Seq<IssueView>) -> ProjectStoreView {
        ProjectStoreView {
            issues: SlotView::Present(doc),
            writes: self.writes.push(DocumentKind::Issues),
            ..self
        }
    }

    /// The store after the archived issues were written.
    pub open spec fn with_archived_issues(self, doc: Seq<IssueView>) -> ProjectStoreView {
        ProjectStoreView {
            issues_archive: SlotView::Present(doc),
            writes: self.writes.push(DocumentKind::IssuesArchive),
            ..self
        }
    }
}

/// What a command leaves: the store after it, and what it returns.
pub type Outcome<V> = (ProjectStoreView, Result<V, StoreErrorView>);

/// The documents of one project, and the record of what was written.
///
/// Whoever owns the files fills the slots from them, runs a command, and
/// then persists the documents that `writes` names, in that order.
#[derive(Debug, PartialEq, Eq)]
pub struct ProjectStore {
    /// Feedback that is still open.
    pub feedback: Slot<FeedbackFile>,
    /// Feedback that was completed.
    pub feedback_completed: Slot<FeedbackFile>,
    /// Feedback that was refined into issues.
    pub feedback_archive: Slot<FeedbackFile>,
    /// Issues that are still open.
    pub issues: Slot<IssueFile>,
    /// Issues that were completed.
    pub issues_archive: Slot<IssueFile>,
    /// The documents that commands have written, oldest first.
    pub writes: Vec<DocumentKind>,
}

impl View for ProjectStore {
    type V = ProjectStoreView;

    open spec fn view(&self) -> ProjectStoreView {
        ProjectStoreView {
            feedback: self.feedback@,
            feedback_completed: self.feedback_completed@,
            feedback_archive: self.feedback_archive@,
            issues: self.issues@,
            issues_archive: self.issues_archive@,
            writes: self.writes@,
        }
    }
}

impl ProjectStore {
    /// The store of a project without documents.
    pub fn new() -> (r: Self)
        ensures
            r@ == (ProjectStoreView {
                feedback: SlotView::Missing,
                feedback_completed: SlotView::Missing,
                feedback_archive: SlotView::Missing,
                issues: SlotView::Missing,
                issues_archive: SlotView::Missing,
                writes: Seq::empty(),
            }),
    {
        ProjectStore {
            feedback: Slot::Missing,
            feedback_completed: Slot::Missing,
            feedback_archive: Slot::Missing,
            issues: Slot::Missing,
            issues_archive: Slot::Missing,
            writes: Vec::new(),
        }
    }

    /// Hands out the record of what was written and starts a new one.
    pub fn take_writes(&mut self) -> (r: Vec<DocumentKind>)
        ensures
            r@ == old(self)@.writes,
            final(self)@ == (ProjectStoreView { writes: Seq::empty(), ..old(self)@ }),
    {
        let mut out: Vec<DocumentKind> = Vec::new();
        core::mem::swap(&mut self.writes, &mut out);
        out
    }
}

} // verus!
