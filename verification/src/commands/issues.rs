//! The life of an issue: created, patched, moved between the pending
//! document and the archive as it is completed or reopened, and deleted,
//! which also removes the link that an archived feedback item keeps to it.

use vstd::prelude::*;
use vstd::string::StringExecFns;
use crate::clock::{current_timestamp, is_utc_timestamp};
use crate::commands::feedback::{
    read_archived_feedback, read_completed_feedback, read_pending_feedback, write_archived_feedback,
    write_completed_feedback, write_pending_feedback,
};
use crate::ids::{fresh_id, is_uuid_v4};
use crate::models::feedback::{FeedbackFile, FeedbackItem, FeedbackItemView};
use crate::models::issue::{
    created_issue, default_complexity, patched_issue, Issue, IssueFile, IssueStatus, IssueView,
    NewIssue, UpdateIssue, UpdateIssueView,
};
use crate::records::{
    completed, discard, find, lemma_views_add, lemma_views_push, split_done, unfinished, with_id,
    without_id, ByPriority,
};
use crate::sequences::{first_where, relation, stable_sort, stable_sorted, views};
use crate::store::{
    agrees, fails_with, DocumentKind, Lookup, Outcome, ProjectStore, ProjectStoreView, Slot,
    StoreError, StoreErrorView,
};
use crate::text::{discard_text, opt_text, other_than};

verus! {

/// Loads the pending issues: the document, or the empty one where the
/// project has none yet.
pub fn read_issues_file(store: &ProjectStore) -> (r: Result<IssueFile, StoreError>)
    ensures
        agrees(r, store@.pending_issues()),
{
    store.issues.load(DocumentKind::Issues)
}

/// Loads the archived issues: the document, or the empty one where the
/// project has none yet.
pub fn read_issues_archive_file(store: &ProjectStore) -> (r: Result<IssueFile, StoreError>)
    ensures
        agrees(r, store@.archived_issues()),
{
    store.issues_archive.load(DocumentKind::IssuesArchive)
}

/// Replaces the pending issues and records the write.
pub fn write_issues_file(store: &mut ProjectStore, issues_file: IssueFile)
    ensures
        final(store)@ == old(store)@.with_pending_issues(issues_file@),
{
    store.issues = Slot::Present(issues_file);
    store.writes.push(DocumentKind::Issues);
}

/// Replaces the archived issues and records the write.
pub fn write_issues_archive_file(store: &mut ProjectStore, issues_file: IssueFile)
    ensures
        final(store)@ == old(store)@.with_archived_issues(issues_file@),
{
    store.issues_archive = Slot::Present(issues_file);
    store.writes.push(DocumentKind::IssuesArchive);
}

/// The pending issues followed by the archived ones, or the error of the
/// first of the two documents that cannot be loaded.
pub open spec fn all_issues(s: ProjectStoreView) -> Result<Seq<IssueView>, StoreErrorView> {
    match s.pending_issues() {
        Err(e) => Err(e),
        Ok(pending) => match s.archived_issues() {
            Err(e) => Err(e),
            Ok(archive) => Ok(pending + archive),
        },
    }
}

/// Lists the pending and the archived issues by priority, most urgent
/// first; issues of one priority stand as they do in the pending document
/// followed by the archive.
pub fn get_issues(store: &ProjectStore) -> (r: Result<Vec<Issue>, StoreError>)
    ensures
        match all_issues(store@) {
            Err(e) => fails_with(r, e),
            Ok(all) => r matches Ok(v) && stable_sorted(
                views(v@),
                all,
                relation::<Issue, ByPriority>(),
            ),
        },
{
    let pending = read_issues_file(store)?;
    let archive = read_issues_archive_file(store)?;
    let mut all = pending.issues;
    let mut rest = archive.issues;
    proof {
        lemma_views_add(all@, rest@);
    }
    all.append(&mut rest);
    stable_sort::<Issue, ByPriority>(&mut all);
    Ok(all)
}

/// What adding an issue leaves: the pending document with the issue at its
/// end, written; or, where that document cannot be loaded, the store as it
/// was and the error.
pub open spec fn added_issue(s: ProjectStoreView, issue: IssueView) -> Outcome<IssueView> {
    match s.pending_issues() {
        Err(e) => (s, Err(e)),
        Ok(pending) => (s.with_pending_issues(pending.push(issue)), Ok(issue)),
    }
}

/// Adds an issue with the given id and creation time to the pending
/// document, and returns a copy of it.
pub fn add_issue_as(store: &mut ProjectStore, issue: NewIssue, id: String, created_at: String) -> (r:
    Result<Issue, StoreError>)
    ensures
        final(store)@ == added_issue(old(store)@, created_issue(issue@, id@, created_at@)).0,
        agrees(r, added_issue(old(store)@, created_issue(issue@, id@, created_at@)).1),
{
    let mut pending = read_issues_file(store)?;
    let new_issue = Issue {
        id,
        original_feedback_id: issue.original_feedback_id,
        title: issue.title,
        description: issue.description,
        subtasks: issue.subtasks,
        time_estimate: issue.time_estimate,
        complexity: issue.complexity,
        priority: issue.priority,
        status: issue.status,
        created_at,
        completed_at: None,
        review_notes: None,
        bug_report: None,
        last_user_critique: None,
        implementation_summary: None,
        github_issue_number: issue.github_issue_number,
        github_issue_url: issue.github_issue_url,
    };
    let copy = new_issue.clone();
    proof {
        lemma_views_push(pending.issues@, new_issue);
    }
    pending.issues.push(new_issue);
    write_issues_file(store, pending);
    Ok(copy)
}

/// Adds an issue to the pending document, under a fresh random id and with
/// the current time as its creation time, and returns a copy of it.
///
/// The id and the time come from outside, so the contract holds for
/// whichever came: the new issue is the one that the request creates under
/// its id and creation time, the id is a version 4 UUID, and the time is a
/// UTC timestamp.
pub fn add_issue(store: &mut ProjectStore, issue: NewIssue) -> (r: Result<Issue, StoreError>)
    ensures
        match old(store)@.pending_issues() {
            Err(e) => fails_with(r, e) && final(store)@ == old(store)@,
            Ok(pending) => r matches Ok(added) && {
                &&& is_uuid_v4(added@.id)
                &&& is_utc_timestamp(added@.created_at)
                &&& added@ == created_issue(issue@, added@.id, added@.created_at)
                &&& final(store)@ == old(store)@.with_pending_issues(pending.push(added@))
            },
        },
{
    let id = fresh_id();
    let created_at = current_timestamp();
    add_issue_as(store, issue, id, created_at)
}

/// The pending document and the archive after an issue of the given id
/// went from the status `was` to the status `is`. An issue that became
/// completed moves to the end of the archive: the first of that id in the
/// pending document, if one is there. An issue that is no longer completed
/// moves to the end of the pending document: the first of that id in the
/// archive, if one is there. Else nothing moves.
pub open spec fn rehomed(
    pending: Seq<IssueView>,
    archive: Seq<IssueView>,
    id: Seq<char>,
    was: IssueStatus,
    is: IssueStatus,
) -> (Seq<IssueView>, Seq<IssueView>) {
    if was != IssueStatus::Completed && is == IssueStatus::Completed {
        match first_where(pending, with_id::<Issue>(id)) {
            Some(k) => (pending.remove(k), archive.push(pending[k])),
            None => (pending, archive),
        }
    } else if was == IssueStatus::Completed && is != IssueStatus::Completed {
        match first_where(archive, with_id::<Issue>(id)) {
            Some(k) => (pending.push(archive[k]), archive.remove(k)),
            None => (pending, archive),
        }
    } else {
        (pending, archive)
    }
}

/// The pending document and the archive after the first issue with the
/// given id was patched, the first in the pending document or else the
/// first in the archive, and moved as [`rehomed`] says. `None` where
/// neither holds such an issue.
pub open spec fn update_issue_documents(
    pending: Seq<IssueView>,
    archive: Seq<IssueView>,
    id: Seq<char>,
    patch: UpdateIssueView,
    now: Seq<char>,
) -> Option<(Seq<IssueView>, Seq<IssueView>)> {
    match first_where(pending, with_id::<Issue>(id)) {
        Some(i) => {
            let issue = patched_issue(pending[i], patch, now);
            Some(rehomed(pending.update(i, issue), archive, id, pending[i].status, issue.status))
        },
        None => match first_where(archive, with_id::<Issue>(id)) {
            Some(i) => {
                let issue = patched_issue(archive[i], patch, now);
                Some(
                    rehomed(pending, archive.update(i, issue), id, archive[i].status, issue.status),
                )
            },
            None => None,
        },
    }
}

/// What updating an issue leaves. Both documents are loaded, the pending
/// one first; where one cannot be, the store stays as it was and the error
/// is returned. Where no issue has the id, the store stays as it was and
/// the issue is reported as not found. Else both documents are written, the
/// pending one first, as [`update_issue_documents`] gives them.
pub open spec fn updated_issue(
    s: ProjectStoreView,
    id: Seq<char>,
    patch: UpdateIssueView,
    now: Seq<char>,
) -> Outcome<()> {
    match s.pending_issues() {
        Err(e) => (s, Err(e)),
        Ok(pending) => match s.archived_issues() {
            Err(e) => (s, Err(e)),
            Ok(archive) => match update_issue_documents(pending, archive, id, patch, now) {
                Some((p, a)) => (s.with_pending_issues(p).with_archived_issues(a), Ok(())),
                None => (s, Err(StoreErrorView::NotFound(Lookup::Issue))),
            },
        },
    }
}

/// Moves an issue of the given id between the two documents after its
/// status went from `was` to `is`.
fn rehome(pending: &mut IssueFile, archive: &mut IssueFile, id: &String, was: IssueStatus, is: IssueStatus)
    ensures
        (final(pending)@, final(archive)@) == rehomed(old(pending)@, old(archive)@, id@, was, is),
{
    if was != IssueStatus::Completed && is == IssueStatus::Completed {
        if let Some(k) = find(&pending.issues, id) {
            let issue = pending.issues.remove(k);
            archive.issues.push(issue);
        }
    } else if was == IssueStatus::Completed && is != IssueStatus::Completed {
        if let Some(k) = find(&archive.issues, id) {
            let issue = archive.issues.remove(k);
            pending.issues.push(issue);
        }
    }
}

/// Patches the issue at index `i` of a document, at the time `now`, and
/// returns the status it had and the one it has.
fn patch_at(file: &mut IssueFile, i: usize, updates: UpdateIssue, now: String) -> (r: (
    IssueStatus,
    IssueStatus,
))
    requires
        i < old(file)@.len(),
    ensures
        final(file)@ == old(file)@.update(i as int, patched_issue(old(file)@[i as int], updates@, now@)),
        r.0 == old(file)@[i as int].status,
        r.1 == patched_issue(old(file)@[i as int], updates@, now@).status,
{
    let mut issue = file.issues.remove(i);
    let was = issue.status;
    issue.apply(updates, now);
    let is = issue.status;
    file.issues.insert(i, issue);
    (was, is)
}

/// Patches the issue with the given id, at the time `now`, and moves it
/// between the pending document and the archive where its status asks for
/// it.
pub fn update_issue_at(store: &mut ProjectStore, issue_id: &String, updates: UpdateIssue, now: String) -> (r:
    Result<(), StoreError>)
    ensures
        final(store)@ == updated_issue(old(store)@, issue_id@, updates@, now@).0,
        match updated_issue(old(store)@, issue_id@, updates@, now@).1 {
            Ok(_) => r is Ok,
            Err(e) => fails_with(r, e),
        },
{
    let mut pending = read_issues_file(store)?;
    let mut archive = read_issues_archive_file(store)?;
    let (was, is) = match find(&pending.issues, issue_id) {
        Some(i) => patch_at(&mut pending, i, updates, now),
        None => match find(&archive.issues, issue_id) {
            Some(i) => patch_at(&mut archive, i, updates, now),
            None => {
                return Err(StoreError::NotFound(Lookup::Issue));
            },
        },
    };
    rehome(&mut pending, &mut archive, issue_id, was, is);
    write_issues_file(store, pending);
    write_issues_archive_file(store, archive);
    Ok(())
}

/// Patches the issue with the given id and moves it between the pending
/// document and the archive where its status asks for it. An issue that
/// becomes completed without a completion time gets the current time.
///
/// The time comes from outside, so the contract holds for whichever came:
/// the command does what [`update_issue_at`] does at some UTC timestamp.
pub fn update_issue(store: &mut ProjectStore, issue_id: &String, updates: UpdateIssue) -> (r: Result<
    (),
    StoreError,
>)
    ensures
        exists|now: Seq<char>|
            {
                &&& is_utc_timestamp(now)
                &&& final(store)@ == (#[trigger] updated_issue(old(store)@, issue_id@, updates@, now)).0
                &&& match updated_issue(old(store)@, issue_id@, updates@, now).1 {
                    Ok(_) => r is Ok,
                    Err(e) => fails_with(r, e),
                }
            },
{
    let now = current_timestamp();
    update_issue_at(store, issue_id, updates, now)
}

/// The feedback item that an issue of the given id came from: what the
/// first such issue in the pending document names or, where there is no
/// such issue or it names none, what the first in the archive names.
pub open spec fn origin_of(pending: Seq<IssueView>, archive: Seq<IssueView>, id: Seq<char>) -> Option<
    Seq<char>,
> {
    let named = match first_where(pending, with_id::<Issue>(id)) {
        Some(i) => pending[i].original_feedback_id,
        None => None,
    };
    match named {
        Some(f) => Some(f),
        None => match first_where(archive, with_id::<Issue>(id)) {
            Some(i) => archive[i].original_feedback_id,
            None => None,
        },
    }
}

/// A feedback item without its links to the given issue; its links to
/// other issues stay, in their order.
pub open spec fn unlinked(item: FeedbackItemView, issue_id: Seq<char>) -> FeedbackItemView {
    FeedbackItemView {
        refined_into_issue_ids: match item.refined_into_issue_ids {
            Some(ids) => Some(ids.filter(other_than(issue_id))),
            None => None,
        },
        ..item
    }
}

/// The feedback archive after the first item with the given id lost its
/// links to the given issue. An archive without such an item stays as it is.
pub open spec fn pruned(
    archive: Seq<FeedbackItemView>,
    feedback_id: Seq<char>,
    issue_id: Seq<char>,
) -> Seq<FeedbackItemView> {
    match first_where(archive, with_id::<FeedbackItem>(feedback_id)) {
        Some(k) => archive.update(k, unlinked(archive[k], issue_id)),
        None => archive,
    }
}

/// What deleting an issue leaves. The pending document and the archive are
/// loaded, the pending one first; where one cannot be, the store stays as it
/// was and the error is returned. Else both are written without the issues
/// of the given id. Where the deleted issue came from a feedback item, the
/// feedback archive is loaded then, pruned of the link and written; where
/// it cannot be loaded, the error is returned after the two issue documents
/// were written.
pub open spec fn deleted_issue(s: ProjectStoreView, id: Seq<char>) -> Outcome<()> {
    match s.pending_issues() {
        Err(e) => (s, Err(e)),
        Ok(pending) => match s.archived_issues() {
            Err(e) => (s, Err(e)),
            Ok(archive) => {
                let removed = s.with_pending_issues(
                    pending.filter(without_id::<Issue>(id)),
                ).with_archived_issues(archive.filter(without_id::<Issue>(id)));
                match origin_of(pending, archive, id) {
                    None => (removed, Ok(())),
                    Some(feedback_id) => match removed.archived_feedback() {
                        Err(e) => (removed, Err(e)),
                        Ok(feedback) => (
                            removed.with_archived_feedback(pruned(feedback, feedback_id, id)),
                            Ok(()),
                        ),
                    },
                }
            },
        },
    }
}

/// A copy of the id of the feedback item that the first issue with the
/// given id came from, if there is such an issue and it names one.
fn named_origin(issues: &Vec<Issue>, id: &String) -> (r: Option<String>)
    ensures
        opt_text(r) == match first_where(views(issues@), with_id::<Issue>(id@)) {
            Some(i) => views(issues@)[i].original_feedback_id,
            None => None,
        },
{
    match find(issues, id) {
        Some(i) => match &issues[i].original_feedback_id {
            Some(f) => Some(f.clone()),
            None => None,
        },
        None => None,
    }
}

/// Removes the links to the given issue from the first feedback item with
/// the given id.
fn prune(archive: &mut FeedbackFile, feedback_id: &String, issue_id: &String)
    ensures
        final(archive)@ == pruned(old(archive)@, feedback_id@, issue_id@),
{
    if let Some(k) = find(&archive.feedback, feedback_id) {
        let mut item = archive.feedback.remove(k);
        match item.refined_into_issue_ids {
            Some(mut ids) => {
                discard_text(&mut ids, issue_id);
                item.refined_into_issue_ids = Some(ids);
            },
            None => {},
        }
        archive.feedback.insert(k, item);
    }
}

/// Deletes the issue with the given id from the pending document and the
/// archive, and removes the link to it from the archived feedback item that
/// it came from. An id that no issue has is no error.
pub fn delete_issue(store: &mut ProjectStore, issue_id: &String) -> (r: Result<(), StoreError>)
    ensures
        final(store)@ == deleted_issue(old(store)@, issue_id@).0,
        match deleted_issue(old(store)@, issue_id@).1 {
            Ok(_) => r is Ok,
            Err(e) => fails_with(r, e),
        },
{
    let mut pending = read_issues_file(store)?;
    let mut archive = read_issues_archive_file(store)?;
    let origin = match named_origin(&pending.issues, issue_id) {
        Some(f) => Some(f),
        None => named_origin(&archive.issues, issue_id),
    };
    discard(&mut pending.issues, issue_id);
    discard(&mut archive.issues, issue_id);
    write_issues_file(store, pending);
    write_issues_archive_file(store, archive);
    if let Some(feedback_id) = origin {
        let mut feedback = read_archived_feedback(store)?;
        prune(&mut feedback, &feedback_id, issue_id);
        write_archived_feedback(store, feedback);
    }
    Ok(())
}

/// The issue that a completed feedback item becomes under the given id:
/// completed, of moderate complexity, with the item's text as its title,
/// the item's priority and times, and a link back to the item.
pub open spec fn issue_from_feedback(feedback: FeedbackItemView, id: Seq<char>) -> IssueView {
    IssueView {
        id,
        original_feedback_id: Some(feedback.id),
        title: feedback.text,
        description: "Migrated from completed feedback: "@ + feedback.text,
        subtasks: Seq::empty(),
        time_estimate: Some("Unknown"@),
        complexity: 3,
        priority: feedback.priority,
        status: IssueStatus::Completed,
        created_at: feedback.created_at,
        completed_at: feedback.completed_at,
        review_notes: None,
        bug_report: None,
        last_user_critique: None,
        implementation_summary: None,
        github_issue_number: None,
        github_issue_url: None,
    }
}

/// Turns a completed feedback item into an issue with the given id.
pub fn convert_feedback(feedback: FeedbackItem, id: String) -> (r: Issue)
    ensures
        r@ == issue_from_feedback(feedback@, id@),
{
    let description = String::from_str("Migrated from completed feedback: ").concat(
        feedback.text.as_str(),
    );
    let issue = Issue {
        id,
        original_feedback_id: Some(feedback.id),
        title: feedback.text,
        description,
        subtasks: Vec::new(),
        time_estimate: Some(String::from_str("Unknown")),
        complexity: default_complexity(),
        priority: feedback.priority,
        status: IssueStatus::Completed,
        created_at: feedback.created_at,
        completed_at: feedback.completed_at,
        review_notes: None,
        bug_report: None,
        last_user_critique: None,
        implementation_summary: None,
        github_issue_number: None,
        github_issue_url: None,
    };
    assert(issue@.subtasks =~= Seq::empty());
    issue
}

/// The feedback items that a migration to issues takes: all of the
/// completed document, then the completed items of the pending one.
pub open spec fn migrating(pending: Seq<FeedbackItemView>, done: Seq<FeedbackItemView>) -> Seq<
    FeedbackItemView,
> {
    done + pending.filter(completed::<FeedbackItem>())
}

/// Whether `issues` are what the feedback `items` become, one for one and
/// in order, each under an id that is a version 4 UUID.
pub open spec fn converted(issues: Seq<IssueView>, items: Seq<FeedbackItemView>) -> bool {
    &&& issues.len() == items.len()
    &&& forall|i: int|
        0 <= i < items.len() ==> {
            &&& is_uuid_v4((#[trigger] issues[i]).id)
            &&& issues[i] == issue_from_feedback(items[i], issues[i].id)
        }
}

/// Turns the completed feedback of a project into issues. The pending
/// issues, the pending feedback and the completed feedback are loaded, in
/// this order; where one cannot be, the store stays as it was and the error
/// is returned. The items that [`migrating`] names become completed issues
/// at the end of the pending issues, each under a fresh random id; the
/// pending feedback keeps its items that are not completed, and the
/// completed feedback becomes empty. The three documents are written, in
/// the order in which they were loaded, and the number of items is
/// returned. Where there is no such item, nothing is written and the number
/// is 0.
pub fn migrate_completed_feedback_to_issues(store: &mut ProjectStore) -> (r: Result<usize, StoreError>)
    ensures
        match old(store)@.pending_issues() {
            Err(e) => fails_with(r, e) && final(store)@ == old(store)@,
            Ok(issues) => match old(store)@.pending_feedback() {
                Err(e) => fails_with(r, e) && final(store)@ == old(store)@,
                Ok(pending) => match old(store)@.completed_feedback() {
                    Err(e) => fails_with(r, e) && final(store)@ == old(store)@,
                    Ok(done) => {
                        let items = migrating(pending, done);
                        &&& r matches Ok(n) && n == items.len()
                        &&& if items.len() == 0 {
                            final(store)@ == old(store)@
                        } else {
                            exists|added: Seq<IssueView>|
                                {
                                    &&& converted(added, items)
                                    &&& final(store)@ == old(store)@.with_pending_issues(
                                        issues + added,
                                    ).with_pending_feedback(
                                        pending.filter(unfinished::<FeedbackItem>()),
                                    ).with_completed_feedback(Seq::empty())
                                }
                        }
                    },
                },
            },
        },
{
    let mut issues = read_issues_file(store)?;
    let pending = read_pending_feedback(store)?;
    let done = read_completed_feedback(store)?;
    let ghost issues_before = issues@;
    let ghost items = migrating(pending@, done@);
    let (still_pending, mut also_completed) = split_done(pending.feedback);
    let mut moving = done.feedback;
    moving.append(&mut also_completed);
    let count = moving.len();
    if count == 0 {
        return Ok(0);
    }
    let ghost mut added: Seq<IssueView> = Seq::empty();
    for feedback in it: moving
        invariant
            items == views(it.seq()),
            added.len() == it.index(),
            issues@ == issues_before + added,
            forall|i: int|
                0 <= i < added.len() ==> {
                    &&& is_uuid_v4((#[trigger] added[i]).id)
                    &&& added[i] == issue_from_feedback(items[i], added[i].id)
                },
    {
        let issue = convert_feedback(feedback, fresh_id());
        proof {
            lemma_views_push(issues.issues@, issue);
            added = added.push(issue@);
        }
        issues.issues.push(issue);
    }
    write_issues_file(store, issues);
    write_pending_feedback(store, FeedbackFile { feedback: still_pending });
    let emptied = FeedbackFile { feedback: Vec::new() };
    assert(emptied@ =~= Seq::empty());
    write_completed_feedback(store, emptied);
    assert(converted(added, items));
    Ok(count)
}

/// What archiving the completed issues leaves. The pending document and
/// the archive are loaded, the pending one first; where one cannot be, the
/// store stays as it was and the error is returned. The completed issues of
/// the pending document move to the end of the archive, in their order, both
/// documents are written, and their number is returned. Where no pending
/// issue is completed, nothing is written and the number is 0.
pub open spec fn archived_completed_issues(s: ProjectStoreView) -> Outcome<nat> {
    match s.pending_issues() {
        Err(e) => (s, Err(e)),
        Ok(pending) => match s.archived_issues() {
            Err(e) => (s, Err(e)),
            Ok(archive) => {
                let moving = pending.filter(completed::<Issue>());
                if moving.len() == 0 {
                    (s, Ok(0))
                } else {
                    (
                        s.with_pending_issues(
                            pending.filter(unfinished::<Issue>()),
                        ).with_archived_issues(archive + moving),
                        Ok(moving.len()),
                    )
                }
            },
        },
    }
}

/// Moves the completed issues of the pending document to the archive and
/// returns how many they were.
pub fn migrate_completed_issues(store: &mut ProjectStore) -> (r: Result<usize, StoreError>)
    ensures
        final(store)@ == archived_completed_issues(old(store)@).0,
        match archived_completed_issues(old(store)@).1 {
            Ok(count) => r matches Ok(n) && n == count,
            Err(e) => fails_with(r, e),
        },
{
    let pending = read_issues_file(store)?;
    let mut archive = read_issues_archive_file(store)?;
    let (still_pending, mut newly_completed) = split_done(pending.issues);
    let count = newly_completed.len();
    if count == 0 {
        return Ok(0);
    }
    proof {
        lemma_views_add(archive.issues@, newly_completed@);
    }
    archive.issues.append(&mut newly_completed);
    write_issues_file(store, IssueFile { issues: still_pending });
    write_issues_archive_file(store, archive);
    Ok(count)
}

} // verus!
