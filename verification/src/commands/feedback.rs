//! The life of a feedback item: created as pending, patched, moved between
//! the pending and the completed document as its status changes, archived
//! once it was refined into issues, or deleted.

use vstd::prelude::*;
use vstd::utf8::encode_utf8;
use crate::clock::{current_timestamp, is_utc_timestamp};
use crate::ids::{fresh_id, is_uuid_v4};
use crate::models::feedback::{
    patched, FeedbackFile, FeedbackItem, FeedbackItemView, FeedbackStatus, NewFeedbackItem,
    NewFeedbackItemView, UpdateFeedbackItem, UpdateFeedbackItemView,
};
use crate::records::{
    any_done, completed, discard, find, lemma_filter_dropped_removal, lemma_views_add, lemma_views_push,
    lemma_views_remove, split_done, unfinished, with_id, without_id, ByPriority,
};
use crate::sequences::{first_where, relation, stable_sort, stable_sorted, views, Precedence};
use crate::store::{
    agrees, fails_with, DocumentKind, Lookup, Outcome, ProjectStore, ProjectStoreView, Slot,
    StoreError, StoreErrorView,
};
use crate::text::{lemma_lex_le_total, lemma_lex_le_transitive, text_before_eq, text_le, texts};

verus! {

/// Loads the pending feedback: the document, or the empty one where the
/// project has none yet.
pub fn read_pending_feedback(store: &ProjectStore) -> (r: Result<FeedbackFile, StoreError>)
    ensures
        agrees(r, store@.pending_feedback()),
{
    store.feedback.load(DocumentKind::Feedback)
}

/// Loads the completed feedback: the document, or the empty one where the
/// project has none yet.
pub fn read_completed_feedback(store: &ProjectStore) -> (r: Result<FeedbackFile, StoreError>)
    ensures
        agrees(r, store@.completed_feedback()),
{
    store.feedback_completed.load(DocumentKind::FeedbackCompleted)
}

/// Loads the archived feedback: the document, or the empty one where the
/// project has none yet.
pub fn read_archived_feedback(store: &ProjectStore) -> (r: Result<FeedbackFile, StoreError>)
    ensures
        agrees(r, store@.archived_feedback()),
{
    store.feedback_archive.load(DocumentKind::FeedbackArchive)
}

/// Replaces the pending feedback and records the write.
pub fn write_pending_feedback(store: &mut ProjectStore, feedback_file: FeedbackFile)
    ensures
        final(store)@ == old(store)@.with_pending_feedback(feedback_file@),
{
    store.feedback = Slot::Present(feedback_file);
    store.writes.push(DocumentKind::Feedback);
}

/// Replaces the completed feedback and records the write.
pub fn write_completed_feedback(store: &mut ProjectStore, feedback_file: FeedbackFile)
    ensures
        final(store)@ == old(store)@.with_completed_feedback(feedback_file@),
{
    store.feedback_completed = Slot::Present(feedback_file);
    store.writes.push(DocumentKind::FeedbackCompleted);
}

/// Replaces the archived feedback and records the write.
pub fn write_archived_feedback(store: &mut ProjectStore, feedback_file: FeedbackFile)
    ensures
        final(store)@ == old(store)@.with_archived_feedback(feedback_file@),
{
    store.feedback_archive = Slot::Present(feedback_file);
    store.writes.push(DocumentKind::FeedbackArchive);
}

/// Whether any item of a document is completed.
pub open spec fn holds_completed(items: Seq<FeedbackItemView>) -> bool {
    exists|j: int| 0 <= j < items.len() && (#[trigger] items[j]).status == FeedbackStatus::Completed
}

/// What splitting a legacy layout leaves. A project is in the legacy layout
/// where its pending document exists, its completed document does not, and
/// the pending document holds a completed item. Then the completed items
/// move to a new completed document and the others stay, each part in its
/// old order, and both documents are written. Any other project is left as
/// it is. The split fails, and changes nothing, only where the pending
/// document has to be looked into and cannot be loaded.
pub open spec fn split_legacy(s: ProjectStoreView) -> Outcome<()> {
    if !s.feedback.is_on_disk() || s.feedback_completed.is_on_disk() {
        (s, Ok(()))
    } else {
        match s.pending_feedback() {
            Err(e) => (s, Err(e)),
            Ok(pending) => if holds_completed(pending) {
                (
                    s.with_pending_feedback(
                        pending.filter(unfinished::<FeedbackItem>()),
                    ).with_completed_feedback(pending.filter(completed::<FeedbackItem>())),
                    Ok(()),
                )
            } else {
                (s, Ok(()))
            },
        }
    }
}

/// Splits a pending document of the legacy layout, which held completed
/// items too, into a pending and a completed document.
pub fn migrate_feedback_if_needed(store: &mut ProjectStore) -> (r: Result<(), StoreError>)
    ensures
        final(store)@ == split_legacy(old(store)@).0,
        match split_legacy(old(store)@).1 {
            Ok(_) => r is Ok,
            Err(e) => fails_with(r, e),
        },
{
    if !store.feedback.on_disk() || store.feedback_completed.on_disk() {
        return Ok(());
    }
    let pending = read_pending_feedback(store)?;
    if !any_done(&pending.feedback) {
        return Ok(());
    }
    let (open, closed) = split_done(pending.feedback);
    write_pending_feedback(store, FeedbackFile { feedback: open });
    write_completed_feedback(store, FeedbackFile { feedback: closed });
    Ok(())
}

/// The pending items followed by the completed ones, or the error of the
/// first of the two documents that cannot be loaded.
pub open spec fn all_feedback(s: ProjectStoreView) -> Result<Seq<FeedbackItemView>, StoreErrorView> {
    match s.pending_feedback() {
        Err(e) => Err(e),
        Ok(pending) => match s.completed_feedback() {
            Err(e) => Err(e),
            Ok(done) => Ok(pending + done),
        },
    }
}

/// Lists the pending and the completed feedback by priority, most urgent
/// first; items of one priority stand as they do in the pending document
/// followed by the completed one. A legacy layout is split first.
pub fn get_feedback(store: &mut ProjectStore) -> (r: Result<Vec<FeedbackItem>, StoreError>)
    ensures
        final(store)@ == split_legacy(old(store)@).0,
        match split_legacy(old(store)@).1 {
            Err(e) => fails_with(r, e),
            Ok(_) => match all_feedback(final(store)@) {
                Err(e) => fails_with(r, e),
                Ok(all) => r matches Ok(v) && stable_sorted(
                    views(v@),
                    all,
                    relation::<FeedbackItem, ByPriority>(),
                ),
            },
        },
{
    migrate_feedback_if_needed(store)?;
    let pending = read_pending_feedback(store)?;
    let done = read_completed_feedback(store)?;
    let mut all = pending.feedback;
    let mut rest = done.feedback;
    proof {
        lemma_views_add(all@, rest@);
    }
    all.append(&mut rest);
    stable_sort::<FeedbackItem, ByPriority>(&mut all);
    Ok(all)
}

/// The item that a request creates under the given id and creation time:
/// pending, with the text and the priority of the request and nothing else.
pub open spec fn new_feedback(
    request: NewFeedbackItemView,
    id: Seq<char>,
    created_at: Seq<char>,
) -> FeedbackItemView {
    FeedbackItemView {
        id,
        text: request.text,
        priority: request.priority,
        status: FeedbackStatus::Pending,
        created_at,
        completed_at: None,
        refined_into_issue_ids: None,
        review_notes: None,
        github_issue_number: None,
        github_issue_url: None,
    }
}

/// What appending an item leaves: the pending document with the item at
/// its end, written; or, where that document cannot be loaded, the store as
/// it was and the error.
pub open spec fn appended_feedback(s: ProjectStoreView, item: FeedbackItemView) -> Outcome<
    FeedbackItemView,
> {
    match s.pending_feedback() {
        Err(e) => (s, Err(e)),
        Ok(pending) => (s.with_pending_feedback(pending.push(item)), Ok(item)),
    }
}

/// What adding an item leaves: a legacy layout is split, and then the item
/// is appended as [`appended_feedback`] says. Where the split fails, its
/// error is returned.
pub open spec fn added_feedback(s: ProjectStoreView, item: FeedbackItemView) -> Outcome<
    FeedbackItemView,
> {
    match split_legacy(s).1 {
        Err(e) => (split_legacy(s).0, Err(e)),
        Ok(_) => appended_feedback(split_legacy(s).0, item),
    }
}

/// Adds a pending item with the given id and creation time to the pending
/// document, and returns a copy of it.
pub fn add_feedback_as(
    store: &mut ProjectStore,
    feedback: NewFeedbackItem,
    id: String,
    created_at: String,
) -> (r: Result<FeedbackItem, StoreError>)
    ensures
        final(store)@ == added_feedback(
            old(store)@,
            new_feedback(feedback@, id@, created_at@),
        ).0,
        agrees(r, added_feedback(old(store)@, new_feedback(feedback@, id@, created_at@)).1),
{
    migrate_feedback_if_needed(store)?;
    let mut pending = read_pending_feedback(store)?;
    let item = FeedbackItem {
        id,
        text: feedback.text,
        priority: feedback.priority,
        status: FeedbackStatus::Pending,
        created_at,
        completed_at: None,
        refined_into_issue_ids: None,
        review_notes: None,
        github_issue_number: None,
        github_issue_url: None,
    };
    let copy = item.clone();
    proof {
        lemma_views_push(pending.feedback@, item);
    }
    pending.feedback.push(item);
    write_pending_feedback(store, pending);
    Ok(copy)
}

/// Adds a pending item to the pending document, under a fresh random id and
/// with the current time as its creation time, and returns a copy of it.
///
/// The id and the time come from outside, so the contract holds for
/// whichever came: the command does what [`add_feedback_as`] does under
/// some id that is a version 4 UUID and some time that is a UTC timestamp.
pub fn add_feedback(store: &mut ProjectStore, feedback: NewFeedbackItem) -> (r: Result<
    FeedbackItem,
    StoreError,
>)
    ensures
        exists|id: Seq<char>, created_at: Seq<char>|
            {
                &&& is_uuid_v4(id)
                &&& is_utc_timestamp(created_at)
                &&& final(store)@ == added_feedback(
                    old(store)@,
                    #[trigger] new_feedback(feedback@, id, created_at),
                ).0
                &&& agrees(r, added_feedback(old(store)@, new_feedback(feedback@, id, created_at)).1)
            },
{
    let id = fresh_id();
    let created_at = current_timestamp();
    let r = add_feedback_as(store, feedback, id, created_at);
    r
}

/// The completion time of an item that a patch completes at the time
/// `now`: the time that the patch holds, else `now`. A time that the item
/// had before the patch plays no part.
pub open spec fn completion_time(patch: UpdateFeedbackItemView, now: Seq<char>) -> Seq<char> {
    match patch.completed_at {
        Some(c) => c,
        None => now,
    }
}

/// An item that a patch completes at the time `now`: the item with the
/// completion time that [`completion_time`] gives.
pub open spec fn stamped(
    item: FeedbackItemView,
    patch: UpdateFeedbackItemView,
    now: Seq<char>,
) -> FeedbackItemView {
    FeedbackItemView { completed_at: Some(completion_time(patch, now)), ..item }
}

/// An item without a completion time.
pub open spec fn reopened(item: FeedbackItemView) -> FeedbackItemView {
    FeedbackItemView { completed_at: None, ..item }
}

/// The pending and the completed document after the item at index `i` of
/// the pending document was patched. Where the patch changes its status to
/// completed, the item leaves the pending document, together with any other
/// item of its id, and stands at the end of the completed document with the
/// completion time of the patch or, where the patch holds none, the time
/// `now`. Else it is patched where it stands.
pub open spec fn update_in_pending(
    pending: Seq<FeedbackItemView>,
    done: Seq<FeedbackItemView>,
    i: int,
    patch: UpdateFeedbackItemView,
    now: Seq<char>,
) -> (Seq<FeedbackItemView>, Seq<FeedbackItemView>) {
    let item = patched(pending[i], patch);
    if item.status != pending[i].status && item.status == FeedbackStatus::Completed {
        (pending.filter(without_id::<FeedbackItem>(item.id)), done.push(stamped(item, patch, now)))
    } else {
        (pending.update(i, item), done)
    }
}

/// The pending and the completed document after the item at index `i` of
/// the completed document was patched. Where the patch changes its status
/// to pending, the item leaves the completed document, together with any
/// other item of its id, and stands at the end of the pending document
/// without a completion time. Else it is patched where it stands.
pub open spec fn update_in_completed(
    pending: Seq<FeedbackItemView>,
    done: Seq<FeedbackItemView>,
    i: int,
    patch: UpdateFeedbackItemView,
) -> (Seq<FeedbackItemView>, Seq<FeedbackItemView>) {
    let item = patched(done[i], patch);
    if item.status != done[i].status && item.status == FeedbackStatus::Pending {
        (pending.push(reopened(item)), done.filter(without_id::<FeedbackItem>(item.id)))
    } else {
        (pending, done.update(i, item))
    }
}

/// The pending and the completed document after the first item with the
/// given id was patched: the first in the pending document, or else the
/// first in the completed one. `None` where neither holds such an item.
pub open spec fn update_documents(
    pending: Seq<FeedbackItemView>,
    done: Seq<FeedbackItemView>,
    id: Seq<char>,
    patch: UpdateFeedbackItemView,
    now: Seq<char>,
) -> Option<(Seq<FeedbackItemView>, Seq<FeedbackItemView>)> {
    match first_where(pending, with_id::<FeedbackItem>(id)) {
        Some(i) => Some(update_in_pending(pending, done, i, patch, now)),
        None => match first_where(done, with_id::<FeedbackItem>(id)) {
            Some(i) => Some(update_in_completed(pending, done, i, patch)),
            None => None,
        },
    }
}

/// What patching an item leaves. Both documents are loaded, the pending one
/// first; where one cannot be, the store stays as it was and the error is
/// returned. Where no item has the id, the store stays as it was and the
/// item is reported as not found. Else both documents are written, the
/// pending one first, as [`update_documents`] gives them.
pub open spec fn patched_feedback(
    s: ProjectStoreView,
    id: Seq<char>,
    patch: UpdateFeedbackItemView,
    now: Seq<char>,
) -> Outcome<()> {
    match s.pending_feedback() {
        Err(e) => (s, Err(e)),
        Ok(pending) => match s.completed_feedback() {
            Err(e) => (s, Err(e)),
            Ok(done) => match update_documents(pending, done, id, patch, now) {
                Some((p, d)) => (s.with_pending_feedback(p).with_completed_feedback(d), Ok(())),
                None => (s, Err(StoreErrorView::NotFound(Lookup::Feedback))),
            },
        },
    }
}

/// What updating an item leaves: a legacy layout is split, and then the
/// item is patched as [`patched_feedback`] says. Where the split fails, its
/// error is returned.
pub open spec fn updated_feedback(
    s: ProjectStoreView,
    id: Seq<char>,
    patch: UpdateFeedbackItemView,
    now: Seq<char>,
) -> Outcome<()> {
    match split_legacy(s).1 {
        Err(e) => (split_legacy(s).0, Err(e)),
        Ok(_) => patched_feedback(split_legacy(s).0, id, patch, now),
    }
}

/// Patches the feedback item with the given id, at the time `now`, and
/// moves it between the pending and the completed document where its status
/// asks for it.
pub fn update_feedback_at(
    store: &mut ProjectStore,
    feedback_id: &String,
    updates: UpdateFeedbackItem,
    now: String,
) -> (r: Result<(), StoreError>)
    ensures
        final(store)@ == updated_feedback(old(store)@, feedback_id@, updates@, now@).0,
        match updated_feedback(old(store)@, feedback_id@, updates@, now@).1 {
            Ok(_) => r is Ok,
            Err(e) => fails_with(r, e),
        },
{
    migrate_feedback_if_needed(store)?;
    let mut pending = read_pending_feedback(store)?;
    let mut done = read_completed_feedback(store)?;
    let ghost pending_before = pending@;
    let ghost done_before = done@;
    match find(&pending.feedback, feedback_id) {
        Some(i) => {
            let mut item = pending.feedback.remove(i);
            let was = item.status;
            let time_supplied = updates.completed_at.is_some();
            item.apply(updates);
            proof {
                assert(views(pending.feedback@) =~= pending_before.remove(i as int));
            }
            if item.status != was && item.status == FeedbackStatus::Completed {
                if !time_supplied {
                    item.completed_at = Some(now);
                }
                discard(&mut pending.feedback, feedback_id);
                proof {
                    lemma_filter_dropped_removal(
                        pending_before,
                        i as int,
                        without_id::<FeedbackItem>(feedback_id@),
                    );
                    lemma_views_push(done.feedback@, item);
                }
                done.feedback.push(item);
            } else {
                proof {
                    assert(views(pending.feedback@.insert(i as int, item)) =~= pending_before.update(
                        i as int,
                        item@,
                    ));
                }
                pending.feedback.insert(i, item);
            }
        },
        None => match find(&done.feedback, feedback_id) {
            Some(i) => {
                let mut item = done.feedback.remove(i);
                let was = item.status;
                item.apply(updates);
                proof {
                    assert(views(done.feedback@) =~= done_before.remove(i as int));
                }
                if item.status != was && item.status == FeedbackStatus::Pending {
                    item.completed_at = None;
                    discard(&mut done.feedback, feedback_id);
                    proof {
                        lemma_filter_dropped_removal(
                            done_before,
                            i as int,
                            without_id::<FeedbackItem>(feedback_id@),
                        );
                        lemma_views_push(pending.feedback@, item);
                    }
                    pending.feedback.push(item);
                } else {
                    proof {
                        assert(views(done.feedback@.insert(i as int, item)) =~= done_before.update(
                            i as int,
                            item@,
                        ));
                    }
                    done.feedback.insert(i, item);
                }
            },
            None => {
                return Err(StoreError::NotFound(Lookup::Feedback));
            },
        },
    }
    write_pending_feedback(store, pending);
    write_completed_feedback(store, done);
    Ok(())
}

/// Patches the feedback item with the given id and moves it between the
/// pending and the completed document where its status asks for it. A
/// pending item that becomes completed gets the current time as its
/// completion time, unless the patch holds one.
///
/// The time comes from outside, so the contract holds for whichever came:
/// the command does what [`update_feedback_at`] does at some UTC timestamp.
pub fn update_feedback(store: &mut ProjectStore, feedback_id: &String, updates: UpdateFeedbackItem) -> (r:
    Result<(), StoreError>)
    ensures
        exists|now: Seq<char>|
            {
                &&& is_utc_timestamp(now)
                &&& final(store)@ == (#[trigger] updated_feedback(
                    old(store)@,
                    feedback_id@,
                    updates@,
                    now,
                )).0
                &&& match updated_feedback(old(store)@, feedback_id@, updates@, now).1 {
                    Ok(_) => r is Ok,
                    Err(e) => fails_with(r, e),
                }
            },
{
    let now = current_timestamp();
    update_feedback_at(store, feedback_id, updates, now)
}

/// What removing an item leaves: both documents without the items of the
/// given id, written, the pending one first. Where one of the two cannot be
/// loaded, the store stays as it was and the error is returned.
pub open spec fn removed_feedback(s: ProjectStoreView, id: Seq<char>) -> Outcome<()> {
    match s.pending_feedback() {
        Err(e) => (s, Err(e)),
        Ok(pending) => match s.completed_feedback() {
            Err(e) => (s, Err(e)),
            Ok(done) => (
                s.with_pending_feedback(
                    pending.filter(without_id::<FeedbackItem>(id)),
                ).with_completed_feedback(done.filter(without_id::<FeedbackItem>(id))),
                Ok(()),
            ),
        },
    }
}

/// What deleting an item leaves: a legacy layout is split, and then the
/// item is removed as [`removed_feedback`] says. Where the split fails, its
/// error is returned.
pub open spec fn deleted_feedback(s: ProjectStoreView, id: Seq<char>) -> Outcome<()> {
    match split_legacy(s).1 {
        Err(e) => (split_legacy(s).0, Err(e)),
        Ok(_) => removed_feedback(split_legacy(s).0, id),
    }
}

/// Deletes the feedback item with the given id from the pending and the
/// completed document. An id that no item has is no error.
pub fn delete_feedback(store: &mut ProjectStore, feedback_id: &String) -> (r: Result<(), StoreError>)
    ensures
        final(store)@ == deleted_feedback(old(store)@, feedback_id@).0,
        match deleted_feedback(old(store)@, feedback_id@).1 {
            Ok(_) => r is Ok,
            Err(e) => fails_with(r, e),
        },
{
    migrate_feedback_if_needed(store)?;
    let mut pending = read_pending_feedback(store)?;
    let mut done = read_completed_feedback(store)?;
    discard(&mut pending.feedback, feedback_id);
    discard(&mut done.feedback, feedback_id);
    write_pending_feedback(store, pending);
    write_completed_feedback(store, done);
    Ok(())
}

/// Sorting by creation time, newest first: an item may stand before another
/// whose creation time, as text, does not stand behind its own.
pub struct NewestFirst;

impl Precedence<FeedbackItem> for NewestFirst {
    open spec fn before(a: FeedbackItemView, b: FeedbackItemView) -> bool {
        text_le(b.created_at, a.created_at)
    }

    proof fn before_is_total(a: FeedbackItemView, b: FeedbackItemView) {
        lemma_lex_le_total(encode_utf8(a.created_at), encode_utf8(b.created_at));
    }

    proof fn before_is_transitive(a: FeedbackItemView, b: FeedbackItemView, c: FeedbackItemView) {
        lemma_lex_le_transitive(
            encode_utf8(c.created_at),
            encode_utf8(b.created_at),
            encode_utf8(a.created_at),
        );
    }

    fn stands_before(a: &FeedbackItem, b: &FeedbackItem) -> (r: bool) {
        text_before_eq(b.created_at.as_str(), a.created_at.as_str())
    }
}

/// Lists the archived feedback by creation time, newest first; items of one
/// creation time stand as they do in the archive.
pub fn get_archived_feedback(store: &ProjectStore) -> (r: Result<Vec<FeedbackItem>, StoreError>)
    ensures
        match store@.archived_feedback() {
            Err(e) => fails_with(r, e),
            Ok(all) => r matches Ok(v) && stable_sorted(
                views(v@),
                all,
                relation::<FeedbackItem, NewestFirst>(),
            ),
        },
{
    let archive = read_archived_feedback(store)?;
    let mut archived = archive.feedback;
    stable_sort::<FeedbackItem, NewestFirst>(&mut archived);
    Ok(archived)
}

/// An item as the archive holds it: refined, with the ids of the issues it
/// was refined into.
pub open spec fn refined(item: FeedbackItemView, issue_ids: Seq<Seq<char>>) -> FeedbackItemView {
    FeedbackItemView {
        status: FeedbackStatus::Refined,
        refined_into_issue_ids: Some(issue_ids),
        ..item
    }
}

/// What refining an item leaves. The pending document and the archive are
/// loaded, the pending one first; where one cannot be, the store stays as it
/// was and the error is returned. Where the pending document holds no item
/// of the id, the store stays as it was and the item is reported as not
/// found. Else the first such item leaves the pending document and stands,
/// refined, at the end of the archive, and both are written.
pub open spec fn refined_feedback(
    s: ProjectStoreView,
    id: Seq<char>,
    issue_ids: Seq<Seq<char>>,
) -> Outcome<()> {
    match s.pending_feedback() {
        Err(e) => (s, Err(e)),
        Ok(pending) => match s.archived_feedback() {
            Err(e) => (s, Err(e)),
            Ok(archive) => match first_where(pending, with_id::<FeedbackItem>(id)) {
                None => (s, Err(StoreErrorView::NotFound(Lookup::PendingFeedback))),
                Some(i) => (
                    s.with_pending_feedback(pending.remove(i)).with_archived_feedback(
                        archive.push(refined(pending[i], issue_ids)),
                    ),
                    Ok(()),
                ),
            },
        },
    }
}

/// What archiving an item leaves: a legacy layout is split, and then the
/// item is refined as [`refined_feedback`] says. Where the split fails, its
/// error is returned.
pub open spec fn archived_feedback(
    s: ProjectStoreView,
    id: Seq<char>,
    issue_ids: Seq<Seq<char>>,
) -> Outcome<()> {
    match split_legacy(s).1 {
        Err(e) => (split_legacy(s).0, Err(e)),
        Ok(_) => refined_feedback(split_legacy(s).0, id, issue_ids),
    }
}

/// Moves the pending feedback item with the given id to the archive, as
/// refined into the given issues.
pub fn move_feedback_to_archive(
    store: &mut ProjectStore,
    feedback_id: &String,
    refined_into_issue_ids: Vec<String>,
) -> (r: Result<(), StoreError>)
    ensures
        final(store)@ == archived_feedback(
            old(store)@,
            feedback_id@,
            texts(refined_into_issue_ids@),
        ).0,
        match archived_feedback(old(store)@, feedback_id@, texts(refined_into_issue_ids@)).1 {
            Ok(_) => r is Ok,
            Err(e) => fails_with(r, e),
        },
{
    migrate_feedback_if_needed(store)?;
    let mut pending = read_pending_feedback(store)?;
    let mut archive = read_archived_feedback(store)?;
    match find(&pending.feedback, feedback_id) {
        None => Err(StoreError::NotFound(Lookup::PendingFeedback)),
        Some(i) => {
            proof {
                lemma_views_remove(pending.feedback@, i as int);
            }
            let mut item = pending.feedback.remove(i);
            item.refined_into_issue_ids = Some(refined_into_issue_ids);
            item.status = FeedbackStatus::Refined;
            proof {
                lemma_views_push(archive.feedback@, item);
            }
            archive.feedback.push(item);
            write_pending_feedback(store, pending);
            write_archived_feedback(store, archive);
            Ok(())
        },
    }
}

} // verus!
