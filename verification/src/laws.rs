//! What holds of the commands taken together. Each law is stated over the
//! definitions that the contracts of the commands use, and proved.

use vstd::prelude::*;
use crate::commands::feedback::{
    added_feedback, all_feedback, archived_feedback, deleted_feedback, holds_completed, new_feedback,
    refined, reopened, split_legacy, stamped, updated_feedback,
};
use crate::commands::issues::{converted, deleted_issue, migrating, origin_of, unlinked};
use crate::models::feedback::{
    patched, FeedbackItem, FeedbackItemView, FeedbackStatus, NewFeedbackItemView,
    UpdateFeedbackItemView,
};
use crate::models::issue::{Issue, IssueStatus, IssueView};
use crate::records::{completed, unfinished, with_id, without_id, ByPriority};
use crate::sequences::{
    first_where, lemma_filter_idempotent, lemma_filter_len_of_same_contents, lemma_filter_parts,
    lemma_first_where, lemma_stable_sort_is_unique, relation, stable_sorted,
};
use crate::store::{DocumentKind, ProjectStoreView, StoreErrorView};
use crate::text::other_than;

verus! {

/// Whether `listed` is a list of the feedback of `s`: the pending and the
/// completed items, after a legacy layout was split, sorted by priority
/// with ties in their order.
pub open spec fn lists_feedback(s: ProjectStoreView, listed: Seq<FeedbackItemView>) -> bool {
    &&& split_legacy(s).1 is Ok
    &&& all_feedback(split_legacy(s).0) matches Ok(all) && stable_sorted(
        listed,
        all,
        relation::<FeedbackItem, ByPriority>(),
    )
}

/// The feedback of a project has one list: two lists of one store are
/// equal.
pub proof fn law_feedback_has_one_list(
    s: ProjectStoreView,
    first: Seq<FeedbackItemView>,
    second: Seq<FeedbackItemView>,
)
    requires
        lists_feedback(s, first),
        lists_feedback(s, second),
    ensures
        first == second,
{
    lemma_stable_sort_is_unique(
        first,
        second,
        all_feedback(split_legacy(s).0)->Ok_0,
        relation::<FeedbackItem, ByPriority>(),
    );
}

/// A legacy layout is split once: after a split that succeeded, a second
/// split succeeds and changes nothing.
pub proof fn law_split_happens_once(s: ProjectStoreView)
    requires
        split_legacy(s).1 is Ok,
    ensures
        split_legacy(split_legacy(s).0) == (split_legacy(s).0, Ok::<(), StoreErrorView>(())),
{
}

/// The pending items with the text and the priority of a request.
pub open spec fn as_requested(request: NewFeedbackItemView) -> spec_fn(FeedbackItemView) -> bool {
    |i: FeedbackItemView|
        i.text == request.text && i.priority == request.priority && i.status
            == FeedbackStatus::Pending
}

/// Splitting a legacy layout changes where items stand, not which items
/// there are.
pub proof fn law_split_keeps_contents(s: ProjectStoreView)
    requires
        split_legacy(s).1 is Ok,
        all_feedback(s) is Ok,
    ensures
        all_feedback(split_legacy(s).0) is Ok,
        all_feedback(split_legacy(s).0)->Ok_0.to_multiset() == all_feedback(s)->Ok_0.to_multiset(),
{
    let pending = s.pending_feedback()->Ok_0;
    if s.feedback.is_on_disk() && !s.feedback_completed.is_on_disk() && holds_completed(pending) {
        let open = pending.filter(unfinished::<FeedbackItem>());
        let closed = pending.filter(completed::<FeedbackItem>());
        lemma_filter_parts(pending, completed::<FeedbackItem>(), unfinished::<FeedbackItem>());
        vstd::seq_lib::lemma_multiset_commutative(open, closed);
    }
}

/// Adding an item and then listing the feedback gives what a list before
/// the addition holds and the new item once more. So the list holds one
/// more pending item with the text and the priority of the request than
/// before: exactly one where it held none.
pub proof fn law_added_item_is_listed(
    s: ProjectStoreView,
    request: NewFeedbackItemView,
    id: Seq<char>,
    created_at: Seq<char>,
    before: Seq<FeedbackItemView>,
    after: Seq<FeedbackItemView>,
)
    requires
        lists_feedback(s, before),
        lists_feedback(added_feedback(s, new_feedback(request, id, created_at)).0, after),
    ensures
        added_feedback(s, new_feedback(request, id, created_at)).1 is Ok,
        after.to_multiset() == before.to_multiset().insert(new_feedback(request, id, created_at)),
        after.filter(as_requested(request)).len() == before.filter(as_requested(request)).len() + 1,
        before.filter(as_requested(request)).len() == 0 ==> after.filter(
            as_requested(request),
        ).len() == 1,
{
    broadcast use vstd::seq_lib::group_to_multiset_ensures;

    let item = new_feedback(request, id, created_at);
    let split = split_legacy(s).0;
    let pending = split.pending_feedback()->Ok_0;
    let done = split.completed_feedback()->Ok_0;
    vstd::seq_lib::lemma_multiset_commutative(pending.push(item), done);
    vstd::seq_lib::lemma_multiset_commutative(pending, done);
    assert((pending.push(item) + done).to_multiset() =~= (pending + done).to_multiset().insert(item));
    let f = as_requested(request);
    lemma_filter_len_of_same_contents(after, before.push(item), f);
    before.lemma_filter_push(item, f);
}

/// An item of the pending document whose status a patch changes to
/// completed is gone from the pending document after the update, and stands
/// at the end of the completed document, completed and with a completion
/// time: the time of the patch, else the time of the update, whatever time
/// the item had before. The documents are those that the update finds once
/// a legacy layout is split.
pub proof fn law_completed_item_moves(
    s: ProjectStoreView,
    id: Seq<char>,
    patch: UpdateFeedbackItemView,
    now: Seq<char>,
)
    requires
        split_legacy(s).1 is Ok,
        split_legacy(s).0.pending_feedback() is Ok,
        split_legacy(s).0.completed_feedback() is Ok,
        first_where(split_legacy(s).0.pending_feedback()->Ok_0, with_id::<FeedbackItem>(id)) is Some,
        patch.status == Some(FeedbackStatus::Completed),
        ({
            let pending = split_legacy(s).0.pending_feedback()->Ok_0;
            pending[first_where(pending, with_id::<FeedbackItem>(id))->Some_0].status
                != FeedbackStatus::Completed
        }),
    ensures
        updated_feedback(s, id, patch, now).1 is Ok,
        ({
            let pending = split_legacy(s).0.pending_feedback()->Ok_0;
            let done = split_legacy(s).0.completed_feedback()->Ok_0;
            let item = pending[first_where(pending, with_id::<FeedbackItem>(id))->Some_0];
            let after = updated_feedback(s, id, patch, now).0;
            &&& after.pending_feedback() matches Ok(p) && forall|j: int|
                0 <= j < p.len() ==> (#[trigger] p[j]).id != id
            &&& after.completed_feedback() matches Ok(d) && {
                &&& d == done.push(stamped(patched(item, patch), patch, now))
                &&& d.last().id == id
                &&& d.last().status == FeedbackStatus::Completed
                &&& d.last().completed_at == Some(
                    match patch.completed_at {
                        Some(c) => c,
                        None => now,
                    },
                )
            }
        }),
{
    let pending = split_legacy(s).0.pending_feedback()->Ok_0;
    lemma_first_where(pending, with_id::<FeedbackItem>(id));
}

/// An item of the completed document whose status a patch changes to
/// pending is gone from the completed document after the update, and stands
/// at the end of the pending document, pending and without a completion
/// time, whatever time it had and whatever time the patch holds. The
/// documents are those that the update finds once a legacy layout is split.
pub proof fn law_reopened_item_has_no_completion_time(
    s: ProjectStoreView,
    id: Seq<char>,
    patch: UpdateFeedbackItemView,
    now: Seq<char>,
)
    requires
        split_legacy(s).1 is Ok,
        split_legacy(s).0.pending_feedback() is Ok,
        split_legacy(s).0.completed_feedback() is Ok,
        first_where(split_legacy(s).0.pending_feedback()->Ok_0, with_id::<FeedbackItem>(id)) is None,
        first_where(split_legacy(s).0.completed_feedback()->Ok_0, with_id::<FeedbackItem>(id)) is Some,
        patch.status == Some(FeedbackStatus::Pending),
        ({
            let done = split_legacy(s).0.completed_feedback()->Ok_0;
            done[first_where(done, with_id::<FeedbackItem>(id))->Some_0].status
                != FeedbackStatus::Pending
        }),
    ensures
        updated_feedback(s, id, patch, now).1 is Ok,
        ({
            let pending = split_legacy(s).0.pending_feedback()->Ok_0;
            let done = split_legacy(s).0.completed_feedback()->Ok_0;
            let item = done[first_where(done, with_id::<FeedbackItem>(id))->Some_0];
            let after = updated_feedback(s, id, patch, now).0;
            &&& after.completed_feedback() matches Ok(d) && forall|j: int|
                0 <= j < d.len() ==> (#[trigger] d[j]).id != id
            &&& after.pending_feedback() matches Ok(p) && {
                &&& p == pending.push(reopened(patched(item, patch)))
                &&& p.last().id == id
                &&& p.last().status == FeedbackStatus::Pending
                &&& p.last().completed_at is None
            }
        }),
{
    let done = split_legacy(s).0.completed_feedback()->Ok_0;
    lemma_first_where(done, with_id::<FeedbackItem>(id));
}

/// Deleting an item a second time succeeds and changes no document: it
/// writes the pending and the completed document again as they are.
pub proof fn law_delete_is_idempotent(s: ProjectStoreView, id: Seq<char>)
    requires
        deleted_feedback(s, id).1 is Ok,
    ensures
        deleted_feedback(deleted_feedback(s, id).0, id).1 is Ok,
        deleted_feedback(deleted_feedback(s, id).0, id).0 == (ProjectStoreView {
            writes: deleted_feedback(s, id).0.writes.push(DocumentKind::Feedback).push(
                DocumentKind::FeedbackCompleted,
            ),
            ..deleted_feedback(s, id).0
        }),
{
    let pending = split_legacy(s).0.pending_feedback()->Ok_0;
    let done = split_legacy(s).0.completed_feedback()->Ok_0;
    lemma_filter_idempotent(pending, without_id::<FeedbackItem>(id));
    lemma_filter_idempotent(done, without_id::<FeedbackItem>(id));
}

/// Deleting an issue a second time succeeds and changes no document: it
/// writes the pending issues and the archive again as they are, and leaves
/// the feedback archive alone.
pub proof fn law_delete_issue_is_idempotent(s: ProjectStoreView, id: Seq<char>)
    requires
        deleted_issue(s, id).1 is Ok,
    ensures
        deleted_issue(deleted_issue(s, id).0, id).1 is Ok,
        deleted_issue(deleted_issue(s, id).0, id).0 == (ProjectStoreView {
            writes: deleted_issue(s, id).0.writes.push(DocumentKind::Issues).push(
                DocumentKind::IssuesArchive,
            ),
            ..deleted_issue(s, id).0
        }),
{
    let pending = s.pending_issues()->Ok_0;
    let archive = s.archived_issues()->Ok_0;
    let open_after = pending.filter(without_id::<Issue>(id));
    let archive_after = archive.filter(without_id::<Issue>(id));
    lemma_filter_idempotent(pending, without_id::<Issue>(id));
    lemma_filter_idempotent(archive, without_id::<Issue>(id));
    lemma_first_where(open_after, with_id::<Issue>(id));
    lemma_first_where(archive_after, with_id::<Issue>(id));
}

/// Archiving a pending item takes the first item of its id out of the
/// pending document and puts it at the end of the archive, refined and with
/// exactly the issue ids that were supplied. Every other field of the item
/// and every other item stay as they were. The documents are those that the
/// command finds once a legacy layout is split.
pub proof fn law_archived_item_is_refined(
    s: ProjectStoreView,
    id: Seq<char>,
    issue_ids: Seq<Seq<char>>,
)
    requires
        split_legacy(s).1 is Ok,
        split_legacy(s).0.pending_feedback() is Ok,
        split_legacy(s).0.archived_feedback() is Ok,
        first_where(split_legacy(s).0.pending_feedback()->Ok_0, with_id::<FeedbackItem>(id)) is Some,
    ensures
        archived_feedback(s, id, issue_ids).1 is Ok,
        ({
            let pending = split_legacy(s).0.pending_feedback()->Ok_0;
            let archive = split_legacy(s).0.archived_feedback()->Ok_0;
            let i = first_where(pending, with_id::<FeedbackItem>(id))->Some_0;
            let after = archived_feedback(s, id, issue_ids).0;
            &&& 0 <= i < pending.len()
            &&& pending[i].id == id
            &&& after.pending_feedback() == Ok::<Seq<FeedbackItemView>, StoreErrorView>(
                pending.remove(i),
            )
            &&& after.archived_feedback() matches Ok(a) && {
                &&& a == archive.push(refined(pending[i], issue_ids))
                &&& a.last().id == id
                &&& a.last().status == FeedbackStatus::Refined
                &&& a.last().refined_into_issue_ids == Some(issue_ids)
            }
        }),
{
    lemma_first_where(split_legacy(s).0.pending_feedback()->Ok_0, with_id::<FeedbackItem>(id));
}

/// Deleting an issue that came from an archived feedback item removes the
/// id of the issue from the links of that item: the links to other issues
/// stay, in their order, and no other item of the archive changes.
pub proof fn law_deleted_issue_is_unlinked(s: ProjectStoreView, id: Seq<char>)
    requires
        s.pending_issues() is Ok,
        s.archived_issues() is Ok,
        s.archived_feedback() is Ok,
        origin_of(s.pending_issues()->Ok_0, s.archived_issues()->Ok_0, id) is Some,
        first_where(
            s.archived_feedback()->Ok_0,
            with_id::<FeedbackItem>(
                origin_of(s.pending_issues()->Ok_0, s.archived_issues()->Ok_0, id)->Some_0,
            ),
        ) is Some,
    ensures
        deleted_issue(s, id).1 is Ok,
        ({
            let feedback_id = origin_of(s.pending_issues()->Ok_0, s.archived_issues()->Ok_0, id)->Some_0;
            let archive = s.archived_feedback()->Ok_0;
            let k = first_where(archive, with_id::<FeedbackItem>(feedback_id))->Some_0;
            let after = deleted_issue(s, id).0.archived_feedback();
            &&& 0 <= k < archive.len()
            &&& archive[k].id == feedback_id
            &&& after matches Ok(a) && {
                &&& a.len() == archive.len()
                &&& forall|j: int| 0 <= j < a.len() && j != k ==> a[j] == archive[j]
                &&& a[k] == unlinked(archive[k], id)
                &&& match archive[k].refined_into_issue_ids {
                    Some(ids) => a[k].refined_into_issue_ids == Some(ids.filter(other_than(id)))
                        && !ids.filter(other_than(id)).contains(id),
                    None => a[k].refined_into_issue_ids is None,
                }
            }
        }),
{
    let feedback_id = origin_of(s.pending_issues()->Ok_0, s.archived_issues()->Ok_0, id)->Some_0;
    let archive = s.archived_feedback()->Ok_0;
    lemma_first_where(archive, with_id::<FeedbackItem>(feedback_id));
    let k = first_where(archive, with_id::<FeedbackItem>(feedback_id))->Some_0;
    if let Some(ids) = archive[k].refined_into_issue_ids {
        lemma_filter_idempotent(ids, other_than(id));
    }
}

/// Turning the completed feedback into issues takes as many items as the
/// completed document holds and the pending document holds completed ones,
/// and makes one issue of each: completed, and linked to its item. After it
/// neither feedback document holds a completed item.
pub proof fn law_migration_converts_all_completed(
    pending: Seq<FeedbackItemView>,
    done: Seq<FeedbackItemView>,
    added: Seq<IssueView>,
)
    requires
        converted(added, migrating(pending, done)),
    ensures
        added.len() == done.len() + pending.filter(completed::<FeedbackItem>()).len(),
        forall|i: int|
            0 <= i < added.len() ==> {
                &&& (#[trigger] added[i]).status == IssueStatus::Completed
                &&& added[i].original_feedback_id == Some(migrating(pending, done)[i].id)
            },
        !holds_completed(pending.filter(unfinished::<FeedbackItem>())),
        !holds_completed(Seq::<FeedbackItemView>::empty()),
{
}

} // verus!
