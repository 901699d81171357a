use vibe_hub::commands::feedback::{
    add_feedback, add_feedback_as, delete_feedback, get_archived_feedback, get_feedback,
    migrate_feedback_if_needed, move_feedback_to_archive, read_archived_feedback,
    read_completed_feedback, read_pending_feedback, update_feedback, update_feedback_at,
    write_archived_feedback, write_completed_feedback, write_pending_feedback,
};
use vibe_hub::models::{FeedbackFile, FeedbackItem, FeedbackStatus, NewFeedbackItem, UpdateFeedbackItem};
use vibe_hub::store::{DocumentKind, Lookup, ProjectStore, Slot, StoreError};

fn request(text: &str, priority: u8) -> NewFeedbackItem {
    NewFeedbackItem {
        text: text.to_string(),
        priority,
        status: FeedbackStatus::Pending,
        completed_at: None,
    }
}

fn no_change() -> UpdateFeedbackItem {
    UpdateFeedbackItem {
        text: None,
        priority: None,
        status: None,
        completed_at: None,
        refined_into_issue_ids: None,
        review_notes: None,
    }
}

fn status_change(status: FeedbackStatus) -> UpdateFeedbackItem {
    let mut patch = no_change();
    patch.status = Some(status);
    patch
}

fn item(id: &str, priority: u8, status: FeedbackStatus, created_at: &str) -> FeedbackItem {
    FeedbackItem {
        id: id.to_string(),
        text: format!("text of {}", id),
        priority,
        status,
        created_at: created_at.to_string(),
        completed_at: None,
        refined_into_issue_ids: None,
        review_notes: None,
        github_issue_number: None,
        github_issue_url: None,
    }
}

fn store_with(pending: Vec<FeedbackItem>, completed: Vec<FeedbackItem>) -> ProjectStore {
    let mut store = ProjectStore::new();
    store.feedback = Slot::Present(FeedbackFile { feedback: pending });
    store.feedback_completed = Slot::Present(FeedbackFile { feedback: completed });
    store
}

fn ids(items: &[FeedbackItem]) -> Vec<String> {
    items.iter().map(|i| i.id.clone()).collect()
}

const T1: &str = "2024-01-01T00:00:00+00:00";
const T2: &str = "2024-02-01T00:00:00+00:00";
const T3: &str = "2024-03-01T00:00:00+00:00";

#[test]
fn add_update_delete_scenario() {
    let mut store = ProjectStore::new();
    let added = add_feedback(&mut store, request("Fix bug", 2)).unwrap();
    assert_eq!(added.text, "Fix bug");
    assert_eq!(added.priority, 2);
    assert_eq!(added.status, FeedbackStatus::Pending);
    assert_eq!(added.completed_at, None);
    assert_eq!(store.writes, vec![DocumentKind::Feedback]);

    let listed = get_feedback(&mut store).unwrap();
    assert_eq!(listed, vec![added.clone()]);

    update_feedback(&mut store, &added.id, status_change(FeedbackStatus::Completed)).unwrap();

    let listed = get_feedback(&mut store).unwrap();
    assert_eq!(listed.len(), 1);
    assert_eq!(listed[0].id, added.id);
    assert_eq!(listed[0].text, "Fix bug");
    assert_eq!(listed[0].status, FeedbackStatus::Completed);
    assert!(listed[0].completed_at.is_some());
    assert!(read_pending_feedback(&store).unwrap().feedback.is_empty());
    assert_eq!(read_completed_feedback(&store).unwrap().feedback.len(), 1);

    delete_feedback(&mut store, &added.id).unwrap();
    assert!(get_feedback(&mut store).unwrap().is_empty());
}

#[test]
fn legacy_document_is_split_on_first_listing() {
    let open = item("a", 3, FeedbackStatus::Pending, T1);
    let closed = item("b", 1, FeedbackStatus::Completed, T2);
    let mut store = ProjectStore::new();
    store.feedback = Slot::Present(FeedbackFile { feedback: vec![open.clone(), closed.clone()] });

    let listed = get_feedback(&mut store).unwrap();
    assert_eq!(listed, vec![closed.clone(), open.clone()]);
    assert_eq!(store.feedback, Slot::Present(FeedbackFile { feedback: vec![open] }));
    assert_eq!(store.feedback_completed, Slot::Present(FeedbackFile { feedback: vec![closed] }));
    assert_eq!(store.writes, vec![DocumentKind::Feedback, DocumentKind::FeedbackCompleted]);

    let before = store.writes.clone();
    get_feedback(&mut store).unwrap();
    assert_eq!(store.writes, before);
}

#[test]
fn mutations_split_a_legacy_layout_first() {
    let legacy = || {
        let mut store = ProjectStore::new();
        let mut closed = item("b", 1, FeedbackStatus::Completed, T2);
        closed.completed_at = Some(T2.to_string());
        store.feedback = Slot::Present(FeedbackFile {
            feedback: vec![item("a", 3, FeedbackStatus::Pending, T1), closed],
        });
        store
    };

    let mut store = legacy();
    add_feedback_as(&mut store, request("new", 2), "c".to_string(), T3.to_string()).unwrap();
    assert_eq!(ids(&read_pending_feedback(&store).unwrap().feedback), vec!["a", "c"]);
    assert_eq!(ids(&read_completed_feedback(&store).unwrap().feedback), vec!["b"]);
    assert_eq!(
        store.writes,
        vec![DocumentKind::Feedback, DocumentKind::FeedbackCompleted, DocumentKind::Feedback]
    );

    let mut store = legacy();
    update_feedback_at(&mut store, &"b".to_string(), status_change(FeedbackStatus::Pending), T3.to_string())
        .unwrap();
    let pending = read_pending_feedback(&store).unwrap().feedback;
    assert_eq!(ids(&pending), vec!["a", "b"]);
    assert_eq!(pending[1].completed_at, None);
    assert!(read_completed_feedback(&store).unwrap().feedback.is_empty());

    let mut store = legacy();
    delete_feedback(&mut store, &"a".to_string()).unwrap();
    assert!(read_pending_feedback(&store).unwrap().feedback.is_empty());
    assert_eq!(ids(&read_completed_feedback(&store).unwrap().feedback), vec!["b"]);

    let mut store = legacy();
    assert_eq!(
        move_feedback_to_archive(&mut store, &"b".to_string(), vec![]),
        Err(StoreError::NotFound(Lookup::PendingFeedback))
    );
    assert_eq!(ids(&read_completed_feedback(&store).unwrap().feedback), vec!["b"]);
    assert_eq!(store.writes, vec![DocumentKind::Feedback, DocumentKind::FeedbackCompleted]);
}

#[test]
fn split_leaves_other_layouts_alone() {
    let mut none = ProjectStore::new();
    migrate_feedback_if_needed(&mut none).unwrap();
    assert_eq!(none, ProjectStore::new());

    let mut pending_only = ProjectStore::new();
    pending_only.feedback =
        Slot::Present(FeedbackFile { feedback: vec![item("a", 1, FeedbackStatus::Pending, T1)] });
    migrate_feedback_if_needed(&mut pending_only).unwrap();
    assert_eq!(pending_only.feedback_completed, Slot::Missing);
    assert!(pending_only.writes.is_empty());

    let mut split = store_with(vec![item("a", 1, FeedbackStatus::Completed, T1)], vec![]);
    migrate_feedback_if_needed(&mut split).unwrap();
    assert_eq!(read_pending_feedback(&split).unwrap().feedback.len(), 1);
    assert!(split.writes.is_empty());

    let mut broken = ProjectStore::new();
    broken.feedback = Slot::Malformed("expected value at line 1".to_string());
    assert_eq!(
        migrate_feedback_if_needed(&mut broken),
        Err(StoreError::Parse(DocumentKind::Feedback, "expected value at line 1".to_string()))
    );
    assert!(broken.writes.is_empty());
}

#[test]
fn added_item_is_pending_and_listed_once() {
    let mut store = store_with(
        vec![item("a", 2, FeedbackStatus::Pending, T1)],
        vec![item("b", 2, FeedbackStatus::Completed, T2)],
    );
    let before = get_feedback(&mut store).unwrap();
    let added = add_feedback_as(&mut store, request("New idea", 4), "c".to_string(), T3.to_string())
        .unwrap();
    assert_eq!(
        added,
        FeedbackItem {
            id: "c".to_string(),
            text: "New idea".to_string(),
            priority: 4,
            status: FeedbackStatus::Pending,
            created_at: T3.to_string(),
            completed_at: None,
            refined_into_issue_ids: None,
            review_notes: None,
            github_issue_number: None,
            github_issue_url: None,
        }
    );
    let after = get_feedback(&mut store).unwrap();
    assert_eq!(after.len(), before.len() + 1);
    let matching = after
        .iter()
        .filter(|i| i.text == "New idea" && i.priority == 4 && i.status == FeedbackStatus::Pending)
        .count();
    assert_eq!(matching, 1);
    for old in &before {
        assert!(after.contains(old));
    }
}

#[test]
fn add_ignores_status_and_completion_of_the_request() {
    let mut store = ProjectStore::new();
    let odd = NewFeedbackItem {
        text: "t".to_string(),
        priority: 1,
        status: FeedbackStatus::Completed,
        completed_at: Some(T1.to_string()),
    };
    let added = add_feedback_as(&mut store, odd, "x".to_string(), T2.to_string()).unwrap();
    assert_eq!(added.status, FeedbackStatus::Pending);
    assert_eq!(added.completed_at, None);
}

#[test]
fn fresh_ids_are_version_4_uuids_and_differ() {
    let mut store = ProjectStore::new();
    let a = add_feedback(&mut store, request("a", 1)).unwrap();
    let b = add_feedback(&mut store, request("b", 1)).unwrap();
    assert_ne!(a.id, b.id);
    for id in [&a.id, &b.id] {
        let chars: Vec<char> = id.chars().collect();
        assert_eq!(chars.len(), 36);
        for (i, c) in chars.iter().enumerate() {
            if i == 8 || i == 13 || i == 18 || i == 23 {
                assert_eq!(*c, '-');
            } else {
                assert!(c.is_ascii_digit() || ('a'..='f').contains(c));
            }
        }
        assert_eq!(chars[14], '4');
        assert!(matches!(chars[19], '8' | '9' | 'a' | 'b'));
    }
    assert!(a.created_at.ends_with("+00:00"));
    assert!(a.created_at.len() >= 25);
}

#[test]
fn listing_sorts_by_priority_and_keeps_ties_in_order() {
    let mut store = store_with(
        vec![
            item("open3", 3, FeedbackStatus::Pending, T1),
            item("open1", 1, FeedbackStatus::Pending, T1),
            item("open3b", 3, FeedbackStatus::NeedsReview, T1),
        ],
        vec![item("done1", 1, FeedbackStatus::Completed, T1), item("done3", 3, FeedbackStatus::Completed, T1)],
    );
    let listed = get_feedback(&mut store).unwrap();
    assert_eq!(ids(&listed), vec!["open1", "done1", "open3", "open3b", "done3"]);
    assert!(store.writes.is_empty());
}

#[test]
fn update_applies_only_the_fields_of_the_patch() {
    let mut initial = item("a", 3, FeedbackStatus::Pending, T1);
    initial.review_notes = Some("keep".to_string());
    let mut store = store_with(vec![initial.clone()], vec![]);
    let mut patch = no_change();
    patch.text = Some("changed".to_string());
    patch.priority = Some(1);
    update_feedback_at(&mut store, &"a".to_string(), patch, T3.to_string()).unwrap();
    let mut expected = initial;
    expected.text = "changed".to_string();
    expected.priority = 1;
    assert_eq!(read_pending_feedback(&store).unwrap().feedback, vec![expected]);
    assert_eq!(store.writes, vec![DocumentKind::Feedback, DocumentKind::FeedbackCompleted]);
    assert_eq!(store.feedback_completed, Slot::Present(FeedbackFile { feedback: vec![] }));
}

#[test]
fn completing_moves_the_item_and_stamps_it() {
    let mut store = store_with(
        vec![item("a", 3, FeedbackStatus::Pending, T1), item("b", 2, FeedbackStatus::Pending, T1)],
        vec![item("z", 1, FeedbackStatus::Completed, T1)],
    );
    update_feedback_at(
        &mut store,
        &"a".to_string(),
        status_change(FeedbackStatus::Completed),
        T3.to_string(),
    )
    .unwrap();
    assert_eq!(ids(&read_pending_feedback(&store).unwrap().feedback), vec!["b"]);
    let completed = read_completed_feedback(&store).unwrap().feedback;
    assert_eq!(ids(&completed), vec!["z", "a"]);
    assert_eq!(completed[1].status, FeedbackStatus::Completed);
    assert_eq!(completed[1].completed_at, Some(T3.to_string()));
}

#[test]
fn completing_stamps_the_time_of_the_update_over_an_older_one() {
    let mut reviewed = item("a", 3, FeedbackStatus::NeedsReview, T1);
    reviewed.completed_at = Some(T2.to_string());
    let mut store = store_with(vec![reviewed], vec![]);
    update_feedback_at(
        &mut store,
        &"a".to_string(),
        status_change(FeedbackStatus::Completed),
        T3.to_string(),
    )
    .unwrap();
    let completed = read_completed_feedback(&store).unwrap().feedback;
    assert_eq!(ids(&completed), vec!["a"]);
    assert_eq!(completed[0].completed_at, Some(T3.to_string()));
    assert!(read_pending_feedback(&store).unwrap().feedback.is_empty());
}

#[test]
fn completing_keeps_a_completion_time_of_the_patch() {
    let mut store = store_with(vec![item("a", 3, FeedbackStatus::Pending, T1)], vec![]);
    let mut patch = status_change(FeedbackStatus::Completed);
    patch.completed_at = Some(T2.to_string());
    update_feedback_at(&mut store, &"a".to_string(), patch, T3.to_string()).unwrap();
    let completed = read_completed_feedback(&store).unwrap().feedback;
    assert_eq!(completed[0].completed_at, Some(T2.to_string()));
}

#[test]
fn reopening_moves_the_item_back_and_clears_its_completion_time() {
    let mut done = item("a", 3, FeedbackStatus::Completed, T1);
    done.completed_at = Some(T2.to_string());
    let mut store = store_with(vec![item("b", 2, FeedbackStatus::Pending, T1)], vec![done]);
    let mut patch = status_change(FeedbackStatus::Pending);
    patch.completed_at = Some(T3.to_string());
    update_feedback_at(&mut store, &"a".to_string(), patch, T3.to_string()).unwrap();
    let pending = read_pending_feedback(&store).unwrap().feedback;
    assert_eq!(ids(&pending), vec!["b", "a"]);
    assert_eq!(pending[1].status, FeedbackStatus::Pending);
    assert_eq!(pending[1].completed_at, None);
    assert!(read_completed_feedback(&store).unwrap().feedback.is_empty());
}

#[test]
fn other_status_changes_update_in_place() {
    let mut done = item("a", 3, FeedbackStatus::Completed, T1);
    done.completed_at = Some(T2.to_string());
    let mut store = store_with(vec![item("b", 2, FeedbackStatus::Pending, T1)], vec![done]);
    update_feedback_at(
        &mut store,
        &"a".to_string(),
        status_change(FeedbackStatus::NeedsReview),
        T3.to_string(),
    )
    .unwrap();
    update_feedback_at(
        &mut store,
        &"b".to_string(),
        status_change(FeedbackStatus::NeedsReview),
        T3.to_string(),
    )
    .unwrap();
    let pending = read_pending_feedback(&store).unwrap().feedback;
    let completed = read_completed_feedback(&store).unwrap().feedback;
    assert_eq!(ids(&pending), vec!["b"]);
    assert_eq!(pending[0].status, FeedbackStatus::NeedsReview);
    assert_eq!(ids(&completed), vec!["a"]);
    assert_eq!(completed[0].status, FeedbackStatus::NeedsReview);
    assert_eq!(completed[0].completed_at, Some(T2.to_string()));
}

#[test]
fn update_of_an_unknown_id_is_not_found_and_writes_nothing() {
    let mut store = store_with(vec![item("a", 3, FeedbackStatus::Pending, T1)], vec![]);
    let before = store_with(vec![item("a", 3, FeedbackStatus::Pending, T1)], vec![]);
    let result = update_feedback(&mut store, &"nope".to_string(), no_change());
    assert_eq!(result, Err(StoreError::NotFound(Lookup::Feedback)));
    assert_eq!(store, before);
    assert_eq!(result.unwrap_err().message(), "Feedback item not found");
}

#[test]
fn delete_is_idempotent() {
    let mut store = store_with(
        vec![item("a", 3, FeedbackStatus::Pending, T1), item("b", 2, FeedbackStatus::Pending, T1)],
        vec![item("a", 1, FeedbackStatus::Completed, T1)],
    );
    delete_feedback(&mut store, &"a".to_string()).unwrap();
    let pending = store.feedback.clone_for_test();
    let completed = store.feedback_completed.clone_for_test();
    assert_eq!(ids(&pending), vec!["b"]);
    assert!(completed.is_empty());
    delete_feedback(&mut store, &"a".to_string()).unwrap();
    assert_eq!(store.feedback.clone_for_test(), pending);
    assert_eq!(store.feedback_completed.clone_for_test(), completed);
    assert_eq!(
        store.writes,
        vec![
            DocumentKind::Feedback,
            DocumentKind::FeedbackCompleted,
            DocumentKind::Feedback,
            DocumentKind::FeedbackCompleted
        ]
    );
    delete_feedback(&mut store, &"never there".to_string()).unwrap();
    assert_eq!(store.feedback.clone_for_test(), pending);
}

trait CloneForTest {
    fn clone_for_test(&self) -> Vec<FeedbackItem>;
}

impl CloneForTest for Slot<FeedbackFile> {
    fn clone_for_test(&self) -> Vec<FeedbackItem> {
        match self {
            Slot::Present(file) => file.feedback.clone(),
            _ => panic!("the document is not present"),
        }
    }
}

#[test]
fn archive_moves_the_item_as_refined() {
    let mut store = store_with(
        vec![item("a", 3, FeedbackStatus::Pending, T1), item("b", 2, FeedbackStatus::Pending, T1)],
        vec![],
    );
    store.feedback_archive =
        Slot::Present(FeedbackFile { feedback: vec![item("old", 1, FeedbackStatus::Refined, T1)] });
    move_feedback_to_archive(&mut store, &"a".to_string(), vec!["i1".to_string(), "i2".to_string()])
        .unwrap();
    assert_eq!(ids(&read_pending_feedback(&store).unwrap().feedback), vec!["b"]);
    let archive = read_archived_feedback(&store).unwrap().feedback;
    assert_eq!(ids(&archive), vec!["old", "a"]);
    assert_eq!(archive[1].status, FeedbackStatus::Refined);
    assert_eq!(archive[1].refined_into_issue_ids, Some(vec!["i1".to_string(), "i2".to_string()]));
    assert_eq!(archive[1].text, "text of a");
    assert_eq!(store.writes, vec![DocumentKind::Feedback, DocumentKind::FeedbackArchive]);
}

#[test]
fn archive_applies_to_pending_items_only() {
    let mut store = store_with(vec![], vec![item("a", 3, FeedbackStatus::Completed, T1)]);
    let result = move_feedback_to_archive(&mut store, &"a".to_string(), vec![]);
    assert_eq!(result, Err(StoreError::NotFound(Lookup::PendingFeedback)));
    assert!(store.writes.is_empty());
    assert_eq!(
        result.unwrap_err().message(),
        "Feedback item not found in pending feedback"
    );
}

#[test]
fn archive_is_listed_newest_first() {
    let mut store = ProjectStore::new();
    write_archived_feedback(
        &mut store,
        FeedbackFile {
            feedback: vec![
                item("jan", 1, FeedbackStatus::Refined, T1),
                item("mar", 1, FeedbackStatus::Refined, T3),
                item("feb", 1, FeedbackStatus::Refined, T2),
                item("mar2", 1, FeedbackStatus::Refined, T3),
            ],
        },
    );
    let listed = get_archived_feedback(&store).unwrap();
    assert_eq!(ids(&listed), vec!["mar", "mar2", "feb", "jan"]);
}

#[test]
fn documents_that_cannot_be_loaded_fail_the_commands_that_read_them() {
    let mut store = ProjectStore::new();
    store.feedback_completed = Slot::Unreadable("permission denied".to_string());
    let error = StoreError::Read(DocumentKind::FeedbackCompleted, "permission denied".to_string());
    assert_eq!(error.message(), "Failed to read feedback file: permission denied");
    assert_eq!(get_feedback(&mut store), Err(StoreError::Read(DocumentKind::FeedbackCompleted, "permission denied".to_string())));
    assert_eq!(delete_feedback(&mut store, &"a".to_string()), Err(StoreError::Read(DocumentKind::FeedbackCompleted, "permission denied".to_string())));
    assert!(store.writes.is_empty());
    assert!(add_feedback(&mut store, request("still works", 1)).is_ok());

    let mut archive_broken = ProjectStore::new();
    archive_broken.feedback_archive = Slot::Malformed("eof".to_string());
    let parse = get_archived_feedback(&archive_broken).unwrap_err();
    assert_eq!(parse.message(), "Failed to parse feedback archive file: eof");
    assert_eq!(
        StoreError::Write(DocumentKind::IssuesArchive, "disk full".to_string()).message(),
        "Failed to write issues archive file: disk full"
    );
}

#[test]
fn writes_replace_documents_and_are_recorded_in_order() {
    let mut store = ProjectStore::new();
    write_completed_feedback(&mut store, FeedbackFile::default());
    write_pending_feedback(
        &mut store,
        FeedbackFile { feedback: vec![item("a", 1, FeedbackStatus::Pending, T1)] },
    );
    assert_eq!(store.writes, vec![DocumentKind::FeedbackCompleted, DocumentKind::Feedback]);
    assert_eq!(store.take_writes(), vec![DocumentKind::FeedbackCompleted, DocumentKind::Feedback]);
    assert!(store.writes.is_empty());
    assert_eq!(ids(&read_pending_feedback(&store).unwrap().feedback), vec!["a"]);
    assert_eq!(DocumentKind::Feedback.file_name(), "feedback.json");
    assert_eq!(DocumentKind::FeedbackCompleted.file_name(), "feedback-completed.json");
    assert_eq!(DocumentKind::FeedbackArchive.file_name(), "feedback-archive.json");
    assert_eq!(DocumentKind::Issues.file_name(), "issues.json");
    assert_eq!(DocumentKind::IssuesArchive.file_name(), "issues-archive.json");
}

#[test]
fn status_labels_round_trip() {
    for status in [
        FeedbackStatus::Pending,
        FeedbackStatus::NeedsReview,
        FeedbackStatus::Refined,
        FeedbackStatus::Completed,
    ] {
        assert_eq!(FeedbackStatus::parse(status.as_str()), Some(status));
    }
    assert_eq!(FeedbackStatus::NeedsReview.as_str(), "needs-review");
    assert_eq!(FeedbackStatus::parse("done"), None);
    assert_eq!(FeedbackStatus::parse("Pending"), None);
}
