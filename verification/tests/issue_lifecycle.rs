use vibe_hub::commands::feedback::{read_archived_feedback, read_completed_feedback, read_pending_feedback};
use vibe_hub::commands::issues::{
    add_issue, add_issue_as, convert_feedback, delete_issue, get_issues,
    migrate_completed_feedback_to_issues, migrate_completed_issues, read_issues_archive_file,
    read_issues_file, update_issue, update_issue_at, write_issues_archive_file, write_issues_file,
};
use vibe_hub::models::issue::default_complexity;
use vibe_hub::models::{
    FeedbackFile, FeedbackItem, FeedbackStatus, Issue, IssueFile, IssueStatus, NewIssue, UpdateIssue,
};
use vibe_hub::store::{DocumentKind, Lookup, ProjectStore, Slot, StoreError};

const T1: &str = "2024-01-01T00:00:00+00:00";
const T2: &str = "2024-02-01T00:00:00+00:00";
const T3: &str = "2024-03-01T00:00:00+00:00";

fn issue(id: &str, priority: u8, status: IssueStatus) -> Issue {
    Issue {
        id: id.to_string(),
        original_feedback_id: None,
        title: format!("title of {}", id),
        description: String::new(),
        subtasks: vec![],
        time_estimate: None,
        complexity: 3,
        priority,
        status,
        created_at: T1.to_string(),
        completed_at: None,
        review_notes: None,
        bug_report: None,
        last_user_critique: None,
        implementation_summary: None,
        github_issue_number: None,
        github_issue_url: None,
    }
}

fn feedback_item(id: &str, priority: u8, status: FeedbackStatus) -> FeedbackItem {
    FeedbackItem {
        id: id.to_string(),
        text: format!("text of {}", id),
        priority,
        status,
        created_at: T1.to_string(),
        completed_at: None,
        refined_into_issue_ids: None,
        review_notes: None,
        github_issue_number: None,
        github_issue_url: None,
    }
}

fn no_issue_change() -> UpdateIssue {
    UpdateIssue {
        title: None,
        description: None,
        subtasks: None,
        time_estimate: None,
        complexity: None,
        priority: None,
        status: None,
        completed_at: None,
        review_notes: None,
        bug_report: None,
        last_user_critique: None,
        implementation_summary: None,
        github_issue_number: None,
        github_issue_url: None,
    }
}

fn issue_status_change(status: IssueStatus) -> UpdateIssue {
    let mut patch = no_issue_change();
    patch.status = Some(status);
    patch
}

fn issue_store_with(pending: Vec<Issue>, archive: Vec<Issue>) -> ProjectStore {
    let mut store = ProjectStore::new();
    store.issues = Slot::Present(IssueFile { issues: pending });
    store.issues_archive = Slot::Present(IssueFile { issues: archive });
    store
}

fn ids_of(issues: &[Issue]) -> Vec<String> {
    issues.iter().map(|i| i.id.clone()).collect()
}

fn pending(store: &ProjectStore) -> Vec<Issue> {
    read_issues_file(store).unwrap().issues
}

fn archived(store: &ProjectStore) -> Vec<Issue> {
    read_issues_archive_file(store).unwrap().issues
}

#[test]
fn added_issue_holds_what_the_request_holds() {
    let mut store = ProjectStore::new();
    let request = NewIssue {
        original_feedback_id: Some("f1".to_string()),
        title: "Title".to_string(),
        description: "Description".to_string(),
        subtasks: vec!["one".to_string(), "two".to_string()],
        time_estimate: Some("2h".to_string()),
        complexity: 4,
        priority: 2,
        status: IssueStatus::InProgress,
        github_issue_number: Some(17),
        github_issue_url: Some("https://github.com/o/r/issues/17".to_string()),
    };
    let added = add_issue_as(&mut store, request, "i1".to_string(), T2.to_string()).unwrap();
    assert_eq!(
        added,
        Issue {
            id: "i1".to_string(),
            original_feedback_id: Some("f1".to_string()),
            title: "Title".to_string(),
            description: "Description".to_string(),
            subtasks: vec!["one".to_string(), "two".to_string()],
            time_estimate: Some("2h".to_string()),
            complexity: 4,
            priority: 2,
            status: IssueStatus::InProgress,
            created_at: T2.to_string(),
            completed_at: None,
            review_notes: None,
            bug_report: None,
            last_user_critique: None,
            implementation_summary: None,
            github_issue_number: Some(17),
            github_issue_url: Some("https://github.com/o/r/issues/17".to_string()),
        }
    );
    assert_eq!(pending(&store), vec![added]);
    assert_eq!(store.writes, vec![DocumentKind::Issues]);
    assert_eq!(store.issues_archive, Slot::Missing);
}

#[test]
fn add_issue_draws_an_id_and_a_time() {
    let mut store = ProjectStore::new();
    let request = NewIssue {
        original_feedback_id: None,
        title: "t".to_string(),
        description: "d".to_string(),
        subtasks: vec![],
        time_estimate: None,
        complexity: default_complexity(),
        priority: 1,
        status: IssueStatus::Pending,
        github_issue_number: None,
        github_issue_url: None,
    };
    let added = add_issue(&mut store, request).unwrap();
    assert_eq!(added.id.len(), 36);
    assert!(added.created_at.ends_with("+00:00"));
    assert_eq!(added.complexity, 3);
    assert_eq!(get_issues(&store).unwrap(), vec![added]);
}

#[test]
fn issues_are_listed_by_priority_across_both_documents() {
    let store = issue_store_with(
        vec![issue("open2", 2, IssueStatus::Pending), issue("open1", 1, IssueStatus::InProgress)],
        vec![issue("done1", 1, IssueStatus::Completed), issue("done5", 5, IssueStatus::Completed)],
    );
    assert_eq!(ids_of(&get_issues(&store).unwrap()), vec!["open1", "done1", "open2", "done5"]);
}

#[test]
fn completing_an_issue_archives_and_stamps_it() {
    let mut store = issue_store_with(
        vec![issue("a", 1, IssueStatus::Pending), issue("b", 2, IssueStatus::Pending)],
        vec![issue("z", 1, IssueStatus::Completed)],
    );
    update_issue_at(&mut store, &"a".to_string(), issue_status_change(IssueStatus::Completed), T3.to_string())
        .unwrap();
    assert_eq!(ids_of(&pending(&store)), vec!["b"]);
    let archive = archived(&store);
    assert_eq!(ids_of(&archive), vec!["z", "a"]);
    assert_eq!(archive[1].status, IssueStatus::Completed);
    assert_eq!(archive[1].completed_at, Some(T3.to_string()));
    assert_eq!(store.writes, vec![DocumentKind::Issues, DocumentKind::IssuesArchive]);
}

#[test]
fn completing_keeps_a_completion_time_that_is_there() {
    let mut stamped = issue("a", 1, IssueStatus::ForReview);
    stamped.completed_at = Some(T2.to_string());
    let mut store = issue_store_with(vec![stamped], vec![]);
    update_issue_at(&mut store, &"a".to_string(), issue_status_change(IssueStatus::Completed), T3.to_string())
        .unwrap();
    assert_eq!(archived(&store)[0].completed_at, Some(T2.to_string()));
}

#[test]
fn reopening_an_issue_moves_it_back_and_clears_its_completion_time() {
    let mut done = issue("a", 1, IssueStatus::Completed);
    done.completed_at = Some(T2.to_string());
    let mut store = issue_store_with(vec![issue("b", 2, IssueStatus::Pending)], vec![done]);
    update_issue_at(&mut store, &"a".to_string(), issue_status_change(IssueStatus::NeedsRework), T3.to_string())
        .unwrap();
    let open = pending(&store);
    assert_eq!(ids_of(&open), vec!["b", "a"]);
    assert_eq!(open[1].status, IssueStatus::NeedsRework);
    assert_eq!(open[1].completed_at, None);
    assert!(archived(&store).is_empty());
}

#[test]
fn a_status_other_than_completed_clears_the_completion_time_in_place() {
    let mut odd = issue("a", 1, IssueStatus::InProgress);
    odd.completed_at = Some(T2.to_string());
    let mut store = issue_store_with(vec![odd], vec![]);
    update_issue_at(&mut store, &"a".to_string(), issue_status_change(IssueStatus::ForReview), T3.to_string())
        .unwrap();
    let open = pending(&store);
    assert_eq!(open[0].status, IssueStatus::ForReview);
    assert_eq!(open[0].completed_at, None);
    assert!(archived(&store).is_empty());
}

#[test]
fn a_completion_time_in_the_patch_wins() {
    let mut store = issue_store_with(vec![issue("a", 1, IssueStatus::Pending)], vec![]);
    let mut patch = issue_status_change(IssueStatus::InProgress);
    patch.completed_at = Some(T2.to_string());
    update_issue_at(&mut store, &"a".to_string(), patch, T3.to_string()).unwrap();
    assert_eq!(pending(&store)[0].completed_at, Some(T2.to_string()));
}

#[test]
fn issue_patch_is_partial() {
    let mut initial = issue("a", 3, IssueStatus::Pending);
    initial.time_estimate = Some("1d".to_string());
    initial.bug_report = Some("crash".to_string());
    let mut store = issue_store_with(vec![initial.clone()], vec![]);
    let mut patch = no_issue_change();
    patch.title = Some("New title".to_string());
    patch.subtasks = Some(vec!["x".to_string()]);
    patch.complexity = Some(5);
    patch.implementation_summary = Some("done it".to_string());
    patch.github_issue_number = Some(4);
    update_issue(&mut store, &"a".to_string(), patch).unwrap();
    let mut expected = initial;
    expected.title = "New title".to_string();
    expected.subtasks = vec!["x".to_string()];
    expected.complexity = 5;
    expected.implementation_summary = Some("done it".to_string());
    expected.github_issue_number = Some(4);
    assert_eq!(pending(&store), vec![expected]);
}

#[test]
fn update_of_an_unknown_issue_is_not_found() {
    let mut store = issue_store_with(vec![issue("a", 1, IssueStatus::Pending)], vec![]);
    let result = update_issue(&mut store, &"nope".to_string(), no_issue_change());
    assert_eq!(result, Err(StoreError::NotFound(Lookup::Issue)));
    assert!(store.writes.is_empty());
    assert_eq!(result.unwrap_err().message(), "Issue not found");
}

#[test]
fn deleting_an_issue_prunes_the_link_of_its_feedback() {
    let mut derived = issue("i2", 1, IssueStatus::Pending);
    derived.original_feedback_id = Some("f1".to_string());
    let mut store = issue_store_with(vec![issue("i1", 1, IssueStatus::Pending), derived], vec![]);
    let mut refined = feedback_item("f1", 2, FeedbackStatus::Refined);
    refined.refined_into_issue_ids =
        Some(vec!["i1".to_string(), "i2".to_string(), "i3".to_string(), "i2".to_string()]);
    let mut other = feedback_item("f2", 2, FeedbackStatus::Refined);
    other.refined_into_issue_ids = Some(vec!["i2".to_string()]);
    store.feedback_archive =
        Slot::Present(FeedbackFile { feedback: vec![other.clone(), refined.clone()] });

    delete_issue(&mut store, &"i2".to_string()).unwrap();

    assert_eq!(ids_of(&pending(&store)), vec!["i1"]);
    let archive = read_archived_feedback(&store).unwrap().feedback;
    assert_eq!(archive[0], other);
    assert_eq!(archive[1].refined_into_issue_ids, Some(vec!["i1".to_string(), "i3".to_string()]));
    assert_eq!(archive[1].id, "f1");
    assert_eq!(
        store.writes,
        vec![DocumentKind::Issues, DocumentKind::IssuesArchive, DocumentKind::FeedbackArchive]
    );
}

#[test]
fn deleting_an_issue_without_origin_leaves_the_feedback_archive_alone() {
    let mut store = issue_store_with(vec![issue("i1", 1, IssueStatus::Pending)], vec![]);
    store.feedback_archive = Slot::Malformed("broken".to_string());
    delete_issue(&mut store, &"i1".to_string()).unwrap();
    assert!(pending(&store).is_empty());
    assert_eq!(store.writes, vec![DocumentKind::Issues, DocumentKind::IssuesArchive]);
    delete_issue(&mut store, &"i1".to_string()).unwrap();
    assert!(pending(&store).is_empty());
}

#[test]
fn deleting_reports_a_broken_feedback_archive_after_the_issue_is_gone() {
    let mut derived = issue("i1", 1, IssueStatus::Completed);
    derived.original_feedback_id = Some("f1".to_string());
    let mut store = issue_store_with(vec![], vec![derived]);
    store.feedback_archive = Slot::Unreadable("denied".to_string());
    let result = delete_issue(&mut store, &"i1".to_string());
    assert_eq!(
        result,
        Err(StoreError::Read(DocumentKind::FeedbackArchive, "denied".to_string()))
    );
    assert!(archived(&store).is_empty());
    assert_eq!(store.writes, vec![DocumentKind::Issues, DocumentKind::IssuesArchive]);
}

#[test]
fn completed_feedback_becomes_completed_issues() {
    let mut store = issue_store_with(vec![issue("old", 1, IssueStatus::Pending)], vec![]);
    let mut lingering = feedback_item("f2", 4, FeedbackStatus::Completed);
    lingering.completed_at = Some(T2.to_string());
    store.feedback = Slot::Present(FeedbackFile {
        feedback: vec![feedback_item("f1", 2, FeedbackStatus::Pending), lingering],
    });
    store.feedback_completed =
        Slot::Present(FeedbackFile { feedback: vec![feedback_item("f3", 1, FeedbackStatus::Completed)] });

    let count = migrate_completed_feedback_to_issues(&mut store).unwrap();

    assert_eq!(count, 2);
    let issues = pending(&store);
    assert_eq!(issues.len(), 3);
    assert_eq!(issues[0].id, "old");
    assert_eq!(issues[1].original_feedback_id, Some("f3".to_string()));
    assert_eq!(issues[2].original_feedback_id, Some("f2".to_string()));
    for made in &issues[1..] {
        assert_eq!(made.status, IssueStatus::Completed);
        assert_eq!(made.complexity, 3);
        assert_eq!(made.id.len(), 36);
        assert_eq!(made.time_estimate, Some("Unknown".to_string()));
        assert!(made.subtasks.is_empty());
    }
    assert_ne!(issues[1].id, issues[2].id);
    assert_eq!(issues[2].title, "text of f2");
    assert_eq!(issues[2].description, "Migrated from completed feedback: text of f2");
    assert_eq!(issues[2].priority, 4);
    assert_eq!(issues[2].created_at, T1);
    assert_eq!(issues[2].completed_at, Some(T2.to_string()));
    let left = read_pending_feedback(&store).unwrap().feedback;
    assert_eq!(left.len(), 1);
    assert_eq!(left[0].id, "f1");
    assert!(read_completed_feedback(&store).unwrap().feedback.is_empty());
    assert_eq!(
        store.writes,
        vec![DocumentKind::Issues, DocumentKind::Feedback, DocumentKind::FeedbackCompleted]
    );
}

#[test]
fn migration_without_completed_feedback_writes_nothing() {
    let mut store = ProjectStore::new();
    store.feedback =
        Slot::Present(FeedbackFile { feedback: vec![feedback_item("f1", 2, FeedbackStatus::Pending)] });
    assert_eq!(migrate_completed_feedback_to_issues(&mut store), Ok(0));
    assert!(store.writes.is_empty());
    assert_eq!(store.issues, Slot::Missing);
    assert_eq!(store.feedback_completed, Slot::Missing);
}

#[test]
fn a_feedback_item_converts_to_an_issue() {
    let mut item = feedback_item("f1", 5, FeedbackStatus::Completed);
    item.completed_at = Some(T3.to_string());
    let made = convert_feedback(item, "new-id".to_string());
    assert_eq!(made.id, "new-id");
    assert_eq!(made.original_feedback_id, Some("f1".to_string()));
    assert_eq!(made.title, "text of f1");
    assert_eq!(made.description, "Migrated from completed feedback: text of f1");
    assert_eq!(made.status, IssueStatus::Completed);
    assert_eq!(made.priority, 5);
    assert_eq!(made.completed_at, Some(T3.to_string()));
    assert_eq!(made.github_issue_number, None);
}

#[test]
fn completed_issues_move_to_the_archive() {
    let mut store = issue_store_with(
        vec![
            issue("a", 1, IssueStatus::Completed),
            issue("b", 2, IssueStatus::Pending),
            issue("c", 3, IssueStatus::Completed),
        ],
        vec![issue("z", 1, IssueStatus::Completed)],
    );
    assert_eq!(migrate_completed_issues(&mut store), Ok(2));
    assert_eq!(ids_of(&pending(&store)), vec!["b"]);
    assert_eq!(ids_of(&archived(&store)), vec!["z", "a", "c"]);
    assert_eq!(store.writes, vec![DocumentKind::Issues, DocumentKind::IssuesArchive]);

    store.take_writes();
    assert_eq!(migrate_completed_issues(&mut store), Ok(0));
    assert!(store.writes.is_empty());
}

#[test]
fn issue_documents_are_written_whole() {
    let mut store = ProjectStore::new();
    write_issues_file(&mut store, IssueFile { issues: vec![issue("a", 1, IssueStatus::Pending)] });
    write_issues_archive_file(&mut store, IssueFile::default());
    assert_eq!(ids_of(&pending(&store)), vec!["a"]);
    assert!(archived(&store).is_empty());
    assert_eq!(store.writes, vec![DocumentKind::Issues, DocumentKind::IssuesArchive]);
    store.issues = Slot::Malformed("bad".to_string());
    assert_eq!(
        get_issues(&store),
        Err(StoreError::Parse(DocumentKind::Issues, "bad".to_string()))
    );
    assert_eq!(
        StoreError::Parse(DocumentKind::Issues, "bad".to_string()).message(),
        "Failed to parse issues file: bad"
    );
}

#[test]
fn issue_status_labels_round_trip() {
    for status in [
        IssueStatus::Pending,
        IssueStatus::InProgress,
        IssueStatus::ForReview,
        IssueStatus::NeedsRework,
        IssueStatus::Completed,
    ] {
        assert_eq!(IssueStatus::parse(status.as_str()), Some(status));
    }
    assert_eq!(IssueStatus::ForReview.as_str(), "for-review");
    assert_eq!(IssueStatus::parse("refined"), None);
}
