//! Links between a project and its repository on GitHub: reading the owner
//! and the repository out of a remote URL, normalising the URL that version
//! control reports, deciding whether issues may be synchronised, and
//! importing the open issues of the repository as pending feedback.

use vstd::prelude::*;
use vstd::string::StringExecFns;
use crate::chars::{
    char_views, contains, lines, lines_of, lowercase, lowercased, occurs_in, replace_all, replaced_all,
    split, split_by, starts_with, strip_prefixes, strip_suffixes, text_of, to_chars, to_text, trim,
    trimmed, without_prefixes, without_suffixes,
};
use crate::clock::{current_timestamp, is_utc_timestamp};
use crate::commands::feedback::{read_archived_feedback, read_pending_feedback, write_pending_feedback};
use crate::commands::issues::{read_issues_archive_file, read_issues_file};
use crate::ids::{fresh_id, is_uuid_v4};
use crate::models::feedback::{FeedbackFile, FeedbackItem, FeedbackItemView, FeedbackStatus};
use crate::models::issue::{Issue, IssueFile, IssueView};
use crate::models::settings::{Settings, SettingsView};
use crate::sequences::views;
use crate::store::{fails_with, ProjectStore, ProjectStoreView, StoreError, StoreErrorView};
use crate::text::opt_text;

verus! {

/// The start of a repository URL over HTTPS.
pub open spec fn https_prefix() -> Seq<char> {
    "https://github.com/"@
}

/// The start of a repository URL over SSH.
pub open spec fn ssh_prefix() -> Seq<char> {
    "git@github.com:"@
}

/// The path of an HTTPS URL: what follows the prefix, without `.git` and
/// then without slashes at its end.
pub open spec fn https_path(url: Seq<char>) -> Seq<char> {
    without_suffixes(without_suffixes(without_prefixes(url, https_prefix()), ".git"@), "/"@)
}

/// The path of an SSH URL: what follows the prefix, without `.git` at its
/// end.
pub open spec fn ssh_path(url: Seq<char>) -> Seq<char> {
    without_suffixes(without_prefixes(url, ssh_prefix()), ".git"@)
}

/// The first two of the parts of a path, where it has two.
pub open spec fn first_two(parts: Seq<Seq<char>>) -> Option<(Seq<char>, Seq<char>)> {
    if parts.len() >= 2 {
        Some((parts[0], parts[1]))
    } else {
        None
    }
}

/// The owner and the repository that a GitHub URL without white space
/// around it names. The URL starts with the HTTPS or the SSH prefix, and its
/// path holds a slash: the owner is what stands before the first slash, the
/// repository what stands between the first and the second, or up to the
/// end. Any other text names none.
pub open spec fn owner_and_repo_in(u: Seq<char>) -> Option<(Seq<char>, Seq<char>)> {
    let by_https = if https_prefix().is_prefix_of(u) {
        first_two(split_by(https_path(u), '/'))
    } else {
        None
    };
    match by_https {
        Some(pair) => Some(pair),
        None => if ssh_prefix().is_prefix_of(u) {
            first_two(split_by(ssh_path(u), '/'))
        } else {
            None
        },
    }
}

/// The owner and the repository that a GitHub URL names: those that it
/// names once the white space around it is taken away.
pub open spec fn owner_and_repo(url: Seq<char>) -> Option<(Seq<char>, Seq<char>)> {
    owner_and_repo_in(trimmed(url))
}

/// The first two parts of a path as texts, where it has two.
fn first_two_texts(path: &Vec<char>) -> (r: Option<(String, String)>)
    ensures
        match first_two(split_by(path@, '/')) {
            Some((a, b)) => r matches Some((x, y)) && x@ == a && y@ == b,
            None => r is None,
        },
{
    let parts = split(path, '/');
    if parts.len() >= 2 {
        let owner = to_text(&parts[0], 0, parts[0].len());
        let repo = to_text(&parts[1], 0, parts[1].len());
        Some((owner, repo))
    } else {
        None
    }
}

/// Reads the owner and the repository out of a GitHub URL that is given
/// as its characters, without white space around it. A text that names
/// none is refused with a message that quotes it.
pub fn parse_trimmed_github_url(url: &Vec<char>) -> (r: Result<(String, String), String>)
    ensures
        match owner_and_repo_in(url@) {
            Some((owner, repo)) => r matches Ok((a, b)) && a@ == owner && b@ == repo,
            None => r matches Err(m) && m@ == "Invalid GitHub URL format: "@ + url@,
        },
{
    if starts_with(url, "https://github.com/") {
        let path = strip_suffixes(
            &strip_suffixes(&strip_prefixes(url, "https://github.com/"), ".git"),
            "/",
        );
        if let Some(pair) = first_two_texts(&path) {
            return Ok(pair);
        }
    }
    if starts_with(url, "git@github.com:") {
        let path = strip_suffixes(&strip_prefixes(url, "git@github.com:"), ".git");
        if let Some(pair) = first_two_texts(&path) {
            return Ok(pair);
        }
    }
    Err(String::from_str("Invalid GitHub URL format: ").concat(text_of(url).as_str()))
}

/// Reads the owner and the repository out of a GitHub URL of one of the
/// forms `https://github.com/owner/repo`, the same with `.git` at its end,
/// and `git@github.com:owner/repo.git`. White space around the URL does not
/// count. Any other text is refused with a message that quotes it.
pub fn parse_github_url(url: &str) -> (r: Result<(String, String), String>)
    ensures
        match owner_and_repo(url@) {
            Some((owner, repo)) => r matches Ok((a, b)) && a@ == owner && b@ == repo,
            None => r matches Err(m) && m@ == "Invalid GitHub URL format: "@ + trimmed(url@),
        },
{
    parse_trimmed_github_url(&trim(&to_chars(url)))
}

/// The repository URL over HTTPS that the remote URL of a working copy
/// stands for. White space around the remote URL does not count. A remote
/// URL that is empty or does not mention `github.com` stands for none.
/// In an SSH URL every SSH prefix becomes the HTTPS prefix. The result
/// has no `.git` at its end.
pub open spec fn https_remote(output: Seq<char>) -> Option<Seq<char>> {
    let url = trimmed(output);
    if url.len() == 0 || !occurs_in("github.com"@, url) {
        None
    } else if ssh_prefix().is_prefix_of(url) {
        Some(without_suffixes(replaced_all(url, ssh_prefix(), https_prefix()), ".git"@))
    } else {
        Some(without_suffixes(url, ".git"@))
    }
}

/// Turns the remote URL that version control printed for a working copy
/// into the HTTPS URL of its repository on GitHub, where it has one.
pub fn github_url_from_remote(output: &str) -> (r: Option<String>)
    ensures
        opt_text(r) == https_remote(output@),
{
    let url = trim(&to_chars(output));
    if url.len() == 0 || !contains(&url, "github.com") {
        return None;
    }
    let https = if starts_with(&url, "git@github.com:") {
        let swapped = replace_all(
            &url,
            &to_chars("git@github.com:"),
            &to_chars("https://github.com/"),
        );
        strip_suffixes(&swapped, ".git")
    } else {
        strip_suffixes(&url, ".git")
    };
    Some(text_of(&https))
}

/// The value of a line of the form `key: value` as it is written: what
/// stands between the first and the second colon of the line, or up to its
/// end, without the white space around it. Empty where the line has no
/// colon.
pub open spec fn written_value(line: Seq<char>) -> Seq<char> {
    let parts = split_by(line, ':');
    trimmed(
        if parts.len() >= 2 {
            parts[1]
        } else {
            Seq::empty()
        },
    )
}

/// The value of a line of the form `key: value`: the value as it is
/// written, in lower case.
pub open spec fn switch_value(line: Seq<char>) -> Seq<char> {
    lowercased(written_value(line))
}

/// Whether a value in lower case switches something on: whether it is
/// `true`, `enabled` or `yes`.
pub open spec fn means_on(value: Seq<char>) -> bool {
    value == "true"@ || value == "enabled"@ || value == "yes"@
}

/// Decides whether a value in lower case switches something on.
pub fn value_means_on(value: &str) -> (r: bool)
    ensures
        r == means_on(value@),
{
    let given = String::from_str(value);
    given == String::from_str("true") || given == String::from_str("enabled") || given
        == String::from_str("yes")
}

/// Whether a line of project metadata switches the synchronisation with
/// GitHub on: without the white space around it, it starts with
/// `GitHubSync:` or `githubSync:`, and its value is `true`, `enabled` or
/// `yes`.
pub open spec fn switches_sync_on(line: Seq<char>) -> bool {
    let t = trimmed(line);
    &&& "GitHubSync:"@.is_prefix_of(t) || "githubSync:"@.is_prefix_of(t)
    &&& means_on(switch_value(t))
}

/// Reads the value of a line of the form `key: value` as it is written.
pub fn value_of_line(line: &Vec<char>) -> (r: String)
    ensures
        r@ == written_value(line@),
{
    let parts = split(line, ':');
    if parts.len() >= 2 {
        text_of(&trim(&parts[1]))
    } else {
        let none: Vec<char> = Vec::new();
        text_of(&trim(&none))
    }
}

/// Decides whether a line of project metadata switches the
/// synchronisation with GitHub on.
pub fn line_switches_sync_on(line: &Vec<char>) -> (r: bool)
    ensures
        r == switches_sync_on(line@),
{
    let t = trim(line);
    if !(starts_with(&t, "GitHubSync:") || starts_with(&t, "githubSync:")) {
        return false;
    }
    let value = lowercase(value_of_line(&t).as_str());
    value_means_on(value.as_str())
}

/// Whether the metadata of a project switches the synchronisation with
/// GitHub on: whether one of its lines does.
pub open spec fn sync_switched_on(metadata: Seq<char>) -> bool {
    exists|i: int|
        0 <= i < lines_of(metadata).len() && switches_sync_on(#[trigger] lines_of(metadata)[i])
}

/// Decides whether the metadata of a project switches the synchronisation
/// with GitHub on.
pub fn github_sync_enabled(metadata: &str) -> (r: bool)
    ensures
        r == sync_switched_on(metadata@),
{
    let all = lines(&to_chars(metadata));
    let mut i: usize = 0;
    while i < all.len()
        invariant
            i <= all.len(),
            char_views(all@) == lines_of(metadata@),
            forall|j: int| 0 <= j < i ==> !switches_sync_on(#[trigger] lines_of(metadata@)[j]),
        decreases all.len() - i,
    {
        proof {
            assert(char_views(all@)[i as int] == all@[i as int]@);
        }
        if line_switches_sync_on(&all[i]) {
            return true;
        }
        i += 1;
    }
    false
}

/// Why GitHub cannot be reached with the settings as they are.
#[derive(Clone, Copy, Debug, PartialEq, Eq, Structural)]
pub enum GithubAccessError {
    /// The settings hold no token.
    TokenMissing,
    /// The settings switch the integration off.
    IntegrationDisabled,
}

impl GithubAccessError {
    /// The message that describes the error.
    pub open spec fn description(self) -> Seq<char> {
        match self {
            GithubAccessError::TokenMissing => "GitHub token not configured. Please add your token in Settings."@,
            GithubAccessError::IntegrationDisabled => "GitHub integration is disabled in settings. Please enable it in Settings."@,
        }
    }

    /// The message that describes the error.
    pub fn message(&self) -> (r: String)
        ensures
            r@ == self.description(),
    {
        match self {
            GithubAccessError::TokenMissing => String::from_str(
                "GitHub token not configured. Please add your token in Settings.",
            ),
            GithubAccessError::IntegrationDisabled => String::from_str(
                "GitHub integration is disabled in settings. Please enable it in Settings.",
            ),
        }
    }
}

/// The token with which issues may be imported: the token of the settings,
/// where they hold one and switch the integration on. A missing token is
/// reported before a switched-off integration.
pub open spec fn import_token(settings: SettingsView) -> Result<Seq<char>, GithubAccessError> {
    match settings.github_token {
        None => Err(GithubAccessError::TokenMissing),
        Some(token) => if settings.github_integration_enabled {
            Ok(token)
        } else {
            Err(GithubAccessError::IntegrationDisabled)
        },
    }
}

/// Decides whether issues may be imported, and hands out the token for it.
pub fn token_for_import(settings: &Settings) -> (r: Result<String, GithubAccessError>)
    ensures
        match import_token(settings@) {
            Ok(token) => r matches Ok(t) && t@ == token,
            Err(e) => r == Err::<String, GithubAccessError>(e),
        },
{
    match &settings.github_token {
        None => Err(GithubAccessError::TokenMissing),
        Some(token) => if settings.github_integration_enabled {
            Ok(token.clone())
        } else {
            Err(GithubAccessError::IntegrationDisabled)
        },
    }
}

/// Hands out the token with which an issue may be closed: the token of the
/// settings, whether or not they switch the integration on.
pub fn token_for_closing(settings: &Settings) -> (r: Result<String, GithubAccessError>)
    ensures
        match settings@.github_token {
            Some(token) => r matches Ok(t) && t@ == token,
            None => r == Err::<String, GithubAccessError>(GithubAccessError::TokenMissing),
        },
{
    match &settings.github_token {
        None => Err(GithubAccessError::TokenMissing),
        Some(token) => Ok(token.clone()),
    }
}

/// Whether the projects may be synchronised at all: whether the settings
/// switch the integration on and hold a token.
pub fn sync_allowed(settings: &Settings) -> (r: bool)
    ensures
        r == (settings@.github_integration_enabled && settings@.github_token is Some),
{
    settings.github_integration_enabled && settings.github_token.is_some()
}

/// The comment that is left on an issue that was closed from here.
pub fn closing_comment() -> (r: &'static str)
    ensures
        r@ == "This issue was completed and closed via Vibe Hub."@,
{
    "This issue was completed and closed via Vibe Hub."
}

/// The mathematical view of a [`RemoteIssue`].
pub struct RemoteIssueView {
    pub number: u64,
    pub title: Seq<char>,
    pub body: Option<Seq<char>>,
    pub html_url: Seq<char>,
}

/// An open issue as GitHub reports it.
#[derive(Debug, PartialEq, Eq)]
pub struct RemoteIssue {
    pub number: u64,
    pub title: String,
    pub body: Option<String>,
    pub html_url: String,
}

impl View for RemoteIssue {
    type V = RemoteIssueView;

    open spec fn view(&self) -> RemoteIssueView {
        RemoteIssueView {
            number: self.number,
            title: self.title@,
            body: opt_text(self.body),
            html_url: self.html_url@,
        }
    }
}

/// The text of the feedback item that an issue is imported as: its title
/// and, where its body is more than white space, an empty line and the body
/// without the white space around it.
pub open spec fn import_text(issue: RemoteIssueView) -> Seq<char> {
    match issue.body {
        Some(body) => if trimmed(body).len() == 0 {
            issue.title
        } else {
            issue.title + "\n\n"@ + trimmed(body)
        },
        None => issue.title,
    }
}

/// The feedback item that an issue is imported as under the given id and
/// creation time: pending, of medium priority, and linked to the issue.
pub open spec fn imported_item(issue: RemoteIssueView, id: Seq<char>, created_at: Seq<char>) -> FeedbackItemView {
    FeedbackItemView {
        id,
        text: import_text(issue),
        priority: 3,
        status: FeedbackStatus::Pending,
        created_at,
        completed_at: None,
        refined_into_issue_ids: None,
        review_notes: None,
        github_issue_number: Some(issue.number),
        github_issue_url: Some(issue.html_url),
    }
}

/// Makes the feedback item that an issue is imported as.
pub fn feedback_from_issue(issue: RemoteIssue, id: String, created_at: String) -> (r: FeedbackItem)
    ensures
        r@ == imported_item(issue@, id@, created_at@),
{
    let text = match &issue.body {
        Some(body) => {
            let kept = trim(&to_chars(body.as_str()));
            if kept.len() == 0 {
                issue.title
            } else {
                issue.title.concat("\n\n").concat(text_of(&kept).as_str())
            }
        },
        None => issue.title,
    };
    FeedbackItem {
        id,
        text,
        priority: 3,
        status: FeedbackStatus::Pending,
        created_at,
        completed_at: None,
        refined_into_issue_ids: None,
        review_notes: None,
        github_issue_number: Some(issue.number),
        github_issue_url: Some(issue.html_url),
    }
}

/// Whether one of the feedback items is linked to the issue of the given
/// number.
pub open spec fn feedback_tracks(items: Seq<FeedbackItemView>, number: u64) -> bool {
    exists|i: int| 0 <= i < items.len() && (#[trigger] items[i]).github_issue_number == Some(number)
}

/// Whether one of the issues is linked to the GitHub issue of the given
/// number.
pub open spec fn issues_track(issues: Seq<IssueView>, number: u64) -> bool {
    exists|i: int|
        0 <= i < issues.len() && (#[trigger] issues[i]).github_issue_number == Some(number)
}

/// Decides whether one of the feedback items is linked to the issue of the
/// given number.
pub fn tracked_in_feedback(items: &Vec<FeedbackItem>, number: u64) -> (r: bool)
    ensures
        r == feedback_tracks(views(items@), number),
{
    let mut i: usize = 0;
    while i < items.len()
        invariant
            i <= items.len(),
            forall|j: int| 0 <= j < i ==> (#[trigger] views(items@)[j]).github_issue_number != Some(number),
        decreases items.len() - i,
    {
        if items[i].github_issue_number == Some(number) {
            assert(views(items@)[i as int].github_issue_number == Some(number));
            return true;
        }
        i += 1;
    }
    false
}

/// Decides whether one of the issues is linked to the GitHub issue of the
/// given number.
pub fn tracked_in_issues(issues: &Vec<Issue>, number: u64) -> (r: bool)
    ensures
        r == issues_track(views(issues@), number),
{
    let mut i: usize = 0;
    while i < issues.len()
        invariant
            i <= issues.len(),
            forall|j: int| 0 <= j < i ==> (#[trigger] views(issues@)[j]).github_issue_number != Some(number),
        decreases issues.len() - i,
    {
        if issues[i].github_issue_number == Some(number) {
            assert(views(issues@)[i as int].github_issue_number == Some(number));
            return true;
        }
        i += 1;
    }
    false
}

/// The records of a document, or none where it cannot be loaded.
pub open spec fn or_none<V>(loaded: Result<Seq<V>, StoreErrorView>) -> Seq<V> {
    match loaded {
        Ok(records) => records,
        Err(_) => Seq::empty(),
    }
}

/// Whether the feedback archive, the pending issues or the archived issues
/// of a project hold a record that is linked to the GitHub issue of the
/// given number. A document that cannot be loaded counts as empty.
pub open spec fn tracked_elsewhere(s: ProjectStoreView, number: u64) -> bool {
    ||| feedback_tracks(or_none(s.archived_feedback()), number)
    ||| issues_track(or_none(s.pending_issues()), number)
    ||| issues_track(or_none(s.archived_issues()), number)
}

/// The pending feedback after the given issues were imported, one after
/// the other, each under its own id and creation time. An issue is imported
/// at the end of the pending feedback unless a record is linked to it
/// already: in the pending feedback as it stands then, or elsewhere.
pub open spec fn after_import(
    feedback: Seq<FeedbackItemView>,
    s: ProjectStoreView,
    issues: Seq<RemoteIssueView>,
    stamps: Seq<(Seq<char>, Seq<char>)>,
) -> Seq<FeedbackItemView>
    decreases issues.len(),
{
    if issues.len() == 0 {
        feedback
    } else {
        let before = after_import(feedback, s, issues.drop_last(), stamps.drop_last());
        let issue = issues.last();
        if feedback_tracks(before, issue.number) || tracked_elsewhere(s, issue.number) {
            before
        } else {
            before.push(imported_item(issue, stamps.last().0, stamps.last().1))
        }
    }
}

/// There is a text that is a version 4 UUID, and one that is a UTC
/// timestamp.
proof fn lemma_a_stamp_exists()
    ensures
        exists|p: (Seq<char>, Seq<char>)| is_uuid_v4(p.0) && is_utc_timestamp(p.1),
{
    let id = "00000000-0000-4000-8000-000000000000"@;
    let time = "1970-01-01T00:00:00+00:00"@;
    reveal_strlit("00000000-0000-4000-8000-000000000000");
    reveal_strlit("1970-01-01T00:00:00+00:00");
    assert(time.subrange(time.len() - 6, time.len() as int) =~= seq!['+', '0', '0', ':', '0', '0']);
    assert(is_uuid_v4((id, time).0) && is_utc_timestamp((id, time).1));
}

/// Imports the open issues of a repository as pending feedback. An issue
/// to which a record of the project is linked already is left out. Each
/// imported issue becomes a pending item of medium priority under a fresh
/// random id and with the current time as its creation time. The pending
/// feedback is written where an issue was imported, and not otherwise. The
/// number of imported issues is returned.
///
/// Only the pending feedback has to load: an archive or an issue document
/// that cannot be loaded counts as empty. The ids and the times come from
/// outside, so the contract holds for whichever came: there are ids, all of
/// them version 4 UUIDs, and UTC timestamps, one pair for each issue, with
/// which the pending feedback is what [`after_import`] gives.
pub fn import_github_issues(store: &mut ProjectStore, issues: Vec<RemoteIssue>) -> (r: Result<
    usize,
    StoreError,
>)
    ensures
        match old(store)@.pending_feedback() {
            Err(e) => fails_with(r, e) && final(store)@ == old(store)@,
            Ok(feedback) => exists|stamps: Seq<(Seq<char>, Seq<char>)>|
                {
                    let imported = #[trigger] after_import(
                        feedback,
                        old(store)@,
                        views(issues@),
                        stamps,
                    );
                    &&& stamps.len() == issues.len()
                    &&& forall|k: int|
                        0 <= k < stamps.len() ==> is_uuid_v4((#[trigger] stamps[k]).0)
                            && is_utc_timestamp(stamps[k].1)
                    &&& imported.len() >= feedback.len()
                    &&& r matches Ok(n) && n == imported.len() - feedback.len()
                    &&& final(store)@ == if imported.len() > feedback.len() {
                        old(store)@.with_pending_feedback(imported)
                    } else {
                        old(store)@
                    }
                },
        },
{
    let mut feedback = read_pending_feedback(store)?;
    let known_issues = match read_issues_file(store) {
        Ok(file) => file,
        Err(_) => IssueFile { issues: Vec::new() },
    };
    let known_archive = match read_issues_archive_file(store) {
        Ok(file) => file,
        Err(_) => IssueFile { issues: Vec::new() },
    };
    let known_feedback = match read_archived_feedback(store) {
        Ok(file) => file,
        Err(_) => FeedbackFile { feedback: Vec::new() },
    };
    let ghost start = feedback@;
    let ghost remote = views(issues@);
    let ghost mut stamps: Seq<(Seq<char>, Seq<char>)> = Seq::empty();
    let mut imported_count: usize = 0;
    let total = issues.len();
    for issue in it: issues
        invariant
            remote == views(it.seq()),
            remote.len() == total,
            store@ == old(store)@,
            known_issues@ == or_none(store@.pending_issues()),
            known_archive@ == or_none(store@.archived_issues()),
            known_feedback@ == or_none(store@.archived_feedback()),
            stamps.len() == it.index(),
            forall|k: int|
                0 <= k < stamps.len() ==> is_uuid_v4((#[trigger] stamps[k]).0) && is_utc_timestamp(
                    stamps[k].1,
                ),
            feedback@ == after_import(start, store@, remote.take(it.index()), stamps),
            feedback@.len() == start.len() + imported_count,
            imported_count <= it.index(),
    {
        let ghost i = it.index();
        let ghost drawn = stamps;
        let known = tracked_in_feedback(&feedback.feedback, issue.number) || tracked_in_feedback(
            &known_feedback.feedback,
            issue.number,
        ) || tracked_in_issues(&known_issues.issues, issue.number) || tracked_in_issues(
            &known_archive.issues,
            issue.number,
        );
        proof {
            assert(remote.take(i + 1).drop_last() =~= remote.take(i));
        }
        if known {
            proof {
                lemma_a_stamp_exists();
                let stamp = choose|p: (Seq<char>, Seq<char>)|
                    is_uuid_v4(p.0) && is_utc_timestamp(p.1);
                stamps = stamps.push(stamp);
            }
        } else {
            let id = fresh_id();
            let now = current_timestamp();
            proof {
                stamps = stamps.push((id@, now@));
            }
            let item = feedback_from_issue(issue, id, now);
            feedback.feedback.push(item);
            imported_count += 1;
        }
        proof {
            assert(stamps.drop_last() =~= drawn);
        }
    }
    proof {
        assert(remote.take(remote.len() as int) =~= remote);
    }
    if imported_count > 0 {
        write_pending_feedback(store, feedback);
    }
    Ok(imported_count)
}

} // verus!
