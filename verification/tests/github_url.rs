use vibe_hub::commands::github::parse_github_url;

#[test]
fn test_parse_github_url_https() {
    let (owner, repo) = parse_github_url("https://github.com/owner/repo").unwrap();
    assert_eq!(owner, "owner");
    assert_eq!(repo, "repo");
}

#[test]
fn test_parse_github_url_https_with_git() {
    let (owner, repo) = parse_github_url("https://github.com/owner/repo.git").unwrap();
    assert_eq!(owner, "owner");
    assert_eq!(repo, "repo");
}

#[test]
fn test_parse_github_url_ssh() {
    let (owner, repo) = parse_github_url("git@github.com:owner/repo.git").unwrap();
    assert_eq!(owner, "owner");
    assert_eq!(repo, "repo");
}

#[test]
fn test_parse_github_url_invalid() {
    let result = parse_github_url("not-a-github-url");
    assert!(result.is_err());
}
