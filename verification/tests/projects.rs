use vibe_hub::commands::projects::{
    auto_detect_status, check_metadata_exists, create_metadata_template, describe_project,
    design_spec_template, ensure_vibe_in_gitignore, generate_metadata_prompt, get_project_name,
    highest_feedback_priority, hyphenate, metadata_template, metadata_with_idea_status, new_project_metadata,
    parse_metadata_file, pending_feedback_count, project_folder_name, project_name_from,
    render_project_idea, sort_projects, technical_spec_template, update_project_metadata,
    ParsedMetadata, FEEDBACK_TEMPLATE, IDEA_TEMPLATE,
};
use vibe_hub::models::{FeedbackFile, FeedbackItem, FeedbackStatus, Project, ProjectMetadata};

fn pending_or_not(id: &str, priority: u8, status: FeedbackStatus) -> FeedbackItem {
    FeedbackItem {
        id: id.to_string(),
        text: "t".to_string(),
        priority,
        status,
        created_at: "2024-01-01T00:00:00+00:00".to_string(),
        completed_at: None,
        refined_into_issue_ids: None,
        review_notes: None,
        github_issue_number: None,
        github_issue_url: None,
    }
}

fn nothing_parsed() -> ParsedMetadata {
    ParsedMetadata {
        name: None,
        description: String::new(),
        deployment_url: None,
        tech_stack: vec![],
        status: None,
    }
}

#[test]
fn status_is_detected_from_deployment_and_version_control() {
    let url = Some("https://example.com".to_string());
    assert_eq!(auto_detect_status("/p", true, &url), "deployed");
    assert_eq!(auto_detect_status("/p", false, &url), "deployed");
    assert_eq!(auto_detect_status("/p", true, &None), "mvp-implemented");
    assert_eq!(auto_detect_status("/p", false, &None), "initialized");
}

#[test]
fn project_name_is_the_last_component_of_the_path() {
    assert_eq!(get_project_name("/home/user/projects/my-app"), "my-app");
    assert_eq!(get_project_name("relative/dir/"), "dir");
    assert_eq!(get_project_name("/"), "Unknown");
    assert_eq!(get_project_name("/home/.."), "Unknown");
    assert_eq!(project_name_from(Some("x".to_string())), "x");
    assert_eq!(project_name_from(None), "Unknown");
}

#[test]
fn metadata_is_read_line_by_line() {
    let contents = "Name: My App\nStatus:  mvp-implemented \n\n## Description\n\nFirst line.\n  Second line.  \n\n## Tech Stack\n\n- Rust\n-  Tauri\n- \nnot a bullet\n-- React\n\n## Deployment\n\nhttps://example.com/app\nsome text\n";
    let parsed = parse_metadata_file(contents);
    assert_eq!(
        parsed,
        ParsedMetadata {
            name: Some("My App".to_string()),
            description: "First line. Second line.".to_string(),
            deployment_url: Some("https://example.com/app".to_string()),
            tech_stack: vec!["Rust".to_string(), "Tauri".to_string(), "React".to_string()],
            status: Some("mvp-implemented".to_string()),
        }
    );
}

#[test]
fn metadata_of_an_empty_file_says_nothing() {
    assert_eq!(parse_metadata_file(""), nothing_parsed());
    assert_eq!(parse_metadata_file("\n\n"), nothing_parsed());
}

#[test]
fn metadata_sections_decide_what_a_line_means() {
    let in_description = parse_metadata_file("## Description\nhttps://example.com\n- Rust");
    assert_eq!(in_description.description, "https://example.com - Rust");
    assert_eq!(in_description.deployment_url, None);
    assert!(in_description.tech_stack.is_empty());

    let before_sections = parse_metadata_file("http://a.example\nhttps://b.example\r\n");
    assert_eq!(before_sections.deployment_url, Some("https://b.example".to_string()));

    let in_tech_stack = parse_metadata_file("## Tech Stack\nhttps://example.com\n## Other\nhttp://x.example");
    assert_eq!(in_tech_stack.deployment_url, Some("http://x.example".to_string()));

    let repeated = parse_metadata_file("Name:Name: Twice\nName: Last");
    assert_eq!(repeated.name, Some("Last".to_string()));
    assert_eq!(parse_metadata_file("Name:Name: Twice").name, Some("Twice".to_string()));
}

#[test]
fn vibe_directory_is_added_to_the_ignored_paths() {
    assert_eq!(ensure_vibe_in_gitignore(""), Some(".vibe/\n".to_string()));
    assert_eq!(
        ensure_vibe_in_gitignore("target\nnode_modules"),
        Some("target\nnode_modules\n.vibe/\n".to_string())
    );
    assert_eq!(ensure_vibe_in_gitignore("target\n"), Some("target\n.vibe/\n".to_string()));
    assert_eq!(ensure_vibe_in_gitignore("target\n  .vibe  \nother"), None);
    assert_eq!(ensure_vibe_in_gitignore(".vibe/\r\n"), None);
    assert_eq!(
        ensure_vibe_in_gitignore(".vibe/cache\n"),
        Some(".vibe/cache\n.vibe/\n".to_string())
    );
}

#[test]
fn templates_carry_the_name_of_the_project() {
    let template = metadata_template("my-app");
    assert!(template.starts_with("Name: my-app\nStatus: draft\n\n## Description\n\n"));
    assert!(template.ends_with("[Add deployment URL if applicable, or remove this section]\n"));
    let blank = create_metadata_template();
    assert!(blank.starts_with("# Project Metadata\n\n## Description\n\n[Add a brief description"));
    assert!(blank.contains("- [Technology 1]\n- [Technology 2]\n- [Technology 3]\n"));
    let fresh = new_project_metadata("My App");
    assert!(fresh.starts_with("Name: My App\nStatus: initialized\n\n"));
    assert!(fresh.ends_with("[Deployment info will be added after MVP is deployed]\n"));
    assert!(design_spec_template("Helper").starts_with(
        "# MVP Design Specification\n\n[This file will be generated with Helper after writing the project idea]\n\n## Core Features\n"
    ));
    assert!(technical_spec_template("Helper").starts_with(
        "# Technical Specification\n\n[This file will be generated with Helper after the design spec is complete]\n\n## Architecture\n"
    ));
    assert!(IDEA_TEMPLATE.starts_with("# Project Idea\n\n## Summary\n"));
    assert_eq!(FEEDBACK_TEMPLATE, "{\n  \"feedback\": []\n}");
    let prompt = generate_metadata_prompt("my-app");
    assert!(prompt.contains("\n\nProject: my-app\n\nInstructions:\n1. Scan key files"));
}

#[test]
fn templates_are_read_back_as_written() {
    let parsed = parse_metadata_file(&metadata_template("my-app"));
    assert_eq!(parsed.name, Some("my-app".to_string()));
    assert_eq!(parsed.status, Some("draft".to_string()));
    assert_eq!(
        parsed.description,
        "[Add a brief description of what this project does and its purpose]"
    );
    assert_eq!(
        parsed.tech_stack,
        vec!["[Technology 1]".to_string(), "[Technology 2]".to_string(), "[Technology 3]".to_string()]
    );
    assert!(!check_metadata_exists(&metadata_template("my-app")));
}

#[test]
fn folder_name_is_lower_case_with_hyphens() {
    assert_eq!(project_folder_name("My Cool App"), "my-cool-app");
    assert_eq!(project_folder_name("already-fine"), "already-fine");
    assert_eq!(project_folder_name("  Two  Spaces"), "--two--spaces");
    assert_eq!(project_folder_name(""), "");
    assert_eq!(hyphenate("Keeps Case"), "Keeps-Case");
    assert_eq!(hyphenate("tab\tstays"), "tab\tstays");
}

#[test]
fn metadata_is_rendered_with_its_sections() {
    assert_eq!(
        update_project_metadata(
            "A tool.",
            &vec!["Rust".to_string(), "Tauri".to_string()],
            &Some("https://example.com".to_string())
        ),
        "# Project Metadata\n\n## Description\n\nA tool.\n\n## Tech Stack\n\n- Rust\n- Tauri\n\n## Deployment\n\nhttps://example.com\n"
    );
    assert_eq!(
        update_project_metadata("", &vec![], &None),
        "# Project Metadata\n\n## Description\n\n## Tech Stack\n\n\n"
    );
}

#[test]
fn metadata_counts_once_the_placeholders_are_gone() {
    assert!(!check_metadata_exists(&create_metadata_template()));
    assert!(!check_metadata_exists("short"));
    assert!(!check_metadata_exists(
        "This text is long enough to count but it still holds [Technology 1] in it."
    ));
    assert!(check_metadata_exists(
        "## Description\n\nA real description of a real project, long enough.\n"
    ));
    let fifty = "x".repeat(50);
    assert!(!check_metadata_exists(&fifty));
    assert!(check_metadata_exists(&"x".repeat(51)));
    assert!(check_metadata_exists(&"\u{e9}".repeat(26)));
}

#[test]
fn idea_is_rendered_with_its_answers() {
    assert_eq!(
        render_project_idea("S", "P", "C", "V", ""),
        "# Project Idea\n\n## Summary\n\nS\n\n## Problem\n\nP\n\n## Core Functionality\n\nC\n\n## Value Proposition\n\nV\n"
    );
    assert_eq!(
        render_project_idea("S", "P", "C", "V", "A"),
        "# Project Idea\n\n## Summary\n\nS\n\n## Problem\n\nP\n\n## Core Functionality\n\nC\n\n## Value Proposition\n\nV\n\n## Additional Requirements\n\nA\n"
    );
}

#[test]
fn status_line_becomes_idea() {
    assert_eq!(
        metadata_with_idea_status("Name: x\nStatus: initialized\n\n## Description\n"),
        "Name: x\nStatus: idea\n\n## Description"
    );
    assert_eq!(metadata_with_idea_status("Name: x\r\n  Status: kept\r\n"), "Name: x\n  Status: kept");
    assert_eq!(metadata_with_idea_status(""), "");
    assert_eq!(metadata_with_idea_status("Status:"), "Status: idea");
}

#[test]
fn pending_feedback_is_counted_and_ranked() {
    let file = FeedbackFile {
        feedback: vec![
            pending_or_not("a", 3, FeedbackStatus::Pending),
            pending_or_not("b", 1, FeedbackStatus::Completed),
            pending_or_not("c", 2, FeedbackStatus::Pending),
            pending_or_not("d", 5, FeedbackStatus::NeedsReview),
        ],
    };
    assert_eq!(pending_feedback_count(&file), 2);
    assert_eq!(highest_feedback_priority(&file), Some(2));
    assert_eq!(pending_feedback_count(&FeedbackFile::default()), 0);
    assert_eq!(highest_feedback_priority(&FeedbackFile::default()), None);
}

#[test]
fn a_project_is_described_by_its_facts() {
    let mut metadata = nothing_parsed();
    metadata.name = Some("Shown".to_string());
    metadata.description = "About".to_string();
    let file = FeedbackFile { feedback: vec![pending_or_not("a", 4, FeedbackStatus::Pending)] };
    let project = describe_project(
        "id".to_string(),
        "folder".to_string(),
        "/p/folder".to_string(),
        metadata,
        true,
        Some("2024-01-01T00:00:00+00:00".to_string()),
        &file,
    );
    assert_eq!(
        project,
        Project {
            id: "id".to_string(),
            name: "folder".to_string(),
            display_name: Some("Shown".to_string()),
            path: "/p/folder".to_string(),
            description: "About".to_string(),
            platform: None,
            is_local_first: None,
            is_open_source: None,
            has_backend: None,
            deployment_url: None,
            status: "mvp-implemented".to_string(),
            color: None,
            text_color: None,
            icon_path: None,
            last_modified: Some("2024-01-01T00:00:00+00:00".to_string()),
            feedback_count: 1,
            highest_feedback_priority: Some(4),
            has_uncommitted_changes: false,
            has_git_repo: true,
        }
    );
    let mut named = nothing_parsed();
    named.status = Some("idea".to_string());
    let other = describe_project(
        "id".to_string(),
        "f".to_string(),
        "/p/f".to_string(),
        named,
        false,
        None,
        &FeedbackFile::default(),
    );
    assert_eq!(other.status, "idea");
    assert_eq!(other.feedback_count, 0);
}

#[test]
fn projects_are_sorted_latest_first() {
    let make = |id: &str, modified: Option<&str>| {
        describe_project(
            id.to_string(),
            id.to_string(),
            id.to_string(),
            nothing_parsed(),
            false,
            modified.map(|m| m.to_string()),
            &FeedbackFile::default(),
        )
    };
    let mut projects = vec![
        make("none", None),
        make("jan", Some("2024-01-01T00:00:00+00:00")),
        make("mar", Some("2024-03-01T00:00:00+00:00")),
        make("none2", None),
        make("jan2", Some("2024-01-01T00:00:00+00:00")),
    ];
    sort_projects(&mut projects);
    let order: Vec<&str> = projects.iter().map(|p| p.id.as_str()).collect();
    assert_eq!(order, vec!["mar", "jan", "jan2", "none", "none2"]);
}

#[test]
fn recorded_metadata_defaults_to_nothing() {
    let metadata = ProjectMetadata::default();
    assert_eq!(
        metadata,
        ProjectMetadata {
            name: None,
            description: None,
            platform: None,
            is_local_first: None,
            is_open_source: None,
            has_backend: None,
            deployment_url: None,
            status: None,
            icon_path: None,
        }
    );
    assert_eq!(metadata.clone(), metadata);
}
