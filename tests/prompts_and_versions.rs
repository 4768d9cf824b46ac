use gh_report::gh_version::{parse_gh_version, parse_version_parts, version_meets_minimum, MIN_GH_VERSION};
use gh_report::github::{Author, CommentCount, Issue, IssueState, RepoActivity};
use gh_report::prompts::{generate_issue_filename, summarize_context_prompt, summarize_issue_for_maintainer};
use gh_report::report::group_activities_by_repo;

#[test]
fn test_summarize_issue_for_maintainer_with_recommendations() {
    let prompt = summarize_issue_for_maintainer(
        "Memory leak in async runtime",
        "Detailed description of the memory leak...",
        "open",
        "user123",
        &vec!["bug".to_string(), "critical".to_string()],
        "https://github.com/owner/repo/issues/123",
        &vec![
            ("reviewer1".to_string(), "I can reproduce this issue".to_string()),
            ("maintainer".to_string(), "Let's prioritize this fix".to_string()),
        ],
        true,
    );
    assert!(prompt.contains("Memory leak in async runtime"));
    assert!(prompt.contains("@user123"));
    assert!(prompt.contains("bug, critical"));
    assert!(prompt.contains("Required Action"));
    assert!(prompt.contains("Recommendations"));
    assert!(prompt.contains("@reviewer1"));
    assert!(prompt.contains("I can reproduce this issue"));
    assert!(prompt.contains("Comment 2 by @maintainer:\nLet's prioritize this fix\n\n"));
}

#[test]
fn test_summarize_issue_for_maintainer_without_recommendations() {
    let prompt = summarize_issue_for_maintainer(
        "Feature request: Add new API",
        "Description of the feature...",
        "open",
        "contributor",
        &vec![],
        "https://github.com/owner/repo/issues/456",
        &vec![],
        false,
    );
    assert!(prompt.contains("Feature request: Add new API"));
    assert!(prompt.contains("@contributor"));
    assert!(prompt.contains("Labels: none"));
    assert!(prompt.contains("Current Status"));
    assert!(!prompt.contains("Required Action"));
    assert!(!prompt.contains("Recommendations"));
    assert!(!prompt.contains("**Discussion:**"));
}

#[test]
fn context_prompt_numbers_comments() {
    let prompt = summarize_context_prompt("T", "B", &["first".to_string(), "second".to_string()]);
    assert!(prompt.starts_with("Summarize this GitHub issue/PR and its discussion:\n\nTitle: T\n\nDescription:\nB\n\n"));
    assert!(prompt.contains("Recent Comments:\nComment 1:\nfirst\n\nComment 2:\nsecond\n\n"));
    assert!(!summarize_context_prompt("T", "B", &[]).contains("Recent Comments"));
}

#[test]
fn test_generate_issue_filename() {
    assert_eq!(generate_issue_filename("tokio-rs/tokio", 123, "Fix memory leak in runtime"), "tokio-123-fix-memory-leak-in-runtime.md");
    assert_eq!(
        generate_issue_filename("rust-lang/rust", 456, "Add support for async/await syntax"),
        "rust-456-add-support-for-async_await-syntax.md"
    );
    let long_title = "This is a very long issue title that should be truncated to avoid filesystem issues";
    assert_eq!(
        generate_issue_filename("microsoft/TypeScript", 789, long_title),
        "TypeScript-789-this-is-a-very-long-issue-title-that-should-be-....md"
    );
    assert_eq!(generate_issue_filename("user/repo", 1, "Fix!@#$%^&*()+={}[]|\\:;\"'<>?/.,`~"), "repo-1-fix.md");
}

#[test]
fn filename_keeps_repo_without_owner() {
    assert_eq!(generate_issue_filename("solo", 2, " -Hi_ "), "solo-2-hi.md");
}

#[test]
fn test_parse_gh_version() {
    let output = "gh version 2.32.0 (2023-06-20)\n";
    assert_eq!(parse_gh_version(output).unwrap(), "2.32.0");
}

#[test]
fn parse_gh_version_needs_three_words() {
    assert_eq!(parse_gh_version("gh version\n2.0.0"), None);
    assert_eq!(parse_gh_version(""), None);
    assert_eq!(parse_gh_version("  gh\tversion  1.2.3\r\n"), Some("1.2.3".to_string()));
}

#[test]
fn test_version_comparison() {
    assert!(version_meets_minimum("2.32.0", "2.20.0").unwrap());
    assert!(version_meets_minimum("3.0.0", "2.20.0").unwrap());
    assert!(version_meets_minimum("2.20.0", "2.20.0").unwrap());
    assert!(!version_meets_minimum("2.19.0", "2.20.0").unwrap());
    assert!(!version_meets_minimum("1.99.99", "2.0.0").unwrap());
}

#[test]
fn version_parts_and_errors() {
    assert_eq!(parse_version_parts("1.2.3"), Some(vec![1, 2, 3]));
    assert_eq!(parse_version_parts("1.x"), None);
    assert_eq!(version_meets_minimum("2.20", MIN_GH_VERSION), Some(true));
    assert_eq!(version_meets_minimum("2", MIN_GH_VERSION), Some(false));
    assert_eq!(version_meets_minimum("abc", MIN_GH_VERSION), None);
}

#[test]
fn issue_repository_name_from_url() {
    let issue = Issue {
        number: 1,
        title: "t".to_string(),
        body: None,
        state: IssueState::Open,
        author: Author { login: "u".to_string(), user_type: None },
        created_at: 0,
        updated_at: 0,
        labels: vec![],
        url: "https://github.com/owner/repo/issues/1".to_string(),
        comments: CommentCount { total_count: 0 },
        is_pull_request: false,
    };
    assert_eq!(issue.repository_name(), Some("owner/repo".to_string()));
    let mut other = issue.clone();
    other.url = "https://example.com/owner/repo".to_string();
    assert_eq!(other.repository_name(), None);
}

#[test]
fn test_repo_activity_default() {
    let activity = RepoActivity::default();
    assert!(activity.new_issues.is_empty());
    assert!(activity.new_prs.is_empty());
    assert!(activity.updated_issues.is_empty());
    assert!(activity.updated_prs.is_empty());
    assert!(activity.merged_prs.is_empty());
}

#[test]
fn grouping_issues_by_repository() {
    let now: i64 = 1_704_931_200;
    let make = |number: u32, url: &str, open: bool, created: i64, pr: bool| Issue {
        number,
        title: "t".to_string(),
        body: None,
        state: if open { IssueState::Open } else { IssueState::Closed },
        author: Author { login: "u".to_string(), user_type: None },
        created_at: created,
        updated_at: created,
        labels: vec![],
        url: url.to_string(),
        comments: CommentCount { total_count: 0 },
        is_pull_request: pr,
    };
    let issues = vec![
        make(1, "https://github.com/z/z/issues/1", true, now - 100, false),
        make(2, "https://github.com/a/b/pull/2", true, now - 100, true),
        make(3, "https://github.com/a/b/issues/3", true, now - 2 * 86_400, false),
        make(4, "not a url", false, now, false),
        make(5, "https://github.com/a/b/pull/5", false, now, true),
    ];
    let groups = group_activities_by_repo(issues, now);
    let names: Vec<&str> = groups.iter().map(|(n, _)| n.as_str()).collect();
    assert_eq!(names, vec!["a/b", "unknown", "z/z"]);
    let ab = &groups[0].1;
    assert_eq!(ab.new_prs.iter().map(|i| i.number).collect::<Vec<_>>(), vec![2]);
    assert_eq!(ab.updated_prs.iter().map(|i| i.number).collect::<Vec<_>>(), vec![5]);
    assert_eq!(ab.updated_issues.iter().map(|i| i.number).collect::<Vec<_>>(), vec![3]);
    assert!(ab.new_issues.is_empty());
    assert_eq!(groups[1].1.updated_issues[0].number, 4);
    assert_eq!(groups[2].1.new_issues[0].number, 1);
}

#[test]
fn test_review_pr_for_maintainer() {
    let prompt = gh_report::prompts::review_pr_for_maintainer(
        "Add async/await support to core library",
        "This PR introduces async/await syntax support with full backwards compatibility.",
        "open",
        "contributor123",
        &vec!["enhancement".to_string(), "breaking-change".to_string()],
        "https://github.com/owner/repo/pull/456",
        &vec![
            ("reviewer1".to_string(), "The implementation looks solid".to_string()),
            ("maintainer".to_string(), "Let's ensure all tests pass".to_string()),
        ],
        "Modified 15 files: 8 Rust files, 4 test files, 3 documentation files. Added 342 lines, removed 89 lines.",
        true,
    );
    assert!(prompt.contains("Add async/await support to core library"));
    assert!(prompt.contains("@contributor123"));
    assert!(prompt.contains("enhancement, breaking-change"));
    assert!(prompt.contains("Code Review Summary"));
    assert!(prompt.contains("Required Actions"));
    assert!(prompt.contains("Technical Assessment"));
    assert!(prompt.contains("Modified 15 files"));
    assert!(prompt.contains("@reviewer1"));
    assert!(prompt.contains("The implementation looks solid"));
}

#[test]
fn test_review_pr_for_maintainer_without_recommendations() {
    let prompt = gh_report::prompts::review_pr_for_maintainer(
        "Fix typo in documentation",
        "Simple typo fix in README.md",
        "merged",
        "docs-contributor",
        &vec![],
        "https://github.com/owner/repo/pull/789",
        &vec![],
        "Modified 1 file: README.md. Added 1 line, removed 1 line.",
        false,
    );
    assert!(prompt.contains("Fix typo in documentation"));
    assert!(prompt.contains("@docs-contributor"));
    assert!(prompt.contains("Labels: none"));
    assert!(prompt.contains("Code Changes Overview"));
    assert!(prompt.contains("Technical Assessment"));
    assert!(!prompt.contains("Required Actions"));
    assert!(!prompt.contains("Recommendations"));
}

#[test]
fn test_generate_filename() {
    let report = gh_report::report::Report {
        title: "Test Report Title Here".to_string(),
        content: "# Test".to_string(),
        timestamp: 1704931200,
    };
    let config = gh_report::config::Config::default();
    let filename = report.generate_filename(&config).unwrap();
    assert!(filename.contains("2024-01-11"));
    assert!(filename.contains("Test Report Title Here"));
    assert!(filename.ends_with(".md"));
    assert_eq!(filename, "2024-01-11 - Github - Test Report Title Here.md");
}

#[test]
fn short_title_and_custom_formats() {
    let mut report = gh_report::report::Report {
        title: "  one two three four five six seven eight nine ".to_string(),
        content: String::new(),
        timestamp: 0,
    };
    assert_eq!(report.generate_short_title(), "one two three four five six seven eight");
    report.title = "   ".to_string();
    assert_eq!(report.generate_short_title(), "Daily Report");
    let mut config = gh_report::config::Config::default();
    config.settings.file_name_format = "{yyyy}/{mm}/{dd}-{short-title}.md".to_string();
    assert_eq!(report.generate_filename(&config).unwrap(), "1970/01/01-Daily Report.md");
    report.timestamp = i64::MAX;
    assert!(report.generate_filename(&config).is_none());
}

#[test]
fn test_summarize_activities_prompt() {
    let mut repo_activity = RepoActivity::default();
    repo_activity.new_issues.push(Issue {
        number: 42,
        title: "Test Issue".to_string(),
        body: Some("Issue body".to_string()),
        state: IssueState::Open,
        author: Author { login: "testuser".to_string(), user_type: None },
        created_at: 0,
        updated_at: 0,
        labels: vec![],
        url: "https://github.com/test/repo/issues/42".to_string(),
        comments: CommentCount { total_count: 0 },
        is_pull_request: false,
    });
    let activities = vec![("test/repo".to_string(), repo_activity)];
    let prompt = gh_report::prompts::summarize_activities_prompt(&activities, Some("Focus on bug fixes"));
    assert!(prompt.contains("User Context:"));
    assert!(prompt.contains("Focus on bug fixes"));
    assert!(prompt.contains("Repository: test/repo"));
    assert!(prompt.contains("[Issue #42]"));
    assert!(prompt.contains(
        "### New Issues (1)\n- [Issue #42](https://github.com/test/repo/issues/42): Test Issue (State: Open, by [@testuser](https://github.com/testuser))\n\n"
    ));
}

#[test]
fn activities_prompt_sections() {
    let pr = |number: u32, body: Option<&str>, state: IssueState| Issue {
        number,
        title: "T".to_string(),
        body: body.map(|b| b.to_string()),
        state,
        author: Author { login: "a".to_string(), user_type: None },
        created_at: 0,
        updated_at: 0,
        labels: vec![],
        url: "u".to_string(),
        comments: CommentCount { total_count: 4 },
        is_pull_request: true,
    };
    let mut activity = RepoActivity::default();
    activity.new_prs.push(pr(1, Some("line one\nline two"), IssueState::Open));
    activity.updated_prs.push(pr(2, None, IssueState::Merged));
    let prompt = gh_report::prompts::summarize_activities_prompt(&vec![("o/r".to_string(), activity)], None);
    assert!(prompt.starts_with("Please summarize the following GitHub activity:\n\n## Repository: o/r\n\n"));
    assert!(prompt.contains("- [PR #1](u): T (State: Open, by [@a](https://github.com/a))\n  line one line two\n"));
    assert!(prompt.contains("### Updated Pull Requests (1)\n- [PR #2](u): T (State: Merged, comments: 4)\n\n"));
    assert!(!prompt.contains("User Context"));
}

#[test]
fn rest_states() {
    use_state_checks();
}

fn use_state_checks() {
    let f = gh_report::github::issue_state_from_rest;
    assert_eq!(f("open", true, Some(true)), IssueState::Open);
    assert_eq!(f("closed", true, Some(true)), IssueState::Merged);
    assert_eq!(f("closed", false, Some(true)), IssueState::Closed);
    assert_eq!(f("closed", true, None), IssueState::Closed);
    assert_eq!(f("draft", false, None), IssueState::Closed);
}
