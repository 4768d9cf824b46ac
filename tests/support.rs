use gh_report::claude::{
    estimate_tokens, filter_activities_prompt, generate_title_prompt, system_prompt, Content,
    ImportanceLevel, Message, MessageRole, MessagesResponse, Usage,
};
use gh_report::compression::should_compress;
use gh_report::config::{Config, Importance, RepoConfig};
use gh_report::dynamic::{calculate_activity_score, categorize_activity_level, ActivityLevel, ActivityMetrics};
use gh_report::config::ActivityWeights;
use gh_report::error::{user_friendly_error, UserError};
use gh_report::reference::{parse_issue_reference, IssueReference};
use gh_report::report::{action_priority, extract_repo_from_url, truncate_title};
use gh_report::time::TimeDuration;

#[test]
fn test_should_compress() {
    assert!(!should_compress(b"small"));
    let mut repetitive = Vec::new();
    for _ in 0..200 {
        repetitive.extend_from_slice(b"repeat");
    }
    assert!(should_compress(&repetitive));
    let mut random_like = Vec::new();
    for i in 0..1024 {
        random_like.push((i % 256) as u8);
    }
    assert!(!should_compress(&random_like));
}

#[test]
fn should_compress_counts_only_the_first_kilobyte() {
    let mut data = vec![b'a'; 1024];
    for i in 0..300u32 {
        data.push((i % 256) as u8);
    }
    assert!(should_compress(&data));
    let mut mixed: Vec<u8> = (0..99u32).map(|i| i as u8).collect();
    mixed.resize(1024, 0);
    assert!(should_compress(&mixed));
    let mut hundred: Vec<u8> = (0..100u32).map(|i| i as u8).collect();
    hundred.resize(1024, 0);
    assert!(!should_compress(&hundred));
}

#[test]
fn test_estimate_tokens() {
    assert_eq!(estimate_tokens("Hello world"), 3);
    assert_eq!(estimate_tokens("This is a longer sentence with more tokens"), 11);
}

#[test]
fn estimate_tokens_rounds_up() {
    assert_eq!(estimate_tokens(""), 0);
    assert_eq!(estimate_tokens("abcd"), 1);
    assert_eq!(estimate_tokens("abcde"), 2);
}

#[test]
fn test_message_constructors() {
    let user_msg = Message::user("User message".to_string());
    assert!(matches!(user_msg.role, MessageRole::User));
    assert_eq!(user_msg.content, "User message");
    let assistant_msg = Message::assistant("Assistant message".to_string());
    assert!(matches!(assistant_msg.role, MessageRole::Assistant));
    assert_eq!(assistant_msg.content, "Assistant message");
}

#[test]
fn response_text_joins_blocks() {
    let response = MessagesResponse {
        id: "msg_123".to_string(),
        content: vec![Content::Text { text: "Test ".to_string() }, Content::Text { text: "response".to_string() }],
        model: "model-a".to_string(),
        stop_reason: Some("end_turn".to_string()),
        usage: Usage { input_tokens: 10, output_tokens: 5 },
    };
    assert_eq!(response.get_text(), "Test response");
}

#[test]
fn importance_level_budget_and_model() {
    let config = Config::default();
    assert_eq!(ImportanceLevel::High.max_tokens(), 8000);
    assert_eq!(ImportanceLevel::Medium.max_tokens(), 4000);
    assert_eq!(ImportanceLevel::Low.max_tokens(), 2000);
    assert_eq!(ImportanceLevel::Medium.model(&config.claude), "sonnet");
    assert_eq!(ImportanceLevel::Low.model(&config.claude), "haiku");
}

#[test]
fn test_system_prompt() {
    let prompt = system_prompt();
    assert!(prompt.contains("GitHub activity"));
    assert!(prompt.contains("concise"));
}

#[test]
fn test_generate_title_prompt() {
    let summary = "Fixed critical bugs and added new features";
    let prompt = generate_title_prompt(summary);
    assert!(prompt.contains(summary));
    assert!(prompt.contains("8 words or fewer"));
}

#[test]
fn filter_prompt_lists_rules() {
    let prompt = filter_activities_prompt("ACTIVITY", &["security".to_string(), "perf".to_string()]);
    assert!(prompt.contains("Watch Rules:\n- security\n- perf\n\n\nAnd this GitHub activity:\n\nACTIVITY\n"));
}

#[test]
fn test_config_defaults() {
    let config = Config::default();
    assert_eq!(config.settings.max_lookback_days, 30);
    assert_eq!(config.settings.max_issues_per_report, 100);
    assert_eq!(config.settings.max_comments_per_report, 500);
    assert_eq!(config.settings.inactive_repo_threshold_days, 30);
    assert_eq!(config.claude.primary_model, "sonnet");
    assert_eq!(config.claude.secondary_model, "haiku");
    assert!(config.claude.cache_responses);
    assert_eq!(config.claude.cache_ttl_hours, 24);
    assert!(config.cache.enabled);
    assert_eq!(config.cache.ttl_hours, 24);
    assert!(config.cache.compression_enabled);
}

#[test]
fn test_importance_ordering() {
    assert!(Importance::Low < Importance::Medium);
    assert!(Importance::Medium < Importance::High);
    assert!(Importance::High < Importance::Critical);
    let mut importances = vec![Importance::Critical, Importance::Low, Importance::High, Importance::Medium];
    importances.sort();
    assert_eq!(importances, vec![Importance::Low, Importance::Medium, Importance::High, Importance::Critical]);
}

#[test]
fn test_config_validation() {
    let config = Config::default();
    assert_eq!(config.settings.max_lookback_days, 30);
    assert_eq!(config.settings.max_issues_per_report, 100);
    assert_eq!(config.settings.inactive_repo_threshold_days, 30);
    assert_eq!(config.claude.primary_model, "sonnet");
    assert_eq!(config.claude.secondary_model, "haiku");
    assert!(config.cache.enabled);
    assert_eq!(config.cache.ttl_hours, 24);
}

#[test]
fn test_config_with_custom_values() {
    let mut config = Config::default();
    config.repos.push(RepoConfig {
        name: "test/repo".to_string(),
        labels: vec!["test".to_string()],
        watch_rules: Some(vec!["pattern".to_string()]),
        importance_override: Some(Importance::High),
        custom_context: Some("Custom context".to_string()),
    });
    assert_eq!(config.repos.len(), 1);
    assert_eq!(config.repos[0].name, "test/repo");
    assert_eq!(config.repos[0].importance_override, Some(Importance::High));
}

#[test]
fn test_activity_scoring() {
    let metrics = ActivityMetrics { commits: 5, prs: 3, issues: 2, comments: 10 };
    let weights = ActivityWeights { commits: 4, prs: 3, issues: 2, comments: 1 };
    let score = calculate_activity_score(&metrics, &weights);
    assert_eq!(score, 43);
    let level = categorize_activity_level(score);
    assert_eq!(level, ActivityLevel::High);
}

#[test]
fn test_activity_level_categorization() {
    assert_eq!(categorize_activity_level(5), ActivityLevel::Low);
    assert_eq!(categorize_activity_level(15), ActivityLevel::Medium);
    assert_eq!(categorize_activity_level(45), ActivityLevel::High);
    assert_eq!(categorize_activity_level(75), ActivityLevel::VeryHigh);
}

#[test]
fn test_activity_level_display() {
    assert_eq!(ActivityLevel::Low.as_str(), "Low");
    assert_eq!(ActivityLevel::High.emoji(), "🟠");
}

#[test]
fn test_dynamic_repository_structures() {
    let metrics = ActivityMetrics { commits: 10, prs: 5, issues: 3, comments: 20 };
    assert_eq!(metrics.commits, 10);
    assert_eq!(metrics.prs, 5);
    assert_eq!(metrics.issues, 3);
    assert_eq!(metrics.comments, 20);
}

#[test]
fn test_user_error_creation() {
    let error = UserError::new("Test error").with_details("Some details").with_suggestion("Try this");
    assert_eq!(error.message, "Test error");
    assert_eq!(error.details, Some("Some details".to_string()));
    assert_eq!(error.suggestion, Some("Try this".to_string()));
}

#[test]
fn test_user_error_display() {
    let error = UserError::new("Test error").with_details("Some details");
    let display = error.to_text();
    assert_eq!(display, "Test error: Some details");
    let error = UserError::new("Test error");
    let display = error.to_text();
    assert_eq!(display, "Test error");
}

#[test]
fn test_github_cli_error_detection() {
    let user_error = user_friendly_error("gh: command not found");
    assert_eq!(user_error.message, "GitHub CLI is not installed");
    assert!(user_error.suggestion.is_some());
}

#[test]
fn test_auth_error_detection() {
    let user_error = user_friendly_error("gh auth login required");
    assert_eq!(user_error.message, "Not authenticated with GitHub");
    assert!(user_error.suggestion.unwrap().contains("gh auth login"));
}

#[test]
fn test_api_key_error_detection() {
    let user_error = user_friendly_error("ANTHROPIC_API_KEY not set");
    assert_eq!(user_error.message, "Anthropic API key not configured");
    assert!(user_error.suggestion.unwrap().contains("ANTHROPIC_API_KEY"));
}

#[test]
fn test_rate_limit_error_detection() {
    let user_error = user_friendly_error("rate limit exceeded");
    assert_eq!(user_error.message, "API rate limit exceeded");
    assert!(user_error.suggestion.unwrap().contains("Wait"));
}

#[test]
fn test_config_error_detection() {
    let user_error = user_friendly_error("Failed to read config");
    assert_eq!(user_error.message, "Configuration file not found");
    assert!(user_error.suggestion.unwrap().contains("gh-report init"));
}

#[test]
fn test_permission_error_detection() {
    let user_error = user_friendly_error("Permission denied");
    assert_eq!(user_error.message, "Permission denied");
    assert!(user_error.details.unwrap().contains("Cannot write"));
}

#[test]
fn test_network_error_detection() {
    let user_error = user_friendly_error("network connection failed");
    assert_eq!(user_error.message, "Network connection failed");
    assert!(user_error.suggestion.unwrap().contains("internet"));
}

#[test]
fn test_unknown_error_fallback() {
    let user_error = user_friendly_error("Some random error");
    assert_eq!(user_error.message, "An unexpected error occurred");
    assert_eq!(user_error.details, Some("Some random error".to_string()));
}

#[test]
fn invalid_anthropic_key_needs_both_words() {
    assert_eq!(user_friendly_error("HTTP 401 from anthropic").message, "Invalid Anthropic API key");
    assert_eq!(user_friendly_error("HTTP 401").message, "An unexpected error occurred");
    assert_eq!(user_friendly_error("Failed to parse config").message, "Invalid configuration file");
}

#[test]
fn test_error_handling() {
    let user_error = user_friendly_error("gh: command not found");
    assert_eq!(user_error.message(), "GitHub CLI is not installed");
    let user_error = user_friendly_error("ANTHROPIC_API_KEY not set");
    assert_eq!(user_error.message(), "Anthropic API key not configured");
}

#[test]
fn test_parse_github_issue_url() {
    let reference = parse_issue_reference("https://github.com/tokio-rs/tokio/issues/7546").unwrap();
    assert_eq!(reference.owner, "tokio-rs");
    assert_eq!(reference.repo, "tokio");
    assert_eq!(reference.number, 7546);
    assert_eq!(reference.is_pull_request, Some(false));
    assert_eq!(reference.repo_name(), "tokio-rs/tokio");
    assert_eq!(reference.display(), "tokio-rs/tokio#7546");
}

#[test]
fn test_parse_github_pr_url() {
    let reference = parse_issue_reference("https://github.com/rust-lang/rust/pull/123456").unwrap();
    assert_eq!(reference.owner, "rust-lang");
    assert_eq!(reference.repo, "rust");
    assert_eq!(reference.number, 123456);
    assert_eq!(reference.is_pull_request, Some(true));
    assert_eq!(reference.url(), "https://github.com/rust-lang/rust/pull/123456");
}

#[test]
fn test_parse_shorthand_reference() {
    let reference = parse_issue_reference("tokio-rs/tokio#7546").unwrap();
    assert_eq!(reference.owner, "tokio-rs");
    assert_eq!(reference.repo, "tokio");
    assert_eq!(reference.number, 7546);
    assert_eq!(reference.is_pull_request, None);
    assert_eq!(reference.display(), "tokio-rs/tokio#7546");
}

#[test]
fn test_parse_various_shorthand_formats() {
    let reference = parse_issue_reference("microsoft/TypeScript#123").unwrap();
    assert_eq!(reference.owner, "microsoft");
    assert_eq!(reference.repo, "TypeScript");
    assert_eq!(reference.number, 123);
    let reference = parse_issue_reference("user/repo123#456").unwrap();
    assert_eq!(reference.owner, "user");
    assert_eq!(reference.repo, "repo123");
    assert_eq!(reference.number, 456);
}

#[test]
fn test_parse_invalid_formats() {
    assert!(parse_issue_reference("tokio-rs/tokio").is_err());
    assert!(parse_issue_reference("tokio#123").is_err());
    assert!(parse_issue_reference("tokio-rs/tokio#abc").is_err());
    assert!(parse_issue_reference("https://gitlab.com/owner/repo/issues/123").is_err());
    assert!(parse_issue_reference("").is_err());
    assert!(parse_issue_reference("123").is_err());
}

#[test]
fn parse_reference_trims_and_rejects_other_paths() {
    let reference = parse_issue_reference("  a/b#+7 \n").unwrap();
    assert_eq!(reference.number, 7);
    assert!(parse_issue_reference("https://github.com/a/b/commits/1").is_err());
    assert!(parse_issue_reference("a/b#4294967296").is_err());
    assert_eq!(parse_issue_reference("a/b#4294967295").unwrap().number, u32::MAX);
}

#[test]
fn test_reference_url_generation() {
    let reference = IssueReference { owner: "owner".to_string(), repo: "repo".to_string(), number: 123, is_pull_request: None };
    assert_eq!(reference.url(), "https://github.com/owner/repo/issues/123");
    let reference = IssueReference { owner: "owner".to_string(), repo: "repo".to_string(), number: 123, is_pull_request: Some(false) };
    assert_eq!(reference.url(), "https://github.com/owner/repo/issues/123");
    let reference = IssueReference { owner: "owner".to_string(), repo: "repo".to_string(), number: 123, is_pull_request: Some(true) };
    assert_eq!(reference.url(), "https://github.com/owner/repo/pull/123");
}

#[test]
fn test_truncate_title() {
    assert_eq!(truncate_title("Short title", 50), "Short title");
    let long = "This is a very long title that should be truncated because it exceeds the maximum length";
    let truncated = truncate_title(long, 20);
    assert_eq!(truncated, "This is a very lo...");
    assert_eq!(truncated.len(), 20);
    assert_eq!(truncate_title("Exactly twenty chars", 20), "Exactly twenty chars");
}

#[test]
fn test_action_priority() {
    assert!(action_priority("opened") < action_priority("closed"));
    assert!(action_priority("closed") < action_priority("commented"));
    assert!(action_priority("reviewed") < action_priority("unknown"));
}

#[test]
fn test_extract_repo_from_url() {
    assert_eq!(extract_repo_from_url("https://github.com/rust-lang/rust/issues/123"), Some("rust-lang/rust".to_string()));
    assert_eq!(extract_repo_from_url("https://github.com/owner/repo/pull/456"), Some("owner/repo".to_string()));
    assert_eq!(extract_repo_from_url("https://example.com/foo/bar"), None);
}

#[test]
fn test_parse_days() {
    assert_eq!("3d".parse::<TimeDuration>().unwrap().as_days(), 3);
    assert_eq!("3D".parse::<TimeDuration>().unwrap().as_days(), 3);
    assert_eq!("3".parse::<TimeDuration>().unwrap().as_days(), 3);
    assert_eq!("1".parse::<TimeDuration>().unwrap().as_days(), 1);
}

#[test]
fn test_parse_hours() {
    assert_eq!("1h".parse::<TimeDuration>().unwrap().as_days(), 1);
    assert_eq!("12h".parse::<TimeDuration>().unwrap().as_days(), 1);
    assert_eq!("24h".parse::<TimeDuration>().unwrap().as_days(), 1);
    assert_eq!("25h".parse::<TimeDuration>().unwrap().as_days(), 2);
    assert_eq!("48h".parse::<TimeDuration>().unwrap().as_days(), 2);
}

#[test]
fn test_parse_weeks() {
    assert_eq!("1w".parse::<TimeDuration>().unwrap().as_days(), 7);
    assert_eq!("2w".parse::<TimeDuration>().unwrap().as_days(), 14);
    assert_eq!("3W".parse::<TimeDuration>().unwrap().as_days(), 21);
}

#[test]
fn test_parse_errors() {
    assert!("".parse::<TimeDuration>().is_err());
    assert!("0".parse::<TimeDuration>().is_err());
    assert!("0d".parse::<TimeDuration>().is_err());
    assert!("abc".parse::<TimeDuration>().is_err());
    assert!("3x".parse::<TimeDuration>().is_err());
    assert!("3.5d".parse::<TimeDuration>().is_err());
}

#[test]
fn duration_text_and_limits() {
    assert_eq!(TimeDuration { days: 3 }.to_text(), "3 days");
    assert_eq!(" 2d ".parse::<TimeDuration>().unwrap().as_days(), 2);
    assert!("700000000w".parse::<TimeDuration>().is_err());
    assert_eq!("4294967295h".parse::<TimeDuration>().unwrap().as_days(), 178956971);
}

#[test]
fn test_compress_decompress() {
    let original = b"Hello, world! This is a test string that should compress well.";
    let compressed = gh_report::compression::compress_data(original).unwrap();
    assert!(compressed.len() > 0);
    assert_ne!(compressed.as_slice(), &original[..]);
    let decompressed = gh_report::compression::decompress_data(&compressed).unwrap();
    assert_eq!(decompressed, original);
}

#[test]
fn test_compress_empty() {
    let original = b"";
    let compressed = gh_report::compression::compress_data(original).unwrap();
    let decompressed = gh_report::compression::decompress_data(&compressed).unwrap();
    assert_eq!(decompressed, original);
}

#[test]
fn test_compress_large_repetitive() {
    let mut original = Vec::new();
    for _ in 0..1000 {
        original.extend_from_slice(b"abcdefghij");
    }
    let compressed = gh_report::compression::compress_data(&original).unwrap();
    assert!(compressed.len() < original.len() / 2);
    let decompressed = gh_report::compression::decompress_data(&compressed).unwrap();
    assert_eq!(decompressed, original);
}

#[test]
fn decompress_rejects_plain_bytes() {
    assert!(gh_report::compression::decompress_data(b"not gzip at all").is_err());
}
