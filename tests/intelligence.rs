use gh_report::analysis::{analyze_activities, IntelligentAnalyzer, PrioritizedIssue, Urgency};
use gh_report::config::{Config, Importance, RepoConfig};
use gh_report::context::{build_context_prompt, determine_urgency, extract_action_items, generate_action, generate_reason};
use gh_report::github::{Author, CommentCount, Issue, IssueState, Label, RepoActivity};
use gh_report::scoring::{calculate_priority_score, score_to_priority, Priority, PriorityScore};
use gh_report::watch_rules::{build_searchable_text, MatchedRule, WatchRule, WatchRuleEngine};

const NOW: i64 = 1_704_931_200;

fn label(name: &str) -> Label {
    Label { name: name.to_string(), color: Some("red".to_string()), description: None }
}

fn issue(number: u32, title: &str, body: Option<&str>, labels: Vec<Label>, comments: u32, is_pr: bool) -> Issue {
    let kind = if is_pr { "pull" } else { "issues" };
    Issue {
        number,
        title: title.to_string(),
        body: body.map(|b| b.to_string()),
        state: IssueState::Open,
        author: Author { login: "user".to_string(), user_type: None },
        created_at: NOW,
        updated_at: NOW,
        labels,
        url: format!("https://github.com/test/repo/{}/{}", kind, number),
        comments: CommentCount { total_count: comments },
        is_pull_request: is_pr,
    }
}

fn rule(name: &str, patterns: &[&str]) -> WatchRule {
    WatchRule { name: name.to_string(), patterns: patterns.iter().map(|p| p.to_string()).collect() }
}

fn matched(rule: &str, text: &str, confidence: u32) -> MatchedRule {
    MatchedRule { rule_type: rule.to_string(), matched_text: text.to_string(), confidence }
}

fn profile(name: &str, active: &[&str], importance: Option<Importance>) -> RepoConfig {
    RepoConfig {
        name: name.to_string(),
        labels: active.iter().map(|a| a.to_string()).collect(),
        watch_rules: None,
        importance_override: importance,
        custom_context: None,
    }
}

fn prioritized(issue: Issue, total: u32, matches: Vec<MatchedRule>, importance: Importance) -> PrioritizedIssue {
    PrioritizedIssue {
        issue,
        repo: "test/repo".to_string(),
        score: PriorityScore {
            total,
            importance_score: 0,
            recency_score: 0,
            activity_score: 0,
            rule_match_score: 0,
            label_score: 0,
        },
        matched_rules: matches,
        importance,
        context: None,
    }
}

#[test]
fn test_watch_rule_matching() {
    let rules = vec![
        rule("security_issues", &["security", "vulnerability"]),
        rule("breaking_changes", &["BREAKING", "migration"]),
    ];
    let engine = WatchRuleEngine::new(&rules);
    let issue = issue(42, "Security vulnerability in auth module", Some("Found a critical security issue"), vec![], 0, false);
    let matches = engine.check_issue(&issue, &["security_issues".to_string()]);
    assert_eq!(matches.len(), 1);
    assert_eq!(matches[0].rule_type, "security_issues");
    assert_eq!(matches[0].matched_text, "security");
}

#[test]
fn test_label_based_matching() {
    let engine = WatchRuleEngine::new(&vec![]);
    let issue = issue(100, "Update API", None, vec![label("breaking-change")], 0, false);
    let matches = engine.check_issue(&issue, &[]);
    assert!(!matches.is_empty());
    assert_eq!(matches[0].rule_type, "breaking_changes");
    assert_eq!(matches[0].confidence, 90);
}

#[test]
fn test_all_activity_rule() {
    let engine = WatchRuleEngine::new(&vec![rule("all_activity", &[])]);
    let issue = issue(1, "Random issue", None, vec![], 0, false);
    let matches = engine.check_issue(&issue, &["all_activity".to_string()]);
    assert_eq!(matches.len(), 1);
    assert_eq!(matches[0].rule_type, "all_activity");
}

#[test]
fn first_pattern_in_list_order_wins() {
    let engine = WatchRuleEngine::new(&vec![rule("api_changes", &["endpoint", "API"])]);
    let issue = issue(5, "New API endpoint", None, vec![], 0, false);
    let matches = engine.check_issue(&issue, &["api_changes".to_string()]);
    assert_eq!(matches.len(), 1);
    assert_eq!(matches[0].matched_text, "endpoint");
    assert_eq!(matches[0].confidence, 100);
}

#[test]
fn matching_ignores_case_and_mention_placeholders() {
    let engine = WatchRuleEngine::new(&vec![rule("mentions", &["@{user}", "PING"])]);
    let hit = issue(6, "please ping the team", None, vec![], 0, false);
    let matches = engine.check_issue(&hit, &["mentions".to_string()]);
    assert_eq!(matches.len(), 1);
    assert_eq!(matches[0].matched_text, "PING");
    let only_placeholder = WatchRuleEngine::new(&vec![rule("mentions", &["@{user}"])]);
    let literal = issue(7, "@{user} said hi", None, vec![], 0, false);
    assert!(only_placeholder.check_issue(&literal, &["mentions".to_string()]).is_empty());
}

#[test]
fn unknown_and_inactive_rules_do_not_match() {
    let engine = WatchRuleEngine::new(&vec![rule("performance", &["slow"])]);
    let issue = issue(8, "slow build", None, vec![], 0, false);
    assert!(engine.check_issue(&issue, &["missing".to_string()]).is_empty());
    assert!(engine.check_issue(&issue, &[]).is_empty());
}

#[test]
fn label_heuristics_fire_once_each() {
    let engine = WatchRuleEngine::new(&vec![rule("security_issues", &["auth"])]);
    let labels = vec![label("security"), label("Vulnerability"), label("major"), label("breaking")];
    let issue = issue(9, "auth bypass", None, labels, 0, false);
    let matches = engine.check_issue(&issue, &["security_issues".to_string()]);
    assert_eq!(matches.len(), 2);
    assert_eq!(matches[0].rule_type, "security_issues");
    assert_eq!(matches[0].matched_text, "auth");
    assert_eq!(matches[1].rule_type, "breaking_changes");
    assert_eq!(matches[1].matched_text, "major");
    assert_eq!(matches[1].confidence, 90);
}

#[test]
fn searchable_text_joins_title_body_and_labels() {
    let issue = issue(10, "Title", Some("Body"), vec![label("bug"), label("ui")], 0, false);
    assert_eq!(build_searchable_text(&issue), "Title Body bug ui ");
    let bare = self::issue(11, "Only", None, vec![], 0, false);
    assert_eq!(build_searchable_text(&bare), "Only ");
}

#[test]
fn repo_patterns_match_rules_and_names() {
    let engine = WatchRuleEngine::new(&vec![rule("api_changes", &["tokio"]), rule("other", &["x"])]);
    let matches = engine.check_repo_patterns("Tokio-rs/tokio", &["TOKIO".to_string(), "tokio".to_string()]);
    assert_eq!(matches.len(), 3);
    assert_eq!(matches[0].rule_type, "repo_pattern");
    assert_eq!(matches[0].matched_text, "TOKIO");
    assert_eq!(matches[0].confidence, 70);
    assert_eq!(matches[1].rule_type, "api_changes");
    assert_eq!(matches[1].confidence, 80);
    assert_eq!(matches[2].rule_type, "repo_pattern");
}

#[test]
fn test_priority_scoring() {
    let mut issue = issue(42, "Test Issue", Some("Test body"), vec![label("bug")], 3, false);
    issue.created_at = NOW - 24 * 3600;
    issue.updated_at = NOW - 2 * 3600;
    let matched_rules = vec![matched("security_issues", "security", 100)];
    let score = calculate_priority_score(&issue, Importance::High, &matched_rules, false, NOW);
    assert_eq!(score.importance_score, 30);
    assert_eq!(score.recency_score, 30);
    assert_eq!(score.activity_score, 6);
    assert_eq!(score.rule_match_score, 30);
    assert_eq!(score.label_score, 15);
    let priority = score_to_priority(score.total);
    assert_eq!(priority, Priority::Critical);
}

#[test]
fn test_pr_bonus() {
    let pr = issue(100, "Feature PR", None, vec![], 0, true);
    let score = calculate_priority_score(&pr, Importance::Medium, &[], true, NOW);
    assert!(score.total >= 10);
    assert_eq!(score.total, 60);
}

#[test]
fn recency_buckets_follow_age() {
    let ages: [(i64, u32); 8] =
        [(-5, 30), (0, 30), (6, 30), (7, 25), (24, 25), (72, 20), (168, 15), (337, 5)];
    for (hours, points) in ages {
        let mut item = issue(1, "t", None, vec![], 0, false);
        item.updated_at = NOW - hours * 3600;
        let score = calculate_priority_score(&item, Importance::Low, &[], false, NOW);
        assert_eq!(score.recency_score, points, "age {} hours", hours);
    }
}

#[test]
fn unknown_rule_names_score_five_and_comments_cap() {
    let item = issue(1, "t", None, vec![label("misc"), label("Docs-Test")], 40, false);
    let rules = vec![matched("custom", "x", 100), matched("mentions", "y", 100)];
    let score = calculate_priority_score(&item, Importance::Critical, &rules, false, NOW);
    assert_eq!(score.rule_match_score, 10);
    assert_eq!(score.label_score, 5);
    assert_eq!(score.activity_score, 20);
    assert_eq!(score.importance_score, 40);
    let unknown_only = vec![matched("custom", "x", 100)];
    let score = calculate_priority_score(&item, Importance::Critical, &unknown_only, false, NOW);
    assert_eq!(score.rule_match_score, 5);
}

#[test]
fn priority_buckets() {
    assert_eq!(score_to_priority(0), Priority::Low);
    assert_eq!(score_to_priority(30), Priority::Low);
    assert_eq!(score_to_priority(31), Priority::Medium);
    assert_eq!(score_to_priority(60), Priority::Medium);
    assert_eq!(score_to_priority(61), Priority::High);
    assert_eq!(score_to_priority(90), Priority::High);
    assert_eq!(score_to_priority(91), Priority::Critical);
    assert_eq!(score_to_priority(u32::MAX), Priority::Critical);
}

#[test]
fn test_build_context_prompt() {
    let prompt = build_context_prompt();
    assert!(prompt.contains("Summarization Guidelines"));
    assert!(prompt.contains("security issues"));
}

#[test]
fn test_extract_action_items() {
    let item = issue(42, "Security fix", None, vec![label("security")], 0, false);
    let mut p = prioritized(item, 90, vec![matched("security_issues", "security", 90)], Importance::High);
    p.score.importance_score = 30;
    p.score.recency_score = 30;
    p.score.rule_match_score = 30;
    let actions = extract_action_items(&vec![p]);
    assert_eq!(actions.len(), 1);
    assert_eq!(actions[0].urgency, Urgency::Critical);
    assert!(actions[0].description.contains("security"));
    assert!(actions[0].reason.contains("Security concern"));
    assert_eq!(actions[0].description, "Review and address security issue #42");
    assert_eq!(actions[0].reason, "Security concern, High priority repository");
}

#[test]
fn test_urgency_determination() {
    let item = issue(100, "Test", None, vec![], 15, true);
    let p = prioritized(item, 70, vec![], Importance::Medium);
    assert_eq!(determine_urgency(&p), Urgency::High);
}

#[test]
fn urgency_rules_in_order() {
    let crit = prioritized(issue(1, "t", None, vec![], 0, false), 81, vec![matched("x", "x", 100)], Importance::Critical);
    assert_eq!(determine_urgency(&crit), Urgency::Critical);
    let not_crit = prioritized(issue(1, "t", None, vec![], 0, false), 80, vec![matched("x", "x", 100)], Importance::Critical);
    assert_eq!(determine_urgency(&not_crit), Urgency::High);
    let review = prioritized(issue(1, "t", None, vec![], 0, false), 10, vec![matched("review_requests", "r", 100)], Importance::Low);
    assert_eq!(determine_urgency(&review), Urgency::High);
    let medium = prioritized(issue(1, "t", None, vec![], 0, false), 31, vec![matched("x", "x", 100)], Importance::Low);
    assert_eq!(determine_urgency(&medium), Urgency::Medium);
    let low = prioritized(issue(1, "t", None, vec![], 0, false), 30, vec![matched("x", "x", 100)], Importance::Low);
    assert_eq!(determine_urgency(&low), Urgency::Low);
}

#[test]
fn actions_follow_precedence() {
    let pr = issue(7, "t", None, vec![], 0, true);
    assert_eq!(generate_action(&pr, &vec![matched("review_requests", "r", 100)]).unwrap(), "Review PR #7: https://github.com/test/repo/pull/7");
    assert_eq!(generate_action(&pr, &vec![matched("breaking_changes", "b", 90)]).unwrap(), "Review breaking change in PR #7");
    assert_eq!(generate_action(&pr, &vec![]).unwrap(), "Review PR #7");
    let busy = issue(12, "t", None, vec![], 11, false);
    assert_eq!(generate_action(&busy, &vec![]).unwrap(), "Check active discussion on issue #12");
    let bug = issue(13, "t", None, vec![label("Urgent")], 0, false);
    assert_eq!(generate_action(&bug, &vec![]).unwrap(), "Address issue #13");
    let quiet = issue(14, "t", None, vec![label("question")], 10, false);
    assert!(generate_action(&quiet, &vec![matched("performance", "p", 100)]).is_none());
}

#[test]
fn reasons_list_rules_importance_and_comments() {
    let item = issue(3, "t", None, vec![], 25, false);
    let p = prioritized(
        item,
        50,
        vec![matched("performance", "p", 100), matched("custom", "c", 100), matched("api_changes", "a", 100)],
        Importance::Critical,
    );
    assert_eq!(generate_reason(&p), "Performance impact, API change, Critical repository, 25 comments");
    let plain = prioritized(issue(4, "t", None, vec![], 0, false), 10, vec![matched("custom", "c", 100)], Importance::Low);
    assert_eq!(generate_reason(&plain), "Requires attention");
}

#[test]
fn action_items_sorted_stably_and_capped() {
    let mut list = Vec::new();
    for n in 0..12u32 {
        let rules = if n % 3 == 0 { vec![matched("security_issues", "s", 100)] } else { vec![matched("x", "x", 100)] };
        list.push(prioritized(issue(n, "t", None, vec![], 0, true), 10, rules, Importance::Low));
    }
    let actions = extract_action_items(&list);
    assert_eq!(actions.len(), 10);
    let numbers: Vec<u32> = actions.iter().map(|a| a.issue.number).collect();
    assert_eq!(numbers, vec![0, 3, 6, 9, 1, 2, 4, 5, 7, 8]);
    assert_eq!(actions[0].urgency, Urgency::Critical);
    assert_eq!(actions[4].urgency, Urgency::Low);
    let quiet = prioritized(issue(1, "t", None, vec![], 0, false), 10, vec![matched("x", "x", 100)], Importance::Low);
    assert!(extract_action_items(&vec![quiet]).is_empty());
}

#[test]
fn test_intelligent_analyzer_creation() {
    let config = Config::default();
    let analyzer = IntelligentAnalyzer::new(&config);
    let result = analyzer.analyze(&vec![], NOW);
    assert!(result.prioritized_issues.is_empty());
    assert!(result.action_items.is_empty());
}

#[test]
fn test_analyze_with_issues() {
    let config = Config::default();
    let analyzer = IntelligentAnalyzer::new(&config);
    let mut activity = RepoActivity::empty();
    activity.new_issues.push(issue(42, "Security vulnerability found", Some("Critical security issue"), vec![label("security")], 5, false));
    let result = analyzer.analyze(&vec![("test/repo".to_string(), activity)], NOW);
    assert!(!result.prioritized_issues.is_empty());
}

#[test]
fn test_intelligent_analysis() {
    let config = Config::default();
    let analyzer = IntelligentAnalyzer::new(&config);
    let mut activity = RepoActivity::empty();
    activity.new_issues.push(issue(1, "BREAKING: API change", Some("This is a breaking change"), vec![label("breaking-change")], 0, false));
    let result = analyzer.analyze(&vec![("test/repo".to_string(), activity)], NOW);
    assert!(!result.prioritized_issues.is_empty());
    assert_eq!(result.prioritized_issues[0].matched_rules[0].rule_type, "breaking_changes");
}

#[test]
fn security_issue_in_high_importance_repo() {
    let engine = WatchRuleEngine::new(&vec![rule("security_issues", &["security"])]);
    let profiles = vec![profile("org/app", &["security_issues"], Some(Importance::High))];
    let mut activity = RepoActivity::empty();
    activity.new_issues.push(issue(5, "Security vulnerability in auth module", None, vec![label("security")], 0, false));
    let result = analyze_activities(&vec![("org/app".to_string(), activity)], &engine, &profiles, NOW);
    assert_eq!(result.prioritized_issues.len(), 1);
    let p = &result.prioritized_issues[0];
    assert_eq!(p.matched_rules.len(), 1);
    assert_eq!(p.matched_rules[0].rule_type, "security_issues");
    assert_eq!(p.matched_rules[0].matched_text, "security");
    assert_eq!(p.matched_rules[0].confidence, 100);
    assert_eq!(p.score.importance_score, 30);
    assert_eq!(p.score.recency_score, 30);
    assert_eq!(p.score.activity_score, 0);
    assert_eq!(p.score.rule_match_score, 30);
    assert_eq!(p.score.label_score, 20);
    assert_eq!(p.score.total, 110);
    assert_eq!(determine_urgency(p), Urgency::Critical);
    assert_eq!(result.action_items[0].urgency, Urgency::Critical);
}

#[test]
fn busy_pull_request_scores_eighty() {
    let pr = issue(9, "Refactor", None, vec![], 15, true);
    let score = calculate_priority_score(&pr, Importance::Medium, &[], true, NOW);
    assert_eq!(score.importance_score, 20);
    assert_eq!(score.recency_score, 30);
    assert_eq!(score.activity_score, 20);
    assert_eq!(score.rule_match_score, 0);
    assert_eq!(score.label_score, 0);
    assert_eq!(score.total, 80);
    let p = prioritized(pr, score.total, vec![], Importance::Medium);
    assert_eq!(determine_urgency(&p), Urgency::High);
}

#[test]
fn empty_activity_gives_empty_analysis() {
    let engine = WatchRuleEngine::new(&vec![rule("security_issues", &["security"])]);
    let result = analyze_activities(&vec![], &engine, &vec![], NOW);
    assert!(result.prioritized_issues.is_empty());
    assert!(result.action_items.is_empty());
    assert!(result.matched_rules_by_repo.is_empty());
    assert_eq!(result.context_prompt, build_context_prompt());
}

#[test]
fn all_activity_profile_matches_every_issue() {
    let engine = WatchRuleEngine::new(&vec![rule("all_activity", &[])]);
    let profiles = vec![profile("org/lib", &["all_activity"], None)];
    let mut activity = RepoActivity::empty();
    activity.new_issues.push(issue(1, "Random issue", None, vec![], 0, false));
    activity.updated_prs.push(issue(2, "Tweak", Some("small"), vec![label("chore")], 0, true));
    let result = analyze_activities(&vec![("org/lib".to_string(), activity)], &engine, &profiles, NOW);
    assert_eq!(result.prioritized_issues.len(), 2);
    for p in &result.prioritized_issues {
        assert_eq!(p.matched_rules.len(), 1);
        assert_eq!(p.matched_rules[0].rule_type, "all_activity");
        assert_eq!(p.matched_rules[0].matched_text, "all");
        assert_eq!(p.matched_rules[0].confidence, 100);
        assert_eq!(p.importance, Importance::Medium);
    }
    assert_eq!(result.prioritized_issues[0].issue.number, 2);
    assert_eq!(result.matched_rules_by_repo[0].matches.len(), 2);
}

#[test]
fn analysis_orders_by_total_and_lists_tiers() {
    let engine = WatchRuleEngine::new(&vec![rule("all_activity", &[])]);
    let mut profile_a = profile("a/one", &["all_activity"], Some(Importance::Low));
    profile_a.custom_context = Some("legacy".to_string());
    let profiles = vec![profile_a, profile("b/two", &["all_activity"], Some(Importance::Critical))];
    let mut a = RepoActivity::empty();
    a.new_issues.push(issue(1, "a1", None, vec![], 0, false));
    a.new_prs.push(issue(2, "a2", None, vec![], 0, true));
    let mut b = RepoActivity::empty();
    b.updated_issues.push(issue(3, "b1", None, vec![], 0, false));
    let unmatched = RepoActivity::empty();
    let acts = vec![("a/one".to_string(), a), ("b/two".to_string(), b), ("c/three".to_string(), unmatched)];
    let result = analyze_activities(&acts, &engine, &profiles, NOW);
    let order: Vec<u32> = result.prioritized_issues.iter().map(|p| p.issue.number).collect();
    assert_eq!(order, vec![3, 2, 1]);
    assert_eq!(result.repo_importances.len(), 3);
    assert_eq!(result.repo_importances[2].importance, Importance::Medium);
    let expected = format!(
        "{}\n### Critical importance repositories\n- b/two\n\n### Medium importance repositories\n- c/three\n\n### Low importance repositories\n- a/one: legacy\n",
        build_context_prompt()
    );
    assert_eq!(result.context_prompt, expected);
}

#[test]
fn analysis_is_repeatable() {
    let engine = WatchRuleEngine::new(&vec![rule("security_issues", &["auth"]), rule("all_activity", &[])]);
    let profiles = vec![profile("x/y", &["security_issues", "all_activity"], Some(Importance::High))];
    let build = || {
        let mut act = RepoActivity::empty();
        act.new_issues.push(issue(1, "auth bug", None, vec![label("bug")], 12, false));
        act.new_prs.push(issue(2, "docs", None, vec![], 0, true));
        vec![("x/y".to_string(), act)]
    };
    let first = analyze_activities(&build(), &engine, &profiles, NOW);
    let second = analyze_activities(&build(), &engine, &profiles, NOW);
    assert_eq!(format!("{:?}", first), format!("{:?}", second));
}
