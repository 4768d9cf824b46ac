use gh_report::events::{
    event_action_text, format_activity_event, extract_issue_key, extract_title_from_event, filter_events, group_events_by_action, EventFacts,
    IssueKey,
};

fn event(kind: &str, actor: &str, action: Option<&str>) -> EventFacts {
    EventFacts {
        event_type: kind.to_string(),
        actor: actor.to_string(),
        action: action.map(|a| a.to_string()),
        pr_number: None,
        pr_title: None,
        issue_number: None,
        issue_title: None,
        issue_is_pr: false,
        commit_count: None,
        ref_type: None,
    }
}

#[test]
fn filter_keeps_default_types_without_labelling() {
    let events = vec![
        event("PushEvent", "a", None),
        event("IssuesEvent", "b", Some("labeled")),
        event("IssuesEvent", "c", Some("opened")),
        event("PullRequestEvent", "d", Some("closed")),
        event("WatchEvent", "e", None),
    ];
    assert_eq!(filter_events(&events, None, None), vec![2, 3]);
    let only_push = vec!["PushEvent".to_string()];
    assert_eq!(filter_events(&events, Some(&only_push), None), vec![0]);
    let no_prs = vec!["PullRequestEvent".to_string()];
    assert_eq!(filter_events(&events, None, Some(&no_prs)), vec![2]);
}

#[test]
fn issue_keys_and_titles_by_type() {
    let mut pr = event("PullRequestEvent", "a", Some("opened"));
    pr.pr_number = Some(7);
    pr.pr_title = Some("Add thing".to_string());
    assert_eq!(extract_issue_key(&pr), Some(IssueKey { issue_number: 7, is_pr: true }));
    assert_eq!(extract_title_from_event(&pr), Some("Add thing".to_string()));
    let mut comment = event("IssueCommentEvent", "b", Some("created"));
    comment.issue_number = Some(9);
    comment.issue_is_pr = true;
    comment.issue_title = Some("Bug".to_string());
    assert_eq!(extract_issue_key(&comment), Some(IssueKey { issue_number: 9, is_pr: true }));
    assert_eq!(extract_title_from_event(&comment), Some("Bug".to_string()));
    let mut review = event("PullRequestReviewEvent", "c", Some("submitted"));
    review.pr_number = Some(3);
    assert_eq!(extract_issue_key(&review), None);
    assert_eq!(extract_title_from_event(&event("PushEvent", "d", None)), None);
}

#[test]
fn action_wording() {
    assert_eq!(event_action_text(&event("PullRequestEvent", "a", Some("ready_for_review"))), "ready for review");
    assert_eq!(event_action_text(&event("PullRequestEvent", "a", None)), "updated");
    assert_eq!(event_action_text(&event("PullRequestReviewEvent", "a", Some("dismissed"))), "review activity");
    assert_eq!(event_action_text(&event("IssueCommentEvent", "a", Some("created"))), "commented");
    assert_eq!(event_action_text(&event("ForkEvent", "a", None)), "ForkEvent");
}

#[test]
fn grouping_orders_actions_and_actors() {
    let events = vec![
        event("IssueCommentEvent", "zed", Some("created")),
        event("IssuesEvent", "bob", Some("closed")),
        event("IssueCommentEvent", "amy", Some("created")),
        event("PullRequestEvent", "bob", Some("opened")),
        event("IssueCommentEvent", "zed", Some("created")),
        event("ForkEvent", "kim", None),
        event("IssuesEvent", "amy", Some("transferred")),
    ];
    let groups = group_events_by_action(&events);
    let expected: Vec<(String, Vec<String>)> = vec![
        ("opened".to_string(), vec!["@bob".to_string()]),
        ("closed".to_string(), vec!["@bob".to_string()]),
        ("commented".to_string(), vec!["@amy".to_string(), "@zed".to_string()]),
        ("ForkEvent".to_string(), vec!["@kim".to_string()]),
        ("transferred".to_string(), vec!["@amy".to_string()]),
    ];
    assert_eq!(groups, expected);
}

#[test]
fn event_lines() {
    let mut push = event("PushEvent", "ann", None);
    push.commit_count = Some(3);
    assert_eq!(format_activity_event(&push), "@ann pushed 3 commit(s)");
    assert_eq!(format_activity_event(&event("PushEvent", "ann", None)), "@ann pushed commits");
    let mut pr = event("PullRequestEvent", "bo", Some("opened"));
    pr.pr_number = Some(12);
    assert_eq!(format_activity_event(&pr), "@bo opened PR #12");
    assert_eq!(format_activity_event(&event("IssuesEvent", "cy", Some("closed"))), "@cy closed issue");
    assert_eq!(format_activity_event(&event("IssuesEvent", "cy", None)), "@cy issue activity");
    let mut create = event("CreateEvent", "di", None);
    create.ref_type = Some("branch".to_string());
    assert_eq!(format_activity_event(&create), "@di created branch");
    assert_eq!(format_activity_event(&event("WatchEvent", "ed", None)), "@ed starred repository");
    assert_eq!(format_activity_event(&event("GollumEvent", "fi", None)), "@fi GollumEvent event");
}
