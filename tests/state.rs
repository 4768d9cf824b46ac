use gh_report::state::{RepoState, State};

const NOW: i64 = 1_704_931_200;
const DAY: i64 = 86_400;

#[test]
fn test_cleanup_inactive_repos() {
    let mut state = State::default();
    state.tracked_repos.push(("old/repo".to_string(), RepoState { last_seen: NOW - 40 * DAY, activity_score: 10, auto_tracked: true }));
    state.tracked_repos.push(("recent/repo".to_string(), RepoState { last_seen: NOW - 5 * DAY, activity_score: 20, auto_tracked: true }));
    state.tracked_repos.push(("manual/repo".to_string(), RepoState { last_seen: NOW - 60 * DAY, activity_score: 5, auto_tracked: false }));
    let removed = state.cleanup_inactive_repos(30, NOW);
    assert_eq!(removed.len(), 1);
    assert_eq!(removed[0], "old/repo");
    assert_eq!(state.tracked_repos.len(), 2);
    assert!(state.tracked_repos.iter().any(|(n, _)| n == "recent/repo"));
    assert!(state.tracked_repos.iter().any(|(n, _)| n == "manual/repo"));
}

#[test]
fn since_timestamp_is_bounded_by_lookback() {
    let mut state = State::default();
    assert_eq!(state.get_since_timestamp(30, NOW), NOW - 30 * DAY);
    state.update_last_run(NOW - DAY);
    assert_eq!(state.get_since_timestamp(30, NOW), NOW - DAY);
    state.update_last_run(NOW - 90 * DAY);
    assert_eq!(state.get_since_timestamp(30, NOW), NOW - 30 * DAY);
    assert_eq!(State::default().get_since_timestamp(u32::MAX, i64::MIN + 5), i64::MIN);
}

#[test]
fn tracking_replaces_and_removal_spares_manual_repos() {
    let mut state = State::default();
    state.update_repo("a/b".to_string(), 3, true, NOW - 50 * DAY);
    state.add_repository("c/d", NOW - 50 * DAY);
    assert!(state.should_remove_repo("a/b", 30, NOW));
    assert!(!state.should_remove_repo("c/d", 30, NOW));
    assert!(!state.should_remove_repo("x/y", 30, NOW));
    state.update_repo("a/b".to_string(), 7, true, NOW);
    assert_eq!(state.tracked_repos.len(), 2);
    assert_eq!(state.tracked_repos[0].1.activity_score, 7);
    assert!(!state.should_remove_repo("a/b", 30, NOW));
}
