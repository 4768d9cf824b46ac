//! The additive priority score of an issue and its coarse priority label.
use vstd::prelude::*;
use crate::config::Importance;
use crate::github::{Issue, IssueView, label_names};
use crate::text::{contains, has_substring, lower_of, lowercase, str_eq};
use crate::watch_rules::{MatchView, MatchedRule, matches_view};

verus! {

/// Priority score of an issue or pull request. `total` is the sum of the
/// five components plus 10 for a pull request; that bonus has no field.
#[derive(Debug, Clone, Copy, PartialEq, Eq, Structural)]
pub struct PriorityScore {
    pub total: u32,
    pub importance_score: u32,
    pub recency_score: u32,
    pub activity_score: u32,
    pub rule_match_score: u32,
    pub label_score: u32,
}

pub open spec fn importance_points(i: Importance) -> u32 {
    match i {
        Importance::Critical => 40,
        Importance::High => 30,
        Importance::Medium => 20,
        Importance::Low => 10,
    }
}

/// Whole hours from `updated` to `now`, at least 1.
pub open spec fn age_hours(now: i64, updated: i64) -> int {
    let h = (now - updated) / 3600;
    if h < 1 {
        1
    } else {
        h
    }
}

pub open spec fn recency_points(hours: int) -> u32 {
    if hours <= 6 {
        30
    } else if hours <= 24 {
        25
    } else if hours <= 72 {
        20
    } else if hours <= 168 {
        15
    } else if hours <= 336 {
        10
    } else {
        5
    }
}

pub open spec fn activity_points(comments: u32) -> u32 {
    if comments < 10 {
        (comments * 2) as u32
    } else {
        20
    }
}

/// Points of a matched rule by its name; unknown names get 5.
pub open spec fn rule_points(name: Seq<char>) -> u32 {
    if name == "security_issues"@ {
        30
    } else if name == "breaking_changes"@ {
        25
    } else if name == "api_changes"@ {
        20
    } else if name == "review_requests"@ {
        15
    } else if name == "performance"@ {
        15
    } else if name == "mentions"@ {
        10
    } else {
        5
    }
}

pub open spec fn max_u32(a: u32, b: u32) -> u32 {
    if a < b {
        b
    } else {
        a
    }
}

/// Highest rule points over the first `n` records; 0 for none.
pub open spec fn max_rule_points(ms: Seq<MatchView>, n: int) -> u32
    decreases n,
{
    if n <= 0 {
        0
    } else {
        max_u32(max_rule_points(ms, n - 1), rule_points(ms[n - 1].0))
    }
}

/// Points of a case-folded label name.
pub open spec fn label_points(lower: Seq<char>) -> u32 {
    if has_substring(lower, "security"@) || has_substring(lower, "critical"@) {
        20
    } else if has_substring(lower, "bug"@) || has_substring(lower, "urgent"@) {
        15
    } else if has_substring(lower, "feature"@) || has_substring(lower, "enhancement"@) {
        10
    } else if has_substring(lower, "documentation"@) || has_substring(lower, "test"@) {
        5
    } else {
        2
    }
}

/// Highest label points over the first `n` label names; 0 for none.
pub open spec fn max_label_points(names: Seq<Seq<char>>, n: int) -> u32
    decreases n,
{
    if n <= 0 {
        0
    } else {
        max_u32(max_label_points(names, n - 1), label_points(lower_of(names[n - 1])))
    }
}

/// The score of an issue, at time `now` (seconds since the Unix epoch).
pub open spec fn priority_score(issue: IssueView, imp: Importance, ms: Seq<MatchView>, is_pr: bool, now: i64) -> PriorityScore {
    let names = label_names(issue.labels);
    let i = importance_points(imp);
    let r = recency_points(age_hours(now, issue.updated_at));
    let a = activity_points(issue.comment_count);
    let m = max_rule_points(ms, ms.len() as int);
    let l = max_label_points(names, names.len() as int);
    PriorityScore {
        total: (i + r + a + m + l + if is_pr { 10u32 } else { 0u32 }) as u32,
        importance_score: i,
        recency_score: r,
        activity_score: a,
        rule_match_score: m,
        label_score: l,
    }
}

fn importance_score_of(i: Importance) -> (r: u32)
    ensures
        r == importance_points(i),
{
    match i {
        Importance::Critical => 40,
        Importance::High => 30,
        Importance::Medium => 20,
        Importance::Low => 10,
    }
}

fn recency_score_of(now: i64, updated: i64) -> (r: u32)
    ensures
        r == recency_points(age_hours(now, updated)),
{
    let hours: u64 = if now <= updated {
        1
    } else {
        let diff: u64 = (now as i128 - updated as i128) as u64;
        let h: u64 = diff / 3600;
        assert(h as int == (now - updated) / 3600);
        if h < 1 {
            1
        } else {
            h
        }
    };
    assert(hours as int == age_hours(now, updated));
    if hours <= 6 {
        30
    } else if hours <= 24 {
        25
    } else if hours <= 72 {
        20
    } else if hours <= 168 {
        15
    } else if hours <= 336 {
        10
    } else {
        5
    }
}

/// Points of a matched rule by its name; unknown names get 5.
pub fn rule_score(name: &str) -> (r: u32)
    ensures
        r == rule_points(name@),
{
    if str_eq(name, "security_issues") {
        30
    } else if str_eq(name, "breaking_changes") {
        25
    } else if str_eq(name, "api_changes") {
        20
    } else if str_eq(name, "review_requests") {
        15
    } else if str_eq(name, "performance") {
        15
    } else if str_eq(name, "mentions") {
        10
    } else {
        5
    }
}

/// Points of a label by its name, case-insensitively.
pub fn label_score_of(name: &str) -> (r: u32)
    ensures
        r == label_points(lower_of(name@)),
{
    let low = lowercase(name);
    let l = low.as_str();
    if contains(l, "security") || contains(l, "critical") {
        20
    } else if contains(l, "bug") || contains(l, "urgent") {
        15
    } else if contains(l, "feature") || contains(l, "enhancement") {
        10
    } else if contains(l, "documentation") || contains(l, "test") {
        5
    } else {
        2
    }
}

/// The priority score of an issue given its repository's importance, the
/// rules it matched, whether it is a pull request, and the time `now`
/// (seconds since the Unix epoch).
pub fn calculate_priority_score(
    issue: &Issue,
    repo_importance: Importance,
    matched_rules: &[MatchedRule],
    is_pr: bool,
    now: i64,
) -> (r: PriorityScore)
    ensures
        r == priority_score(issue@, repo_importance, matches_view(matched_rules@), is_pr, now),
        r.total <= 150,
{
    let ghost ms = matches_view(matched_rules@);
    let importance_score = importance_score_of(repo_importance);
    let recency_score = recency_score_of(now, issue.updated_at);
    let c = issue.comments.total_count;
    let activity_score: u32 = if c < 10 {
        c * 2
    } else {
        20
    };
    let mut rule_match_score: u32 = 0;
    let mut i: usize = 0;
    while i < matched_rules.len()
        invariant
            i <= matched_rules@.len(),
            ms == matches_view(matched_rules@),
            rule_match_score == max_rule_points(ms, i as int),
            rule_match_score <= 30,
        decreases matched_rules.len() - i,
    {
        let p = rule_score(matched_rules[i].rule_type.as_str());
        if rule_match_score < p {
            rule_match_score = p;
        }
        i = i + 1;
    }
    let ghost names = label_names(issue@.labels);
    let mut label_score: u32 = 0;
    let mut j: usize = 0;
    while j < issue.labels.len()
        invariant
            j <= issue.labels@.len(),
            names == label_names(issue@.labels),
            names.len() == issue.labels@.len(),
            label_score == max_label_points(names, j as int),
            label_score <= 20,
        decreases issue.labels.len() - j,
    {
        assert(names[j as int] == issue.labels@[j as int].name@);
        let p = label_score_of(issue.labels[j].name.as_str());
        if label_score < p {
            label_score = p;
        }
        j = j + 1;
    }
    let bonus: u32 = if is_pr {
        10
    } else {
        0
    };
    PriorityScore {
        total: importance_score + recency_score + activity_score + rule_match_score + label_score + bonus,
        importance_score,
        recency_score,
        activity_score,
        rule_match_score,
        label_score,
    }
}

/// Coarse priority label of a score.
#[derive(Debug, Clone, Copy, PartialEq, Eq, Structural, PartialOrd, Ord)]
pub enum Priority {
    Low,
    Medium,
    High,
    Critical,
}

pub open spec fn priority_of(score: int) -> Priority {
    if score <= 30 {
        Priority::Low
    } else if score <= 60 {
        Priority::Medium
    } else if score <= 90 {
        Priority::High
    } else {
        Priority::Critical
    }
}

/// Low for 0 to 30, Medium for 31 to 60, High for 61 to 90, Critical above.
pub fn score_to_priority(score: u32) -> (r: Priority)
    ensures
        r == priority_of(score as int),
{
    if score <= 30 {
        Priority::Low
    } else if score <= 60 {
        Priority::Medium
    } else if score <= 90 {
        Priority::High
    } else {
        Priority::Critical
    }
}

pub open spec fn priority_rank(p: Priority) -> int {
    match p {
        Priority::Low => 0,
        Priority::Medium => 1,
        Priority::High => 2,
        Priority::Critical => 3,
    }
}

/// The priority buckets cover every non-negative score and are
/// contiguous: Low is 0 to 30, Medium 31 to 60, High 61 to 90 and Critical
/// 91 and above; a higher score never gets a lower bucket, and a score
/// between two scores of one bucket lies in that bucket.
pub proof fn lemma_priority_buckets(a: int, b: int, c: int)
    requires
        0 <= a <= b <= c,
    ensures
        (priority_of(a) == Priority::Low) == (a <= 30),
        (priority_of(a) == Priority::Medium) == (31 <= a <= 60),
        (priority_of(a) == Priority::High) == (61 <= a <= 90),
        (priority_of(a) == Priority::Critical) == (91 <= a),
        priority_rank(priority_of(a)) <= priority_rank(priority_of(b)),
        priority_of(a) == priority_of(c) ==> priority_of(b) == priority_of(a),
{
}

} // verus!
