//! Activity scores of repositories and their coarse levels.
use vstd::prelude::*;
use crate::config::ActivityWeights;

verus! {

/// Counts of a repository's recent activity.
#[derive(Debug, Clone, Copy)]
pub struct ActivityMetrics {
    pub commits: u32,
    pub prs: u32,
    pub issues: u32,
    pub comments: u32,
}

pub open spec fn activity_score(m: ActivityMetrics, w: ActivityWeights) -> int {
    m.commits * w.commits + m.prs * w.prs + m.issues * w.issues + m.comments * w.comments
}

/// The weighted sum of the activity counts.
pub fn calculate_activity_score(metrics: &ActivityMetrics, weights: &ActivityWeights) -> (r: u32)
    requires
        activity_score(*metrics, *weights) <= u32::MAX,
    ensures
        r == activity_score(*metrics, *weights),
{
    let m = *metrics;
    let w = *weights;
    assert(0 <= m.commits * w.commits) by (nonlinear_arith);
    assert(0 <= m.prs * w.prs) by (nonlinear_arith);
    assert(0 <= m.issues * w.issues) by (nonlinear_arith);
    assert(0 <= m.comments * w.comments) by (nonlinear_arith);
    let commit_score = m.commits * w.commits;
    let pr_score = m.prs * w.prs;
    let issue_score = m.issues * w.issues;
    let comment_score = m.comments * w.comments;
    commit_score + pr_score + issue_score + comment_score
}

/// Coarse level of repository activity.
#[derive(Debug, Clone, Copy, PartialEq, Eq, Structural)]
pub enum ActivityLevel {
    Low,
    Medium,
    High,
    VeryHigh,
}

pub open spec fn level_of(score: u32) -> ActivityLevel {
    if score <= 10 {
        ActivityLevel::Low
    } else if score <= 30 {
        ActivityLevel::Medium
    } else if score <= 60 {
        ActivityLevel::High
    } else {
        ActivityLevel::VeryHigh
    }
}

/// Low up to 10, Medium up to 30, High up to 60, VeryHigh above.
pub fn categorize_activity_level(score: u32) -> (r: ActivityLevel)
    ensures
        r == level_of(score),
{
    if score <= 10 {
        ActivityLevel::Low
    } else if score <= 30 {
        ActivityLevel::Medium
    } else if score <= 60 {
        ActivityLevel::High
    } else {
        ActivityLevel::VeryHigh
    }
}

impl ActivityLevel {
    pub open spec fn name(self) -> Seq<char> {
        match self {
            ActivityLevel::Low => "Low"@,
            ActivityLevel::Medium => "Medium"@,
            ActivityLevel::High => "High"@,
            ActivityLevel::VeryHigh => "Very High"@,
        }
    }

    pub open spec fn symbol(self) -> Seq<char> {
        match self {
            ActivityLevel::Low => "🟢"@,
            ActivityLevel::Medium => "🟡"@,
            ActivityLevel::High => "🟠"@,
            ActivityLevel::VeryHigh => "🔴"@,
        }
    }

    pub fn as_str(&self) -> (r: &'static str)
        ensures
            r@ == self.name(),
    {
        match self {
            ActivityLevel::Low => "Low",
            ActivityLevel::Medium => "Medium",
            ActivityLevel::High => "High",
            ActivityLevel::VeryHigh => "Very High",
        }
    }

    pub fn emoji(&self) -> (r: &'static str)
        ensures
            r@ == self.symbol(),
    {
        match self {
            ActivityLevel::Low => "🟢",
            ActivityLevel::Medium => "🟡",
            ActivityLevel::High => "🟠",
            ActivityLevel::VeryHigh => "🔴",
        }
    }
}

/// Outcome of refreshing the list of tracked repositories.
#[derive(Debug)]
pub struct RepoUpdateResult {
    pub added: Vec<String>,
    pub removed: Vec<String>,
    pub updated: Vec<String>,
    pub total_discovered: usize,
    pub total_tracked: usize,
}

/// Outcome of building the first list of tracked repositories.
#[derive(Debug)]
pub struct InitResult {
    pub total_found: usize,
    pub repositories: Vec<(String, u32)>,
}

} // verus!
