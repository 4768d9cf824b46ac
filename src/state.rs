//! What is remembered between runs: the last run and, for older setups,
//! the repositories being tracked. Times are seconds since the Unix epoch
//! and the caller supplies the current time.
use vstd::prelude::*;
use crate::github::{copy_opt, opt_view};
use crate::text::str_eq;

verus! {

/// What is known of one tracked repository.
#[derive(Debug, Clone, Copy, PartialEq, Eq, Structural)]
pub struct RepoState {
    pub last_seen: i64,
    pub activity_score: u32,
    pub auto_tracked: bool,
}

/// State kept between runs. `tracked_repos` holds each name at most once.
#[derive(Debug)]
pub struct State {
    pub last_run: Option<i64>,
    pub last_report_file: Option<String>,
    pub tracked_repos: Vec<(String, RepoState)>,
}

pub type TrackedView = Seq<(Seq<char>, RepoState)>;

pub open spec fn tracked_view(v: Seq<(String, RepoState)>) -> TrackedView {
    v.map_values(|e: (String, RepoState)| (e.0@, e.1))
}

/// No name is tracked twice.
pub open spec fn names_distinct(t: TrackedView) -> bool {
    forall|i: int, j: int| 0 <= i < j < t.len() ==> (#[trigger] t[i]).0 != (#[trigger] t[j]).0
}

/// Index of the named repository.
pub open spec fn tracked_index(t: TrackedView, name: Seq<char>) -> Option<int> {
    if exists|i: int| 0 <= i < t.len() && (#[trigger] t[i]).0 == name {
        Some(choose|i: int| 0 <= i < t.len() && (#[trigger] t[i]).0 == name)
    } else {
        None
    }
}

/// `now` moved back by whole days, saturating at the earliest time.
pub open spec fn days_before(now: i64, days: u32) -> int {
    let t = now - days * 86400;
    if t < i64::MIN {
        i64::MIN as int
    } else {
        t
    }
}

fn days_before_exec(now: i64, days: u32) -> (r: i64)
    ensures
        r == days_before(now, days),
{
    let t: i128 = now as i128 - (days as i128) * 86400;
    if t < i64::MIN as i128 {
        i64::MIN
    } else {
        t as i64
    }
}

/// Whether a repository counts as gone: tracked automatically and not seen
/// since the threshold.
pub open spec fn inactive(s: RepoState, threshold: int) -> bool {
    s.auto_tracked && s.last_seen < threshold
}

/// The entries among the first `n` that stay.
pub open spec fn kept(t: TrackedView, threshold: int, n: int) -> TrackedView
    decreases n,
{
    if n <= 0 {
        seq![]
    } else if inactive(t[n - 1].1, threshold) {
        kept(t, threshold, n - 1)
    } else {
        kept(t, threshold, n - 1).push(t[n - 1])
    }
}

/// The names among the first `n` that go.
pub open spec fn dropped(t: TrackedView, threshold: int, n: int) -> Seq<Seq<char>>
    decreases n,
{
    if n <= 0 {
        seq![]
    } else if inactive(t[n - 1].1, threshold) {
        dropped(t, threshold, n - 1).push(t[n - 1].0)
    } else {
        dropped(t, threshold, n - 1)
    }
}

proof fn lemma_kept_from(t: TrackedView, threshold: int, n: int)
    requires
        0 <= n <= t.len(),
    ensures
        forall|k: int| 0 <= k < kept(t, threshold, n).len() ==> exists|i: int| 0 <= i < n && t[i] == #[trigger] kept(t, threshold, n)[k],
        forall|k: int, l: int| 0 <= k < l < kept(t, threshold, n).len() ==> exists|i: int, j: int|
            0 <= i < j < n && t[i] == #[trigger] kept(t, threshold, n)[k] && t[j] == #[trigger] kept(t, threshold, n)[l],
    decreases n,
{
    if n > 0 {
        lemma_kept_from(t, threshold, n - 1);
        let p = kept(t, threshold, n - 1);
        let q = kept(t, threshold, n);
        if !inactive(t[n - 1].1, threshold) {
            assert forall|k: int| 0 <= k < q.len() implies exists|i: int| 0 <= i < n && t[i] == #[trigger] q[k] by {
                if k < p.len() {
                    assert(q[k] == p[k]);
                } else {
                    assert(q[k] == t[n - 1]);
                }
            }
            assert forall|k: int, l: int| 0 <= k < l < q.len() implies exists|i: int, j: int|
                0 <= i < j < n && t[i] == #[trigger] q[k] && t[j] == #[trigger] q[l] by {
                assert(q[k] == p[k]);
                if l < p.len() {
                    assert(q[l] == p[l]);
                } else {
                    assert(q[l] == t[n - 1]);
                    let i = choose|i: int| 0 <= i < n - 1 && t[i] == #[trigger] p[k];
                    assert(0 <= i < n - 1 < n && t[i] == q[k] && t[n - 1] == q[l]);
                }
            }
        }
    }
}

impl State {
    pub open spec fn wf(&self) -> bool {
        names_distinct(tracked_view(self.tracked_repos@))
    }

    pub fn default() -> (r: State)
        ensures
            r.last_run is None,
            r.last_report_file is None,
            r.tracked_repos@.len() == 0,
            r.wf(),
    {
        State { last_run: None, last_report_file: None, tracked_repos: Vec::new() }
    }

    pub fn update_last_run(&mut self, now: i64)
        ensures
            final(self).last_run == Some(now),
            opt_view(final(self).last_report_file) == opt_view(old(self).last_report_file),
            tracked_view(final(self).tracked_repos@) == tracked_view(old(self).tracked_repos@),
    {
        self.last_run = Some(now);
    }

    /// Where fetching starts: the last run, but no more than
    /// `max_lookback_days` before `now`.
    pub fn get_since_timestamp(&self, max_lookback_days: u32, now: i64) -> (r: i64)
        ensures
            r == match self.last_run {
                Some(last) => if last > days_before(now, max_lookback_days) {
                    last as int
                } else {
                    days_before(now, max_lookback_days)
                },
                None => days_before(now, max_lookback_days),
            },
    {
        let lookback = days_before_exec(now, max_lookback_days);
        match self.last_run {
            Some(last) => if last > lookback {
                last
            } else {
                lookback
            },
            None => lookback,
        }
    }

    fn find(&self, name: &str) -> (r: Option<usize>)
        requires
            self.wf(),
        ensures
            match r {
                Some(k) => k < self.tracked_repos@.len() && tracked_index(tracked_view(self.tracked_repos@), name@) == Some(
                    k as int,
                ),
                None => tracked_index(tracked_view(self.tracked_repos@), name@) is None,
            },
    {
        let ghost t = tracked_view(self.tracked_repos@);
        let mut i: usize = 0;
        while i < self.tracked_repos.len()
            invariant
                i <= self.tracked_repos@.len(),
                t == tracked_view(self.tracked_repos@),
                names_distinct(t),
                forall|k: int| 0 <= k < i ==> (#[trigger] t[k]).0 != name@,
            decreases self.tracked_repos.len() - i,
        {
            assert(t[i as int].0 == self.tracked_repos@[i as int].0@);
            if str_eq(self.tracked_repos[i].0.as_str(), name) {
                proof {
                    assert(t[i as int].0 == name@);
                    assert(exists|c: int| 0 <= c < t.len() && (#[trigger] t[c]).0 == name@);
                    let c = choose|c: int| 0 <= c < t.len() && (#[trigger] t[c]).0 == name@;
                    if c != i {
                        assert(t[c].0 == t[i as int].0);
                    }
                }
                return Some(i);
            }
            i = i + 1;
        }
        None
    }

    /// Records a repository's state, replacing an earlier record of it.
    pub fn update_repo(&mut self, name: String, score: u32, auto_tracked: bool, now: i64)
        requires
            old(self).wf(),
        ensures
            final(self).wf(),
            final(self).last_run == old(self).last_run,
            ({
                let t = tracked_view(old(self).tracked_repos@);
                let st = RepoState { last_seen: now, activity_score: score, auto_tracked };
                tracked_view(final(self).tracked_repos@) == match tracked_index(t, name@) {
                    Some(k) => t.update(k, (name@, st)),
                    None => t.push((name@, st)),
                }
            }),
    {
        let ghost t = tracked_view(self.tracked_repos@);
        let st = RepoState { last_seen: now, activity_score: score, auto_tracked };
        let ghost nv = name@;
        match self.find(name.as_str()) {
            Some(k) => {
                self.tracked_repos.set(k, (name, st));
                assert(tracked_view(self.tracked_repos@) =~= t.update(k as int, (nv, st)));
                assert forall|i: int, j: int| 0 <= i < j < t.len() implies (#[trigger] t.update(k as int, (nv, st))[i]).0
                    != (#[trigger] t.update(k as int, (nv, st))[j]).0 by {
                    if i == k {
                        assert(t[k as int].0 == nv);
                    } else if j == k {
                        assert(t[k as int].0 == nv);
                    }
                }
            },
            None => {
                self.tracked_repos.push((name, st));
                assert(tracked_view(self.tracked_repos@) =~= t.push((nv, st)));
                assert forall|i: int, j: int| 0 <= i < j < t.len() + 1 implies (#[trigger] t.push((nv, st))[i]).0 != (
                #[trigger] t.push((nv, st))[j]).0 by {
                    if j == t.len() {
                        assert(t[i].0 != nv);
                    }
                }
            },
        }
    }

    /// Tracks a repository by hand, as seen now.
    pub fn add_repository(&mut self, repo_name: &str, now: i64)
        requires
            old(self).wf(),
        ensures
            final(self).wf(),
            ({
                let t = tracked_view(old(self).tracked_repos@);
                let st = RepoState { last_seen: now, activity_score: 0, auto_tracked: false };
                tracked_view(final(self).tracked_repos@) == match tracked_index(t, repo_name@) {
                    Some(k) => t.update(k, (repo_name@, st)),
                    None => t.push((repo_name@, st)),
                }
            }),
    {
        self.update_repo(String::from_str(repo_name), 0, false, now);
    }

    /// Whether a repository should go: tracked automatically and not seen
    /// in the last `threshold_days`. Repositories added by hand never go.
    pub fn should_remove_repo(&self, repo_name: &str, threshold_days: u32, now: i64) -> (r: bool)
        requires
            self.wf(),
        ensures
            r == match tracked_index(tracked_view(self.tracked_repos@), repo_name@) {
                Some(k) => inactive(tracked_view(self.tracked_repos@)[k].1, days_before(now, threshold_days)),
                None => false,
            },
    {
        match self.find(repo_name) {
            Some(k) => {
                let s = self.tracked_repos[k].1;
                s.auto_tracked && s.last_seen < days_before_exec(now, threshold_days)
            },
            None => false,
        }
    }

    /// Drops the repositories that should go and returns their names, in
    /// the order they were tracked.
    pub fn cleanup_inactive_repos(&mut self, threshold_days: u32, now: i64) -> (r: Vec<String>)
        requires
            old(self).wf(),
        ensures
            final(self).wf(),
            final(self).last_run == old(self).last_run,
            ({
                let t = tracked_view(old(self).tracked_repos@);
                let th = days_before(now, threshold_days);
                &&& tracked_view(final(self).tracked_repos@) == kept(t, th, t.len() as int)
                &&& r@.map_values(|s: String| s@) == dropped(t, th, t.len() as int)
            }),
    {
        let ghost t = tracked_view(self.tracked_repos@);
        let threshold = days_before_exec(now, threshold_days);
        let mut keep: Vec<(String, RepoState)> = Vec::new();
        let mut removed: Vec<String> = Vec::new();
        let mut i: usize = 0;
        while i < self.tracked_repos.len()
            invariant
                i <= self.tracked_repos@.len(),
                t == tracked_view(self.tracked_repos@),
                threshold == days_before(now, threshold_days),
                tracked_view(keep@) == kept(t, threshold as int, i as int),
                removed@.map_values(|s: String| s@) == dropped(t, threshold as int, i as int),
            decreases self.tracked_repos.len() - i,
        {
            let name = self.tracked_repos[i].0.clone();
            let s = self.tracked_repos[i].1;
            assert(t[i as int] == (name@, s));
            if s.auto_tracked && s.last_seen < threshold {
                let ghost before = removed@.map_values(|s: String| s@);
                removed.push(name);
                assert(removed@.map_values(|s: String| s@) =~= before.push(t[i as int].0));
            } else {
                let ghost before = tracked_view(keep@);
                keep.push((name, s));
                assert(tracked_view(keep@) =~= before.push(t[i as int]));
            }
            i = i + 1;
        }
        proof {
            lemma_kept_from(t, threshold as int, t.len() as int);
            let kk = kept(t, threshold as int, t.len() as int);
            assert forall|a: int, b: int| 0 <= a < b < kk.len() implies (#[trigger] kk[a]).0 != (#[trigger] kk[b]).0 by {
                let (x, y) = choose|x: int, y: int| 0 <= x < y < t.len() && t[x] == #[trigger] kk[a] && t[y] == #[trigger] kk[b];
                assert(t[x].0 != t[y].0);
            }
        }
        self.tracked_repos = keep;
        removed
    }
}

} // verus!
