//! Small text rules of the activity listing and the report.
use vstd::prelude::*;
use crate::analysis::issues_view;
use crate::github::{Issue, IssueState, IssueView, RepoActivity};
use crate::config::Config;
use crate::gh_version::{split_words, words};
use crate::text::{
    ends_with, has_suffix, join_space, lemma_text_order, replace_all, replaced, split_char, split_seq, str_eq, text_less,
    text_lt,
};

verus! {

/// The title cut to `max_length` characters, the last three of them `...`,
/// when it is longer.
pub open spec fn truncated(title: Seq<char>, max_length: int) -> Seq<char> {
    if title.len() <= max_length {
        title
    } else {
        let keep = if max_length >= 3 {
            max_length - 3
        } else {
            0
        };
        title.subrange(0, keep) + "..."@
    }
}

pub fn truncate_title(title: &str, max_length: usize) -> (r: String)
    ensures
        r@ == truncated(title@, max_length as int),
{
    let n = title.unicode_len();
    if n <= max_length {
        String::from_str(title)
    } else {
        let keep: usize = if max_length >= 3 {
            max_length - 3
        } else {
            0
        };
        let mut s = String::from_str(title.substring_char(0, keep));
        s.append("...");
        s
    }
}

/// Rank of an event action in a listing; lower comes first.
pub open spec fn action_rank(action: Seq<char>) -> u8 {
    if action == "opened"@ {
        1
    } else if action == "closed"@ {
        2
    } else if action == "reopened"@ {
        3
    } else if action == "reviewed"@ {
        4
    } else if action == "commented"@ {
        5
    } else if action == "review commented"@ {
        6
    } else {
        10
    }
}

pub fn action_priority(action: &str) -> (r: u8)
    ensures
        r == action_rank(action@),
{
    if str_eq(action, "opened") {
        1
    } else if str_eq(action, "closed") {
        2
    } else if str_eq(action, "reopened") {
        3
    } else if str_eq(action, "reviewed") {
        4
    } else if str_eq(action, "commented") {
        5
    } else if str_eq(action, "review commented") {
        6
    } else {
        10
    }
}

/// `owner/repo` of a `https://github.com/owner/repo/...` address.
pub open spec fn repo_of_url(url: Seq<char>) -> Option<Seq<char>> {
    let parts = split_seq(url, '/');
    if parts.len() >= 5 && parts[2] == "github.com"@ {
        Some(parts[3] + "/"@ + parts[4])
    } else {
        None
    }
}

pub fn extract_repo_from_url(url: &str) -> (r: Option<String>)
    ensures
        match r {
            Some(s) => repo_of_url(url@) == Some(s@),
            None => repo_of_url(url@) is None,
        },
{
    let parts = split_char(url, '/');
    let ghost pv = parts@.map_values(|p: String| p@);
    if parts.len() >= 5 {
        assert(pv[2] == parts@[2]@ && pv[3] == parts@[3]@ && pv[4] == parts@[4]@);
        if str_eq(parts[2].as_str(), "github.com") {
            let mut s = parts[3].clone();
            s.append("/");
            s.append(parts[4].as_str());
            return Some(s);
        }
    }
    None
}

/// Where an issue goes within its repository's activity.
#[derive(Debug, Clone, Copy, PartialEq, Eq, Structural)]
pub enum Category {
    NewIssue,
    UpdatedIssue,
    NewPr,
    UpdatedPr,
}

/// New means open and created within a day of `now`; anything else counts
/// as updated.
pub open spec fn category_of(i: IssueView, now: i64) -> Category {
    let fresh = i.state == IssueState::Open && i.created_at > now - 86400;
    if i.is_pull_request {
        if fresh {
            Category::NewPr
        } else {
            Category::UpdatedPr
        }
    } else if fresh {
        Category::NewIssue
    } else {
        Category::UpdatedIssue
    }
}

/// The repository an issue is filed under: `owner/repo` of its address, or `unknown`.
pub open spec fn repo_key(i: IssueView) -> Seq<char> {
    match repo_of_url(i.url) {
        Some(r) => r,
        None => "unknown"@,
    }
}

/// The issues among the first `n` of the repository and category, in order.
pub open spec fn items_in(iv: Seq<IssueView>, name: Seq<char>, c: Category, now: i64, n: int) -> Seq<IssueView>
    decreases n,
{
    if n <= 0 {
        seq![]
    } else if repo_key(iv[n - 1]) == name && category_of(iv[n - 1], now) == c {
        items_in(iv, name, c, now, n - 1).push(iv[n - 1])
    } else {
        items_in(iv, name, c, now, n - 1)
    }
}

pub open spec fn category_items(a: RepoActivity, c: Category) -> Seq<IssueView> {
    match c {
        Category::NewIssue => issues_view(a.new_issues@),
        Category::UpdatedIssue => issues_view(a.updated_issues@),
        Category::NewPr => issues_view(a.new_prs@),
        Category::UpdatedPr => issues_view(a.updated_prs@),
    }
}

/// Some group has the name.
pub open spec fn has_group(r: Seq<(String, RepoActivity)>, name: Seq<char>) -> bool {
    exists|g: int| 0 <= g < r.len() && (#[trigger] r[g]).0@ == name
}

/// One of the first `n` issues belongs to the named repository.
pub open spec fn has_issue(iv: Seq<IssueView>, n: int, name: Seq<char>) -> bool {
    exists|k: int| 0 <= k < n && repo_key(#[trigger] iv[k]) == name
}

/// The groups hold, in strictly increasing name order, exactly the issues
/// among the first `n`, each in its category, in input order.
pub open spec fn grouped(r: Seq<(String, RepoActivity)>, iv: Seq<IssueView>, now: i64, n: int) -> bool {
    &&& forall|a: int, b: int| 0 <= a < b < r.len() ==> text_lt((#[trigger] r[a]).0@, (#[trigger] r[b]).0@)
    &&& forall|k: int| 0 <= k < n ==> #[trigger] has_group(r, repo_key(iv[k]))
    &&& forall|g: int| 0 <= g < r.len() ==> #[trigger] has_issue(iv, n, r[g].0@)
    &&& forall|g: int, c: Category| 0 <= g < r.len() ==> #[trigger] category_items((#[trigger] r[g]).1, c) == items_in(iv, r[g].0@, c, now, n)
    &&& forall|g: int| 0 <= g < r.len() ==> (#[trigger] r[g]).1.merged_prs@.len() == 0 && r[g].1.closed_issues@.len() == 0
}

proof fn lemma_items_absent(iv: Seq<IssueView>, name: Seq<char>, c: Category, now: i64, n: int)
    requires
        0 <= n <= iv.len(),
        forall|k: int| 0 <= k < n ==> repo_key(#[trigger] iv[k]) != name,
    ensures
        items_in(iv, name, c, now, n) == Seq::<IssueView>::empty(),
    decreases n,
{
    if n > 0 {
        lemma_items_absent(iv, name, c, now, n - 1);
    }
}

fn fresh_exec(issue: &Issue, now: i64) -> (r: bool)
    ensures
        r == (issue.state == IssueState::Open && issue.created_at > now - 86400),
{
    issue.state == IssueState::Open && (issue.created_at as i128) > (now as i128) - 86400
}

fn add_to(activity: &mut RepoActivity, issue: Issue, c: Category)
    ensures
        forall|d: Category| #[trigger] category_items(*final(activity), d) == if d == c {
            category_items(*old(activity), d).push(issue@)
        } else {
            category_items(*old(activity), d)
        },
        final(activity).merged_prs@ == old(activity).merged_prs@,
        final(activity).closed_issues@ == old(activity).closed_issues@,
{
    let ghost iv = issue@;
    match c {
        Category::NewIssue => {
            let ghost before = issues_view(activity.new_issues@);
            activity.new_issues.push(issue);
            assert(issues_view(activity.new_issues@) =~= before.push(iv));
        },
        Category::UpdatedIssue => {
            let ghost before = issues_view(activity.updated_issues@);
            activity.updated_issues.push(issue);
            assert(issues_view(activity.updated_issues@) =~= before.push(iv));
        },
        Category::NewPr => {
            let ghost before = issues_view(activity.new_prs@);
            activity.new_prs.push(issue);
            assert(issues_view(activity.new_prs@) =~= before.push(iv));
        },
        Category::UpdatedPr => {
            let ghost before = issues_view(activity.updated_prs@);
            activity.updated_prs.push(issue);
            assert(issues_view(activity.updated_prs@) =~= before.push(iv));
        },
    }
}

/// Groups issues by repository (in name order) and, within each, into new
/// and updated issues and pull requests; `now` is in seconds since the Unix
/// epoch.
pub fn group_activities_by_repo(issues: Vec<Issue>, now: i64) -> (r: Vec<(String, RepoActivity)>)
    ensures
        grouped(r@, issues_view(issues@), now, issues@.len() as int),
{
    let ghost iv = issues_view(issues@);
    let total = issues.len();
    let mut rest = issues;
    let mut groups: Vec<(String, RepoActivity)> = Vec::new();
    let mut n: usize = 0;
    while rest.len() > 0
        invariant
            n + rest@.len() == total,
            iv.len() == total,
            issues_view(rest@) == iv.subrange(n as int, total as int),
            grouped(groups@, iv, now, n as int),
        decreases rest.len(),
    {
        assert(issues_view(rest@)[0] == rest@[0]@);
        let ghost before_rest = rest@;
        let issue = rest.remove(0);
        assert(issue@ == iv[n as int]);
        assert(issues_view(rest@) =~= iv.subrange(n + 1, total as int)) by {
            assert forall|j: int| 0 <= j < rest@.len() implies #[trigger] issues_view(rest@)[j] == iv.subrange(
                n + 1,
                total as int,
            )[j] by {
                assert(rest@[j] == before_rest[j + 1]);
                assert(issues_view(before_rest)[j + 1] == iv.subrange(n as int, total as int)[j + 1]);
            }
        }
        let name = match extract_repo_from_url(issue.url.as_str()) {
            Some(r) => r,
            None => String::from_str("unknown"),
        };
        assert(name@ == repo_key(issue@));
        let fresh = fresh_exec(&issue, now);
        let c = if issue.is_pull_request {
            if fresh {
                Category::NewPr
            } else {
                Category::UpdatedPr
            }
        } else if fresh {
            Category::NewIssue
        } else {
            Category::UpdatedIssue
        };
        assert(c == category_of(iv[n as int], now));
        place(&mut groups, name, issue, c, Ghost(iv), Ghost(n as int), now);
        n = n + 1;
    }
    assert(iv.subrange(n as int, total as int).len() == 0);
    groups
}

/// Files the `n`-th issue under its repository, keeping the groups sorted.
fn place(
    groups: &mut Vec<(String, RepoActivity)>,
    name: String,
    issue: Issue,
    c: Category,
    Ghost(iv): Ghost<Seq<IssueView>>,
    Ghost(n): Ghost<int>,
    now: i64,
)
    requires
        0 <= n < iv.len(),
        grouped(old(groups)@, iv, now, n),
        issue@ == iv[n],
        name@ == repo_key(iv[n]),
        c == category_of(iv[n], now),
    ensures
        grouped(final(groups)@, iv, now, n + 1),
{
    let ghost g0 = groups@;
    let mut i: usize = 0;
    while i < groups.len() && text_less(groups[i].0.as_str(), name.as_str())
        invariant
            i <= groups@.len(),
            g0 == groups@,
            grouped(g0, iv, now, n),
            forall|k: int| 0 <= k < i ==> text_lt((#[trigger] g0[k]).0@, name@),
        decreases groups.len() - i,
    {
        i = i + 1;
    }
    if i < groups.len() && groups[i].0 == name {
        merge_into(groups, i, issue, c, Ghost(iv), Ghost(n), now);
    } else {
        open_group(groups, i, name, issue, c, Ghost(iv), Ghost(n), now);
    }
}

proof fn lemma_merge(
    g0: Seq<(String, RepoActivity)>,
    g1: Seq<(String, RepoActivity)>,
    i: int,
    iv: Seq<IssueView>,
    n: int,
    now: i64,
    c: Category,
)
    requires
        0 <= n < iv.len(),
        grouped(g0, iv, now, n),
        0 <= i < g0.len(),
        g0[i].0@ == repo_key(iv[n]),
        c == category_of(iv[n], now),
        g1.len() == g0.len(),
        forall|j: int| 0 <= j < g0.len() && j != i ==> g1[j] == g0[j],
        g1[i].0@ == g0[i].0@,
        forall|d: Category| #[trigger] category_items(g1[i].1, d) == if d == c {
            category_items(g0[i].1, d).push(iv[n])
        } else {
            category_items(g0[i].1, d)
        },
        g1[i].1.merged_prs@.len() == 0,
        g1[i].1.closed_issues@.len() == 0,
    ensures
        grouped(g1, iv, now, n + 1),
{
    let name = g0[i].0@;
    assert forall|a: int, b: int| 0 <= a < b < g1.len() implies text_lt((#[trigger] g1[a]).0@, (#[trigger] g1[b]).0@) by {
        assert(g1[a].0@ == g0[a].0@);
        assert(g1[b].0@ == g0[b].0@);
    }
    assert forall|k: int| 0 <= k < n + 1 implies #[trigger] has_group(g1, repo_key(iv[k])) by {
        if k < n {
            assert(has_group(g0, repo_key(iv[k])));
            let g = choose|g: int| 0 <= g < g0.len() && (#[trigger] g0[g]).0@ == repo_key(iv[k]);
            assert(g1[g].0@ == g0[g].0@);
        } else {
            assert(g1[i].0@ == repo_key(iv[k]));
        }
    }
    assert forall|g: int| 0 <= g < g1.len() implies #[trigger] has_issue(iv, n + 1, g1[g].0@) by {
        assert(has_issue(iv, n, g0[g].0@));
        let k = choose|k: int| 0 <= k < n && repo_key(#[trigger] iv[k]) == g0[g].0@;
        assert(g1[g].0@ == g0[g].0@);
        assert(0 <= k < n + 1);
    }
    assert forall|g: int, d: Category| 0 <= g < g1.len() implies #[trigger] category_items((#[trigger] g1[g]).1, d)
        == items_in(iv, g1[g].0@, d, now, n + 1) by {
        assert(category_items(g0[g].1, d) == items_in(iv, g0[g].0@, d, now, n));
        if g != i {
            assert(g1[g] == g0[g]);
            assert(g0[g].0@ != name) by {
                if g < i {
                    lemma_text_order(g0[g].0@, name, name);
                } else {
                    lemma_text_order(name, name, name);
                }
            }
        }
    }
    assert forall|g: int| 0 <= g < g1.len() implies (#[trigger] g1[g]).1.merged_prs@.len() == 0
        && g1[g].1.closed_issues@.len() == 0 by {
        if g != i {
            assert(g1[g] == g0[g]);
        }
    }
}

/// Adds the issue to the group at `i`, which has its repository's name.
fn merge_into(
    groups: &mut Vec<(String, RepoActivity)>,
    i: usize,
    issue: Issue,
    c: Category,
    Ghost(iv): Ghost<Seq<IssueView>>,
    Ghost(n): Ghost<int>,
    now: i64,
)
    requires
        0 <= n < iv.len(),
        grouped(old(groups)@, iv, now, n),
        issue@ == iv[n],
        c == category_of(iv[n], now),
        i < old(groups)@.len(),
        old(groups)@[i as int].0@ == repo_key(iv[n]),
    ensures
        grouped(final(groups)@, iv, now, n + 1),
{
    let ghost g0 = groups@;
    let (gname, mut activity) = groups.remove(i);
    assert(g0[i as int] == (gname, activity));
    add_to(&mut activity, issue, c);
    groups.insert(i, (gname, activity));
    proof {
        let g1 = groups@;
        assert(g1 =~= g0.update(i as int, (gname, activity)));
        lemma_merge(g0, g1, i as int, iv, n, now, c);
    }
}

proof fn lemma_open(
    g0: Seq<(String, RepoActivity)>,
    g1: Seq<(String, RepoActivity)>,
    i: int,
    iv: Seq<IssueView>,
    n: int,
    now: i64,
    c: Category,
)
    requires
        0 <= n < iv.len(),
        grouped(g0, iv, now, n),
        0 <= i <= g0.len(),
        forall|k: int| 0 <= k < i ==> text_lt((#[trigger] g0[k]).0@, repo_key(iv[n])),
        i < g0.len() ==> g0[i].0@ != repo_key(iv[n]) && !text_lt(g0[i].0@, repo_key(iv[n])),
        c == category_of(iv[n], now),
        g1 == g0.insert(i, g1[i]),
        g1[i].0@ == repo_key(iv[n]),
        forall|d: Category| #[trigger] category_items(g1[i].1, d) == if d == c {
            seq![iv[n]]
        } else {
            Seq::<IssueView>::empty()
        },
        g1[i].1.merged_prs@.len() == 0,
        g1[i].1.closed_issues@.len() == 0,
    ensures
        grouped(g1, iv, now, n + 1),
{
    let nv = repo_key(iv[n]);
    if i < g0.len() {
        lemma_text_order(nv, g0[i].0@, nv);
        assert(text_lt(nv, g0[i].0@));
        assert forall|k: int| i <= k < g0.len() implies text_lt(nv, (#[trigger] g0[k]).0@) by {
            if k > i {
                lemma_text_order(nv, g0[i].0@, g0[k].0@);
            }
        }
    }
    assert forall|k: int| 0 <= k < n implies repo_key(#[trigger] iv[k]) != nv by {
        assert(has_group(g0, repo_key(iv[k])));
        let g = choose|g: int| 0 <= g < g0.len() && (#[trigger] g0[g]).0@ == repo_key(iv[k]);
        if g < i {
            lemma_text_order(g0[g].0@, nv, nv);
        } else {
            lemma_text_order(nv, nv, nv);
        }
    }
    assert forall|a: int, b: int| 0 <= a < b < g1.len() implies text_lt((#[trigger] g1[a]).0@, (#[trigger] g1[b]).0@) by {
        let na = if a < i { g0[a].0@ } else if a == i { nv } else { g0[a - 1].0@ };
        let nb = if b < i { g0[b].0@ } else if b == i { nv } else { g0[b - 1].0@ };
        assert(g1[a].0@ == na);
        assert(g1[b].0@ == nb);
        if a < i && b > i {
            lemma_text_order(g0[a].0@, nv, g0[b - 1].0@);
        }
    }
    assert forall|k: int| 0 <= k < n + 1 implies #[trigger] has_group(g1, repo_key(iv[k])) by {
        if k < n {
            assert(has_group(g0, repo_key(iv[k])));
            let g = choose|g: int| 0 <= g < g0.len() && (#[trigger] g0[g]).0@ == repo_key(iv[k]);
            if g < i {
                assert(g1[g] == g0[g]);
            } else {
                assert(g1[g + 1] == g0[g]);
            }
        } else {
            assert(g1[i].0@ == repo_key(iv[k]));
        }
    }
    assert forall|g: int| 0 <= g < g1.len() implies #[trigger] has_issue(iv, n + 1, g1[g].0@) by {
        if g == i {
            assert(repo_key(iv[n]) == g1[g].0@);
        } else {
            let h = if g < i { g } else { g - 1 };
            assert(g1[g] == g0[h]);
            assert(has_issue(iv, n, g0[h].0@));
            let k = choose|k: int| 0 <= k < n && repo_key(#[trigger] iv[k]) == g0[h].0@;
            assert(0 <= k < n + 1);
        }
    }
    assert forall|g: int, d: Category| 0 <= g < g1.len() implies #[trigger] category_items((#[trigger] g1[g]).1, d)
        == items_in(iv, g1[g].0@, d, now, n + 1) by {
        if g == i {
            lemma_items_absent(iv, nv, d, now, n);
            if d == c {
                assert(Seq::<IssueView>::empty().push(iv[n]) =~= seq![iv[n]]);
            }
        } else {
            let h = if g < i { g } else { g - 1 };
            assert(g1[g] == g0[h]);
            assert(category_items(g0[h].1, d) == items_in(iv, g0[h].0@, d, now, n));
            assert(g0[h].0@ != nv) by {
                if h < i {
                    lemma_text_order(g0[h].0@, nv, nv);
                } else {
                    lemma_text_order(nv, nv, nv);
                }
            }
        }
    }
    assert forall|g: int| 0 <= g < g1.len() implies (#[trigger] g1[g]).1.merged_prs@.len() == 0
        && g1[g].1.closed_issues@.len() == 0 by {
        if g < i {
            assert(g1[g] == g0[g]);
        } else if g > i {
            assert(g1[g] == g0[g - 1]);
        }
    }
}

/// Opens a group for the issue's repository at `i`, where no group has its name.
fn open_group(
    groups: &mut Vec<(String, RepoActivity)>,
    i: usize,
    name: String,
    issue: Issue,
    c: Category,
    Ghost(iv): Ghost<Seq<IssueView>>,
    Ghost(n): Ghost<int>,
    now: i64,
)
    requires
        0 <= n < iv.len(),
        grouped(old(groups)@, iv, now, n),
        issue@ == iv[n],
        name@ == repo_key(iv[n]),
        c == category_of(iv[n], now),
        i <= old(groups)@.len(),
        forall|k: int| 0 <= k < i ==> text_lt((#[trigger] old(groups)@[k]).0@, name@),
        i < old(groups)@.len() ==> old(groups)@[i as int].0@ != name@ && !text_lt(old(groups)@[i as int].0@, name@),
    ensures
        grouped(final(groups)@, iv, now, n + 1),
{
    let ghost g0 = groups@;
    let mut activity = RepoActivity::empty();
    let ghost a0 = activity;
    add_to(&mut activity, issue, c);
    proof {
        assert forall|d: Category| #[trigger] category_items(activity, d) == if d == c {
            seq![iv[n]]
        } else {
            Seq::<IssueView>::empty()
        } by {
            assert(category_items(a0, d) =~= Seq::<IssueView>::empty());
            assert(Seq::<IssueView>::empty().push(iv[n]) =~= seq![iv[n]]);
        }
    }
    groups.insert(i, (name, activity));
    proof {
        let g1 = groups@;
        lemma_open(g0, g1, i as int, iv, n, now, c);
    }
}

/// Year, month and day of an instant in UTC as jiff writes them with `%Y`,
/// `%m` and `%d`; none outside the instants jiff represents.
pub uninterp spec fn utc_ymd_of(secs: i64) -> Option<(Seq<char>, Seq<char>, Seq<char>)>;

/// Relies on jiff::Timestamp::from_second (an error outside jiff's range)
/// and Timestamp::strftime with `%Y`, `%m` and `%d`, which cannot fail.
#[verifier::external_body]
fn utc_ymd(secs: i64) -> (r: Option<(String, String, String)>)
    ensures
        match r {
            Some(t) => utc_ymd_of(secs) == Some((t.0@, t.1@, t.2@)),
            None => utc_ymd_of(secs) is None,
        },
{
    match jiff::Timestamp::from_second(secs) {
        Ok(ts) => Some((
            format!("{}", ts.strftime("%Y")),
            format!("{}", ts.strftime("%m")),
            format!("{}", ts.strftime("%d")),
        )),
        Err(_) => None,
    }
}

/// A finished report, stamped with its time (seconds since the Unix epoch).
#[derive(Debug)]
pub struct Report {
    pub title: String,
    pub content: String,
    pub timestamp: i64,
}

/// The first eight words of the title, or `Daily Report` when it has none.
pub open spec fn short_title_of(title: Seq<char>) -> Seq<char> {
    let w = words(title);
    if w.len() == 0 {
        "Daily Report"@
    } else {
        join_space(w, if w.len() < 8 { w.len() as int } else { 8 })
    }
}

/// The file name format with its placeholders filled, ending in `.md`.
pub open spec fn file_name_of(format: Seq<char>, ymd: (Seq<char>, Seq<char>, Seq<char>), title: Seq<char>) -> Seq<char> {
    let date = ymd.0 + "-"@ + ymd.1 + "-"@ + ymd.2;
    let f = replaced(
        replaced(
            replaced(replaced(replaced(format, "{yyyy-mm-dd}"@, date), "{yyyy}"@, ymd.0), "{mm}"@, ymd.1),
            "{dd}"@,
            ymd.2,
        ),
        "{short-title}"@,
        short_title_of(title),
    );
    if has_suffix(f, ".md"@) {
        f
    } else {
        f + ".md"@
    }
}

impl Report {
    pub fn generate_short_title(&self) -> (r: String)
        ensures
            r@ == short_title_of(self.title@),
    {
        let w = split_words(self.title.as_str());
        let ghost wv = w@.map_values(|p: String| p@);
        if w.len() == 0 {
            return String::from_str("Daily Report");
        }
        let k: usize = if w.len() < 8 {
            w.len()
        } else {
            8
        };
        let mut out = String::new();
        let mut i: usize = 0;
        while i < k
            invariant
                i <= k,
                k <= w@.len(),
                wv == w@.map_values(|p: String| p@),
                out@ == join_space(wv, i as int),
            decreases k - i,
        {
            if i > 0 {
                out.append(" ");
            }
            out.append(w[i].as_str());
            assert(wv[i as int] == w@[i as int]@);
            proof {
                if i == 0 {
                    assert(out@ =~= wv[0]);
                }
            }
            i = i + 1;
        }
        out
    }

    /// The report's file name under the configured format; none when the
    /// report's time is outside the instants jiff represents.
    pub fn generate_filename(&self, config: &Config) -> (r: Option<String>)
        ensures
            match r {
                Some(f) => exists|ymd: (Seq<char>, Seq<char>, Seq<char>)|
                    utc_ymd_of(self.timestamp) == Some(ymd) && f@ == #[trigger] file_name_of(
                        config.settings.file_name_format@,
                        ymd,
                        self.title@,
                    ),
                None => utc_ymd_of(self.timestamp) is None,
            },
    {
        proof {
            reveal_strlit("{yyyy-mm-dd}");
            reveal_strlit("{yyyy}");
            reveal_strlit("{mm}");
            reveal_strlit("{dd}");
            reveal_strlit("{short-title}");
        }
        let (y, m, d) = match utc_ymd(self.timestamp) {
            Some(t) => t,
            None => {
                return None;
            },
        };
        let mut date = y.clone();
        date.append("-");
        date.append(m.as_str());
        date.append("-");
        date.append(d.as_str());
        let title = self.generate_short_title();
        let f1 = replace_all(config.settings.file_name_format.as_str(), "{yyyy-mm-dd}", date.as_str());
        let f2 = replace_all(f1.as_str(), "{yyyy}", y.as_str());
        let f3 = replace_all(f2.as_str(), "{mm}", m.as_str());
        let f4 = replace_all(f3.as_str(), "{dd}", d.as_str());
        let mut f5 = replace_all(f4.as_str(), "{short-title}", title.as_str());
        if !ends_with(f5.as_str(), ".md") {
            f5.append(".md");
        }
        proof {
            let ymd = (y@, m@, d@);
            assert(f5@ == file_name_of(config.settings.file_name_format@, ymd, self.title@));
        }
        Some(f5)
    }
}

} // verus!
