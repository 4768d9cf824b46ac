//! GitHub issues and pull requests as the analysis receives them.
use vstd::prelude::*;
use crate::text::{has_prefix, split_char, split_seq, starts_with, str_eq};

verus! {

/// The view of an optional string.
pub open spec fn opt_view(o: Option<String>) -> Option<Seq<char>> {
    match o {
        Some(s) => Some(s@),
        None => None,
    }
}

/// A copy of an optional string.
pub fn copy_opt(o: &Option<String>) -> (r: Option<String>)
    ensures
        opt_view(r) == opt_view(*o),
{
    match o {
        Some(s) => Some(s.clone()),
        None => None,
    }
}

/// State of an issue or pull request.
#[derive(Debug, Clone, Copy, PartialEq, Eq, Structural)]
pub enum IssueState {
    Open,
    Closed,
    Merged,
}

/// Author of an issue, pull request or comment.
#[derive(Debug, Clone)]
pub struct Author {
    pub login: String,
    pub user_type: Option<String>,
}

/// A label attached to an issue or pull request.
#[derive(Debug, Clone)]
pub struct Label {
    pub name: String,
    pub color: Option<String>,
    pub description: Option<String>,
}

/// Number of comments on an issue or pull request.
#[derive(Debug, Clone, Copy)]
pub struct CommentCount {
    pub total_count: u32,
}

/// An issue or a pull request. Times are seconds since the Unix epoch.
#[derive(Debug, Clone)]
pub struct Issue {
    pub number: u32,
    pub title: String,
    pub body: Option<String>,
    pub state: IssueState,
    pub author: Author,
    pub created_at: i64,
    pub updated_at: i64,
    pub labels: Vec<Label>,
    pub url: String,
    pub comments: CommentCount,
    pub is_pull_request: bool,
}

pub struct LabelView {
    pub name: Seq<char>,
    pub color: Option<Seq<char>>,
    pub description: Option<Seq<char>>,
}

pub struct IssueView {
    pub number: u32,
    pub title: Seq<char>,
    pub body: Option<Seq<char>>,
    pub state: IssueState,
    pub author_login: Seq<char>,
    pub author_type: Option<Seq<char>>,
    pub created_at: i64,
    pub updated_at: i64,
    pub labels: Seq<LabelView>,
    pub url: Seq<char>,
    pub comment_count: u32,
    pub is_pull_request: bool,
}

impl View for Label {
    type V = LabelView;

    open spec fn view(&self) -> LabelView {
        LabelView { name: self.name@, color: opt_view(self.color), description: opt_view(self.description) }
    }
}

impl View for Issue {
    type V = IssueView;

    open spec fn view(&self) -> IssueView {
        IssueView {
            number: self.number,
            title: self.title@,
            body: opt_view(self.body),
            state: self.state,
            author_login: self.author.login@,
            author_type: opt_view(self.author.user_type),
            created_at: self.created_at,
            updated_at: self.updated_at,
            labels: self.labels@.map_values(|l: Label| l@),
            url: self.url@,
            comment_count: self.comments.total_count,
            is_pull_request: self.is_pull_request,
        }
    }
}

/// The names of a sequence of labels, in order.
pub open spec fn label_names(labels: Seq<LabelView>) -> Seq<Seq<char>> {
    labels.map_values(|l: LabelView| l.name)
}

impl Label {
    /// A field-by-field copy.
    pub fn duplicate(&self) -> (r: Label)
        ensures
            r@ == self@,
    {
        Label { name: self.name.clone(), color: copy_opt(&self.color), description: copy_opt(&self.description) }
    }
}

/// A copy of a list of labels.
pub fn copy_labels(labels: &Vec<Label>) -> (r: Vec<Label>)
    ensures
        r@.map_values(|l: Label| l@) == labels@.map_values(|l: Label| l@),
{
    let mut r: Vec<Label> = Vec::new();
    let mut i: usize = 0;
    while i < labels.len()
        invariant
            i <= labels@.len(),
            r@.len() == i,
            forall|k: int| 0 <= k < i ==> #[trigger] r@[k]@ == labels@[k]@,
        decreases labels.len() - i,
    {
        r.push(labels[i].duplicate());
        i = i + 1;
    }
    assert(r@.map_values(|l: Label| l@) =~= labels@.map_values(|l: Label| l@));
    r
}

impl Issue {
    /// A field-by-field copy.
    pub fn duplicate(&self) -> (r: Issue)
        ensures
            r@ == self@,
    {
        Issue {
            number: self.number,
            title: self.title.clone(),
            body: copy_opt(&self.body),
            state: self.state,
            author: Author { login: self.author.login.clone(), user_type: copy_opt(&self.author.user_type) },
            created_at: self.created_at,
            updated_at: self.updated_at,
            labels: copy_labels(&self.labels),
            url: self.url.clone(),
            comments: CommentCount { total_count: self.comments.total_count },
            is_pull_request: self.is_pull_request,
        }
    }
}

/// Activity of one repository over the period of a report.
#[derive(Debug)]
pub struct RepoActivity {
    pub new_issues: Vec<Issue>,
    pub new_prs: Vec<Issue>,
    pub updated_issues: Vec<Issue>,
    pub updated_prs: Vec<Issue>,
    pub merged_prs: Vec<Issue>,
    pub closed_issues: Vec<Issue>,
}

impl RepoActivity {
    /// Activity with no items.
    pub fn empty() -> (r: RepoActivity)
        ensures
            r.new_issues@.len() == 0,
            r.new_prs@.len() == 0,
            r.updated_issues@.len() == 0,
            r.updated_prs@.len() == 0,
            r.merged_prs@.len() == 0,
            r.closed_issues@.len() == 0,
    {
        RepoActivity {
            new_issues: Vec::new(),
            new_prs: Vec::new(),
            updated_issues: Vec::new(),
            updated_prs: Vec::new(),
            merged_prs: Vec::new(),
            closed_issues: Vec::new(),
        }
    }
}

/// Repository owner.
#[derive(Debug, Clone)]
pub struct Owner {
    pub login: String,
}

/// A branch reference.
#[derive(Debug, Clone)]
pub struct BranchRef {
    pub name: String,
}

/// Repository named in a notification.
#[derive(Debug, Clone)]
pub struct NotificationRepo {
    pub full_name: String,
}

/// Subject of a notification.
#[derive(Debug, Clone)]
pub struct NotificationSubject {
    pub title: String,
    pub subject_type: String,
    pub url: Option<String>,
}

/// Whether a tracked repository can still be reached.
#[derive(Debug, Clone, Copy, PartialEq, Eq, Structural)]
pub enum RepoStatus {
    Active,
    Deleted,
    Inaccessible,
}

/// A user as the REST API reports it.
#[derive(Debug, Clone)]
pub struct RestUser {
    pub login: String,
    pub user_type: Option<String>,
}

/// One changed file of a pull request.
#[derive(Debug, Clone)]
pub struct PrFileChange {
    pub filename: String,
    pub status: String,
    pub additions: u32,
    pub deletions: u32,
    pub changes: u32,
    pub patch: Option<String>,
}

/// The changes of a pull request.
#[derive(Debug, Clone)]
pub struct PrDiff {
    pub files: Vec<PrFileChange>,
    pub total_additions: u32,
    pub total_deletions: u32,
    pub total_files: u32,
}

/// Repository named in an activity event.
#[derive(Debug, Clone)]
pub struct ActivityRepo {
    pub id: u64,
    pub name: String,
    pub url: String,
}

/// `owner/repo` of an issue address `https://github.com/owner/repo/...`.
pub open spec fn repository_of(url: Seq<char>) -> Option<Seq<char>> {
    let prefix = "https://github.com/"@;
    if !has_prefix(url, prefix) {
        None
    } else {
        let parts = split_seq(url.subrange(prefix.len() as int, url.len() as int), '/');
        if parts.len() >= 2 {
            Some(parts[0] + "/"@ + parts[1])
        } else {
            None
        }
    }
}

impl Issue {
    /// The repository named in the issue's address.
    pub fn repository_name(&self) -> (r: Option<String>)
        ensures
            match r {
                Some(s) => repository_of(self.url@) == Some(s@),
                None => repository_of(self.url@) is None,
            },
    {
        proof {
            reveal_strlit("https://github.com/");
        }
        let url = self.url.as_str();
        if !starts_with(url, "https://github.com/") {
            return None;
        }
        let n = url.unicode_len();
        let parts = split_char(url.substring_char(19, n), '/');
        let ghost pv = parts@.map_values(|p: String| p@);
        if parts.len() >= 2 {
            assert(pv[0] == parts@[0]@ && pv[1] == parts@[1]@);
            let mut s = parts[0].clone();
            s.append("/");
            s.append(parts[1].as_str());
            Some(s)
        } else {
            None
        }
    }
}

impl Default for RepoActivity {
    fn default() -> (r: RepoActivity)
        ensures
            r.new_issues@.len() == 0,
            r.new_prs@.len() == 0,
            r.updated_issues@.len() == 0,
            r.updated_prs@.len() == 0,
            r.merged_prs@.len() == 0,
            r.closed_issues@.len() == 0,
    {
        RepoActivity::empty()
    }
}

/// The state of an item as the REST API reports it: `open` is open; a
/// `closed` pull request that was merged is merged; anything else is closed.
pub open spec fn rest_state(state: Seq<char>, is_pull_request: bool, merged: Option<bool>) -> IssueState {
    if state == "open"@ {
        IssueState::Open
    } else if state == "closed"@ && is_pull_request && merged == Some(true) {
        IssueState::Merged
    } else {
        IssueState::Closed
    }
}

pub fn issue_state_from_rest(state: &str, is_pull_request: bool, merged: Option<bool>) -> (r: IssueState)
    ensures
        r == rest_state(state@, is_pull_request, merged),
{
    if str_eq(state, "open") {
        IssueState::Open
    } else if str_eq(state, "closed") && is_pull_request && merged == Some(true) {
        IssueState::Merged
    } else {
        IssueState::Closed
    }
}

} // verus!
