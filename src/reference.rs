//! References to GitHub issues and pull requests, as URLs or `owner/repo#N`.
use vstd::prelude::*;
use crate::text::{decimal, decimal_string, has_prefix, parse_u32, parsed_u32, split_char, split_seq, starts_with, str_eq, trim, trimmed};

verus! {

/// A parsed reference to an issue or pull request. `is_pull_request` is
/// `None` when the reference does not tell.
#[derive(Debug, Clone, PartialEq)]
pub struct IssueReference {
    pub owner: String,
    pub repo: String,
    pub number: u32,
    pub is_pull_request: Option<bool>,
}

pub struct ReferenceView {
    pub owner: Seq<char>,
    pub repo: Seq<char>,
    pub number: u32,
    pub is_pull_request: Option<bool>,
}

impl View for IssueReference {
    type V = ReferenceView;

    open spec fn view(&self) -> ReferenceView {
        ReferenceView { owner: self.owner@, repo: self.repo@, number: self.number, is_pull_request: self.is_pull_request }
    }
}

pub open spec fn full_name(owner: Seq<char>, repo: Seq<char>) -> Seq<char> {
    owner + "/"@ + repo
}

pub open spec fn item_path(is_pr: Option<bool>) -> Seq<char> {
    if is_pr == Some(true) {
        "pull"@
    } else {
        "issues"@
    }
}

pub open spec fn github_prefix() -> Seq<char> {
    "https://github.com/"@
}

/// The reference a full GitHub URL denotes, if any.
pub open spec fn url_reference(s: Seq<char>) -> Option<ReferenceView> {
    if !has_prefix(s, github_prefix()) {
        None
    } else {
        let parts = split_seq(s.subrange(github_prefix().len() as int, s.len() as int), '/');
        if parts.len() < 4 {
            None
        } else {
            let kind = if parts[2] == "pull"@ {
                Some(true)
            } else if parts[2] == "issues"@ {
                Some(false)
            } else {
                None
            };
            match (kind, parsed_u32(parts[3])) {
                (Some(k), Some(n)) => Some(ReferenceView { owner: parts[0], repo: parts[1], number: n, is_pull_request: Some(k) }),
                _ => None,
            }
        }
    }
}

/// The reference an `owner/repo#N` text denotes, if any.
pub open spec fn shorthand_reference(s: Seq<char>) -> Option<ReferenceView> {
    let parts = split_seq(s, '#');
    if parts.len() != 2 {
        None
    } else {
        let names = split_seq(parts[0], '/');
        if names.len() != 2 {
            None
        } else {
            match parsed_u32(parts[1]) {
                Some(n) => Some(ReferenceView { owner: names[0], repo: names[1], number: n, is_pull_request: None }),
                None => None,
            }
        }
    }
}

/// The reference a text denotes once trimmed: a URL first, then a shorthand.
pub open spec fn reference_of(s: Seq<char>) -> Option<ReferenceView> {
    let t = trimmed(s);
    match url_reference(t) {
        Some(r) => Some(r),
        None => shorthand_reference(t),
    }
}

impl IssueReference {
    /// `owner/repo`.
    pub fn repo_name(&self) -> (r: String)
        ensures
            r@ == full_name(self.owner@, self.repo@),
    {
        let mut s = self.owner.clone();
        s.append("/");
        s.append(self.repo.as_str());
        s
    }

    /// `owner/repo#N`.
    pub fn display(&self) -> (r: String)
        ensures
            r@ == full_name(self.owner@, self.repo@) + "#"@ + decimal(self.number as nat),
    {
        let mut s = self.repo_name();
        s.append("#");
        let n = decimal_string(self.number as u64);
        s.append(n.as_str());
        s
    }

    /// The web address of the item; an unknown kind is taken as an issue.
    pub fn url(&self) -> (r: String)
        ensures
            r@ == github_prefix() + full_name(self.owner@, self.repo@) + "/"@ + item_path(self.is_pull_request) + "/"@
                + decimal(self.number as nat),
    {
        let mut s = String::from_str("https://github.com/");
        let name = self.repo_name();
        s.append(name.as_str());
        s.append("/");
        let path = match self.is_pull_request {
            Some(true) => "pull",
            _ => "issues",
        };
        s.append(path);
        s.append("/");
        let n = decimal_string(self.number as u64);
        s.append(n.as_str());
        s
    }
}

fn make_reference(owner: &String, repo: &String, number: u32, is_pull_request: Option<bool>) -> (r: IssueReference)
    ensures
        r@ == (ReferenceView { owner: owner@, repo: repo@, number, is_pull_request }),
{
    IssueReference { owner: owner.clone(), repo: repo.clone(), number, is_pull_request }
}

/// Parses a full GitHub URL of an issue or pull request.
pub fn parse_github_url(url: &str) -> (r: Option<IssueReference>)
    ensures
        match r {
            Some(x) => url_reference(url@) == Some(x@),
            None => url_reference(url@) is None,
        },
{
    proof {
        reveal_strlit("https://github.com/");
    }
    if !starts_with(url, "https://github.com/") {
        return None;
    }
    let n = url.unicode_len();
    let path = url.substring_char(19, n);
    let parts = split_char(path, '/');
    let ghost pv = parts@.map_values(|p: String| p@);
    if parts.len() < 4 {
        return None;
    }
    assert(pv[2] == parts@[2]@ && pv[3] == parts@[3]@ && pv[0] == parts@[0]@ && pv[1] == parts@[1]@);
    let kind = if str_eq(parts[2].as_str(), "pull") {
        Some(true)
    } else if str_eq(parts[2].as_str(), "issues") {
        Some(false)
    } else {
        None
    };
    match (kind, parse_u32(parts[3].as_str())) {
        (Some(k), Some(number)) => Some(make_reference(&parts[0], &parts[1], number, Some(k))),
        _ => None,
    }
}

/// Parses an `owner/repo#N` reference.
pub fn parse_shorthand_reference(input: &str) -> (r: Option<IssueReference>)
    ensures
        match r {
            Some(x) => shorthand_reference(input@) == Some(x@),
            None => shorthand_reference(input@) is None,
        },
{
    let parts = split_char(input, '#');
    let ghost pv = parts@.map_values(|p: String| p@);
    if parts.len() != 2 {
        return None;
    }
    assert(pv[0] == parts@[0]@ && pv[1] == parts@[1]@);
    let names = split_char(parts[0].as_str(), '/');
    let ghost nv = names@.map_values(|p: String| p@);
    if names.len() != 2 {
        return None;
    }
    assert(nv[0] == names@[0]@ && nv[1] == names@[1]@);
    match parse_u32(parts[1].as_str()) {
        Some(number) => Some(make_reference(&names[0], &names[1], number, None)),
        None => None,
    }
}

/// Parses a reference given as a URL or as `owner/repo#N`, ignoring
/// surrounding white space.
pub fn parse_issue_reference(input: &str) -> (r: Result<IssueReference, String>)
    ensures
        match r {
            Ok(x) => reference_of(input@) == Some(x@),
            Err(_) => reference_of(input@) is None,
        },
{
    let t = trim(input);
    match parse_github_url(t) {
        Some(x) => Ok(x),
        None => match parse_shorthand_reference(t) {
            Some(x) => Ok(x),
            None => Err(
                String::from_str(
                    "Invalid issue reference format. Expected URL (https://github.com/owner/repo/issues/123) or shorthand (owner/repo#123)",
                ),
            ),
        },
    }
}

} // verus!
