//! Prompt texts for summarizing single issues and pull requests.
use vstd::prelude::*;
use crate::github::{Issue, IssueState, IssueView, RepoActivity};
use crate::text::{
    decimal, decimal_string, join_comma, join_with_comma, lower_of, lowercase, replace_all, replaced, split_char, split_seq,
};

verus! {

pub open spec fn context_head() -> Seq<char> {
    "Summarize this GitHub issue/PR and its discussion:\n\nTitle: "@
}

pub open spec fn context_tail() -> Seq<char> {
    "Provide:\n1. A brief summary of the issue/PR (2-3 sentences)\n2. Key points or decisions made\n3. Current status and next steps if clear\n4. Any blockers or concerns raised"@
}

/// `Comment i:` blocks for the first `n` comments, numbered from 1.
pub open spec fn numbered_comments(comments: Seq<Seq<char>>, n: int) -> Seq<char>
    decreases n,
{
    if n <= 0 {
        seq![]
    } else {
        numbered_comments(comments, n - 1) + "Comment "@ + decimal(n as nat) + ":\n"@ + comments[n - 1] + "\n\n"@
    }
}

pub open spec fn strings_view(v: Seq<String>) -> Seq<Seq<char>> {
    v.map_values(|s: String| s@)
}

/// A prompt asking for a summary of an issue and its comments.
pub fn summarize_context_prompt(issue_title: &str, issue_body: &str, comments: &[String]) -> (r: String)
    requires
        comments@.len() < u64::MAX,
    ensures
        r@ == context_head() + issue_title@ + "\n\nDescription:\n"@ + issue_body@ + "\n\n"@ + (if comments@.len() == 0 {
            seq![]
        } else {
            "Recent Comments:\n"@ + numbered_comments(strings_view(comments@), comments@.len() as int)
        }) + context_tail(),
{
    let mut s = String::from_str("Summarize this GitHub issue/PR and its discussion:\n\nTitle: ");
    s.append(issue_title);
    s.append("\n\nDescription:\n");
    s.append(issue_body);
    s.append("\n\n");
    if comments.len() > 0 {
        s.append("Recent Comments:\n");
        let ghost head = s@;
        let ghost cv = strings_view(comments@);
        let mut i: usize = 0;
        while i < comments.len()
            invariant
                i <= comments@.len(),
                comments@.len() < u64::MAX,
                cv == strings_view(comments@),
                s@ == head + numbered_comments(cv, i as int),
            decreases comments.len() - i,
        {
            assert(cv[i as int] == comments@[i as int]@);
            s.append("Comment ");
            let num = decimal_string((i + 1) as u64);
            s.append(num.as_str());
            s.append(":\n");
            s.append(comments[i].as_str());
            s.append("\n\n");
            i = i + 1;
        }
    }
    s.append("Provide:\n1. A brief summary of the issue/PR (2-3 sentences)\n2. Key points or decisions made\n3. Current status and next steps if clear\n4. Any blockers or concerns raised");
    s
}

pub open spec fn maintainer_head() -> Seq<char> {
    "You are helping a project maintainer quickly understand and make decisions about a GitHub issue/PR. \n\n**Issue Details:**\n- Title: "@
}

pub open spec fn recommendations_text() -> Seq<char> {
    "\n**Provide the following analysis:**\n\n## Required Action\nClearly state what action you, as the maintainer, need to take. Be specific and actionable.\n\n## Recommendations  \nProvide exactly 2 specific, practical recommendations for how to handle this issue/PR. Focus on concrete next steps.\n\n## Current Status\n- State (open/closed/merged)\n- Key participants and their roles\n- Decision points reached so far\n- Any blockers or dependencies\n\n## Summary\nConcise overview of what this issue/PR is about and why it matters to the project.\n\n## Key Discussion Points\n- Important quotes or decisions from the discussion\n- Different viewpoints presented\n- Technical considerations raised\n- Community concerns or feedback\n\n## Recent Activity\nWhat has happened most recently that the maintainer should know about.\n\n**Format as markdown with clear headings. Focus on helping the maintainer make informed decisions quickly.**\n\n**Important formatting notes:**\n- When mentioning users, make them clickable: [@username](https://github.com/username)\n- When referencing issues/PRs, include clickable links: [#123](URL)"@
}

pub open spec fn facts_text() -> Seq<char> {
    "\n**Provide a factual summary including:**\n\n## Current Status\n- State (open/closed/merged) \n- Key participants and their roles\n- Timeline of major events\n\n## Summary\nObjective overview of what this issue/PR addresses.\n\n## Key Discussion Points\n- Main technical points discussed\n- Different approaches considered\n- Concerns or blockers identified\n\n## Recent Activity\nLatest developments in chronological order.\n\n**Format as markdown. Present facts objectively without recommendations.**\n\n**Important formatting notes:**\n- When mentioning users, make them clickable: [@username](https://github.com/username)\n- When referencing issues/PRs, include clickable links: [#123](URL)"@
}

pub open spec fn labels_line(labels: Seq<Seq<char>>) -> Seq<char> {
    if labels.len() == 0 {
        "none"@
    } else {
        join_comma(labels, labels.len() as int)
    }
}

pub open spec fn pairs_view(v: Seq<(String, String)>) -> Seq<(Seq<char>, Seq<char>)> {
    v.map_values(|p: (String, String)| (p.0@, p.1@))
}

/// `Comment i by @author:` blocks for the first `n` comments.
pub open spec fn discussion(comments: Seq<(Seq<char>, Seq<char>)>, n: int) -> Seq<char>
    decreases n,
{
    if n <= 0 {
        seq![]
    } else {
        discussion(comments, n - 1) + "Comment "@ + decimal(n as nat) + " by @"@ + comments[n - 1].0 + ":\n"@
            + comments[n - 1].1 + "\n\n"@
    }
}

/// A prompt that helps a maintainer decide on an issue: its details, the
/// discussion, then either a request for recommendations or for facts only.
pub fn summarize_issue_for_maintainer(
    issue_title: &str,
    issue_body: &str,
    issue_state: &str,
    issue_author: &str,
    issue_labels: &Vec<String>,
    issue_url: &str,
    comments: &Vec<(String, String)>,
    include_recommendations: bool,
) -> (r: String)
    requires
        comments@.len() < u64::MAX,
    ensures
        r@ == maintainer_head() + issue_title@ + "\n- State: "@ + issue_state@ + "\n- Author: @"@ + issue_author@
            + "\n- Labels: "@ + labels_line(strings_view(issue_labels@)) + "\n- URL: "@ + issue_url@ + "\n\n**Description:**\n"@
            + issue_body@ + "\n\n"@ + (if comments@.len() == 0 {
            seq![]
        } else {
            "**Discussion:**\n"@ + discussion(pairs_view(comments@), comments@.len() as int)
        }) + if include_recommendations {
            recommendations_text()
        } else {
            facts_text()
        },
{
    let mut s = String::from_str("You are helping a project maintainer quickly understand and make decisions about a GitHub issue/PR. \n\n**Issue Details:**\n- Title: ");
    s.append(issue_title);
    s.append("\n- State: ");
    s.append(issue_state);
    s.append("\n- Author: @");
    s.append(issue_author);
    s.append("\n- Labels: ");
    if issue_labels.len() == 0 {
        s.append("none");
    } else {
        let joined = join_with_comma(issue_labels);
        s.append(joined.as_str());
    }
    s.append("\n- URL: ");
    s.append(issue_url);
    s.append("\n\n**Description:**\n");
    s.append(issue_body);
    s.append("\n\n");
    append_discussion(&mut s, comments);
    if include_recommendations {
        s.append("\n**Provide the following analysis:**\n\n## Required Action\nClearly state what action you, as the maintainer, need to take. Be specific and actionable.\n\n## Recommendations  \nProvide exactly 2 specific, practical recommendations for how to handle this issue/PR. Focus on concrete next steps.\n\n## Current Status\n- State (open/closed/merged)\n- Key participants and their roles\n- Decision points reached so far\n- Any blockers or dependencies\n\n## Summary\nConcise overview of what this issue/PR is about and why it matters to the project.\n\n## Key Discussion Points\n- Important quotes or decisions from the discussion\n- Different viewpoints presented\n- Technical considerations raised\n- Community concerns or feedback\n\n## Recent Activity\nWhat has happened most recently that the maintainer should know about.\n\n**Format as markdown with clear headings. Focus on helping the maintainer make informed decisions quickly.**\n\n**Important formatting notes:**\n- When mentioning users, make them clickable: [@username](https://github.com/username)\n- When referencing issues/PRs, include clickable links: [#123](URL)");
    } else {
        s.append("\n**Provide a factual summary including:**\n\n## Current Status\n- State (open/closed/merged) \n- Key participants and their roles\n- Timeline of major events\n\n## Summary\nObjective overview of what this issue/PR addresses.\n\n## Key Discussion Points\n- Main technical points discussed\n- Different approaches considered\n- Concerns or blockers identified\n\n## Recent Activity\nLatest developments in chronological order.\n\n**Format as markdown. Present facts objectively without recommendations.**\n\n**Important formatting notes:**\n- When mentioning users, make them clickable: [@username](https://github.com/username)\n- When referencing issues/PRs, include clickable links: [#123](URL)");
    }
    s
}

/// A title character as it may stand in a file name: letters, digits, `-`
/// and `_` stay, a space becomes `-`, anything else `_`.
pub open spec fn file_char(c: char) -> char {
    if ('a' <= c && c <= 'z') || ('A' <= c && c <= 'Z') || ('0' <= c && c <= '9') || c == '-' || c == '_' {
        c
    } else if c == ' ' {
        '-'
    } else {
        '_'
    }
}

/// Index of the first character from `i` on that is not `c`.
pub open spec fn lead_end(s: Seq<char>, c: char, i: int) -> int
    decreases s.len() - i,
{
    if 0 <= i < s.len() && s[i] == c {
        lead_end(s, c, i + 1)
    } else {
        i
    }
}

/// One past the last character before `j` that is not `c`.
pub open spec fn trail_end(s: Seq<char>, c: char, j: int) -> int
    decreases j,
{
    if 0 < j <= s.len() && s[j - 1] == c {
        trail_end(s, c, j - 1)
    } else {
        j
    }
}

/// `s` without leading and trailing `c`.
pub open spec fn trim_char(s: Seq<char>, c: char) -> Seq<char> {
    let a = lead_end(s, c, 0);
    if a >= s.len() {
        seq![]
    } else {
        s.subrange(a, trail_end(s, c, s.len() as int))
    }
}

proof fn lemma_trail_end(s: Seq<char>, c: char, j: int, a: int)
    requires
        0 <= a < j <= s.len(),
        s[a] != c,
    ensures
        a < trail_end(s, c, j) <= j,
    decreases j,
{
    if s[j - 1] == c {
        lemma_trail_end(s, c, j - 1, a);
    }
}

fn trim_char_exec(s: &str, c: char) -> (r: &str)
    ensures
        r@ == trim_char(s@, c),
{
    let n = s.unicode_len();
    let mut a: usize = 0;
    while a < n && s.get_char(a) == c
        invariant
            a <= n,
            n == s@.len(),
            lead_end(s@, c, 0) == lead_end(s@, c, a as int),
        decreases n - a,
    {
        a = a + 1;
    }
    if a >= n {
        return s.substring_char(0, 0);
    }
    let mut b: usize = n;
    proof {
        lemma_trail_end(s@, c, n as int, a as int);
    }
    while b > 0 && s.get_char(b - 1) == c
        invariant
            a < b <= n,
            n == s@.len(),
            s@[a as int] != c,
            trail_end(s@, c, n as int) == trail_end(s@, c, b as int),
        decreases b,
    {
        b = b - 1;
    }
    s.substring_char(a, b)
}

/// The file-name form of a title, before case folding.
pub open spec fn mapped_title(title: Seq<char>) -> Seq<char> {
    title.map_values(|c: char| file_char(c))
}

/// The cleaned title: mapped, trimmed of `-` then of `_`, case-folded, and
/// cut to 47 characters and `...` when longer than 50.
pub open spec fn clean_title(title: Seq<char>) -> Seq<char> {
    let t = lower_of(trim_char(trim_char(mapped_title(title), '-'), '_'));
    if t.len() > 50 {
        t.subrange(0, 47) + "..."@
    } else {
        t
    }
}

/// The name part of `owner/name`, or the whole text when there is no second part.
pub open spec fn short_repo(repo_name: Seq<char>) -> Seq<char> {
    let parts = split_seq(repo_name, '/');
    if parts.len() >= 2 {
        parts[1]
    } else {
        repo_name
    }
}

/// `repo-N-clean-title.md`.
pub fn generate_issue_filename(repo_name: &str, issue_number: u32, title: &str) -> (r: String)
    ensures
        r@ == short_repo(repo_name@) + "-"@ + decimal(issue_number as nat) + "-"@ + clean_title(title@) + ".md"@,
{
    let parts = split_char(repo_name, '/');
    let ghost pv = parts@.map_values(|p: String| p@);
    let mut out = if parts.len() >= 2 {
        assert(pv[1] == parts@[1]@);
        parts[1].clone()
    } else {
        String::from_str(repo_name)
    };
    out.append("-");
    let num = decimal_string(issue_number as u64);
    out.append(num.as_str());
    out.append("-");
    let n = title.unicode_len();
    let mut mapped = String::new();
    let mut i: usize = 0;
    while i < n
        invariant
            i <= n,
            n == title@.len(),
            mapped@ == mapped_title(title@.subrange(0, i as int)),
        decreases n - i,
    {
        let c = title.get_char(i);
        let ghost before = mapped@;
        proof {
            reveal_strlit("-");
            reveal_strlit("_");
        }
        assert(mapped_title(title@.subrange(0, i + 1)) =~= mapped_title(title@.subrange(0, i as int)).push(file_char(c)));
        if ('a' <= c && c <= 'z') || ('A' <= c && c <= 'Z') || ('0' <= c && c <= '9') || c == '-' || c == '_' {
            assert(title@.subrange(i as int, i + 1) =~= seq![c]);
            mapped.append(title.substring_char(i, i + 1));
        } else if c == ' ' {
            mapped.append("-");
        } else {
            mapped.append("_");
        }
        assert(mapped@ =~= before.push(file_char(c)));
        i = i + 1;
    }
    assert(title@.subrange(0, n as int) == title@);
    let trimmed = trim_char_exec(trim_char_exec(mapped.as_str(), '-'), '_');
    let low = lowercase(trimmed);
    let m = low.as_str().unicode_len();
    if m > 50 {
        out.append(low.as_str().substring_char(0, 47));
        out.append("...");
    } else {
        out.append(low.as_str());
    }
    out.append(".md");
    out
}

pub open spec fn review_head() -> Seq<char> {
    "You are providing a maintainer-focused code review for a GitHub pull request.\n\n**Pull Request Details:**\n- Title: "@
}

pub open spec fn review_recommendations_text() -> Seq<char> {
    "\n**Provide a comprehensive code review analysis:**\n\n## Code Review Summary\nProvide a high-level assessment of the code changes, highlighting the main purpose and overall quality.\n\n## Key Findings\n- **Strengths**: What's well-implemented in this PR\n- **Concerns**: Issues that need attention (bugs, performance, security, maintainability)\n- **Architecture**: How well the changes fit with the existing codebase structure\n\n## Required Actions\nList specific, actionable items the maintainer should address before merging, prioritized by importance.\n\n## Recommendations\nProvide exactly 2 specific recommendations for improving this PR or the development process.\n\n## Technical Assessment\n- **Code Quality**: Style, clarity, and maintainability\n- **Testing**: Coverage and test quality assessment\n- **Performance**: Potential performance implications\n- **Security**: Security considerations and potential vulnerabilities\n- **Breaking Changes**: Impact on existing APIs or behavior\n\n## Discussion Analysis\nKey technical points from the PR discussion and how they've been addressed.\n\n## Merge Decision Support\nClear guidance on whether this PR is ready to merge, needs revisions, or requires further discussion.\n\n**Format as markdown with clear headings. Focus on helping the maintainer make informed decisions about the code quality and merge readiness.**\n\n**Important formatting notes:**\n- When mentioning users, make them clickable: [@username](https://github.com/username)\n- When referencing issues/PRs, include clickable links: [#123](URL)"@
}

pub open spec fn review_facts_text() -> Seq<char> {
    "\n**Provide an objective code review analysis:**\n\n## Code Changes Overview\nFactual summary of what the code changes accomplish.\n\n## Technical Assessment\n- **Files Modified**: Key files and types of changes\n- **Code Quality**: Objective assessment of style and structure\n- **Testing**: Test coverage and types of tests included\n- **Complexity**: Overall complexity of the changes\n\n## Discussion Summary\nKey technical points discussed in the PR comments.\n\n## Current Status\n- State (open/closed/merged)\n- Review status and approvals\n- CI/CD status if mentioned\n\n**Format as markdown. Present technical facts objectively without recommendations.**\n\n**Important formatting notes:**\n- When mentioning users, make them clickable: [@username](https://github.com/username)\n- When referencing issues/PRs, include clickable links: [#123](URL)"@
}

/// A prompt for a maintainer's review of a pull request: its details, the
/// summary of its changes, the discussion, then either a full review with
/// recommendations or an objective overview.
pub fn review_pr_for_maintainer(
    pr_title: &str,
    pr_body: &str,
    pr_state: &str,
    pr_author: &str,
    pr_labels: &Vec<String>,
    pr_url: &str,
    comments: &Vec<(String, String)>,
    diff_summary: &str,
    include_recommendations: bool,
) -> (r: String)
    requires
        comments@.len() < u64::MAX,
    ensures
        r@ == review_head() + pr_title@ + "\n- State: "@ + pr_state@ + "\n- Author: @"@ + pr_author@ + "\n- Labels: "@
            + labels_line(strings_view(pr_labels@)) + "\n- URL: "@ + pr_url@ + "\n\n**Description:**\n"@ + pr_body@
            + "\n\n**Code Changes Summary:**\n"@ + diff_summary@ + "\n\n"@ + (if comments@.len() == 0 {
            seq![]
        } else {
            "**Discussion:**\n"@ + discussion(pairs_view(comments@), comments@.len() as int)
        }) + if include_recommendations {
            review_recommendations_text()
        } else {
            review_facts_text()
        },
{
    let mut s = String::from_str("You are providing a maintainer-focused code review for a GitHub pull request.\n\n**Pull Request Details:**\n- Title: ");
    s.append(pr_title);
    s.append("\n- State: ");
    s.append(pr_state);
    s.append("\n- Author: @");
    s.append(pr_author);
    s.append("\n- Labels: ");
    if pr_labels.len() == 0 {
        s.append("none");
    } else {
        let joined = join_with_comma(pr_labels);
        s.append(joined.as_str());
    }
    s.append("\n- URL: ");
    s.append(pr_url);
    s.append("\n\n**Description:**\n");
    s.append(pr_body);
    s.append("\n\n**Code Changes Summary:**\n");
    s.append(diff_summary);
    s.append("\n\n");
    append_discussion(&mut s, comments);
    if include_recommendations {
        s.append("\n**Provide a comprehensive code review analysis:**\n\n## Code Review Summary\nProvide a high-level assessment of the code changes, highlighting the main purpose and overall quality.\n\n## Key Findings\n- **Strengths**: What's well-implemented in this PR\n- **Concerns**: Issues that need attention (bugs, performance, security, maintainability)\n- **Architecture**: How well the changes fit with the existing codebase structure\n\n## Required Actions\nList specific, actionable items the maintainer should address before merging, prioritized by importance.\n\n## Recommendations\nProvide exactly 2 specific recommendations for improving this PR or the development process.\n\n## Technical Assessment\n- **Code Quality**: Style, clarity, and maintainability\n- **Testing**: Coverage and test quality assessment\n- **Performance**: Potential performance implications\n- **Security**: Security considerations and potential vulnerabilities\n- **Breaking Changes**: Impact on existing APIs or behavior\n\n## Discussion Analysis\nKey technical points from the PR discussion and how they've been addressed.\n\n## Merge Decision Support\nClear guidance on whether this PR is ready to merge, needs revisions, or requires further discussion.\n\n**Format as markdown with clear headings. Focus on helping the maintainer make informed decisions about the code quality and merge readiness.**\n\n**Important formatting notes:**\n- When mentioning users, make them clickable: [@username](https://github.com/username)\n- When referencing issues/PRs, include clickable links: [#123](URL)");
    } else {
        s.append("\n**Provide an objective code review analysis:**\n\n## Code Changes Overview\nFactual summary of what the code changes accomplish.\n\n## Technical Assessment\n- **Files Modified**: Key files and types of changes\n- **Code Quality**: Objective assessment of style and structure\n- **Testing**: Test coverage and types of tests included\n- **Complexity**: Overall complexity of the changes\n\n## Discussion Summary\nKey technical points discussed in the PR comments.\n\n## Current Status\n- State (open/closed/merged)\n- Review status and approvals\n- CI/CD status if mentioned\n\n**Format as markdown. Present technical facts objectively without recommendations.**\n\n**Important formatting notes:**\n- When mentioning users, make them clickable: [@username](https://github.com/username)\n- When referencing issues/PRs, include clickable links: [#123](URL)");
    }
    s
}

/// Appends the discussion block, when there are comments.
fn append_discussion(s: &mut String, comments: &Vec<(String, String)>)
    requires
        comments@.len() < u64::MAX,
    ensures
        final(s)@ == old(s)@ + if comments@.len() == 0 {
            seq![]
        } else {
            "**Discussion:**\n"@ + discussion(pairs_view(comments@), comments@.len() as int)
        },
{
    if comments.len() > 0 {
        s.append("**Discussion:**\n");
        let ghost head = s@;
        let ghost cv = pairs_view(comments@);
        let mut i: usize = 0;
        while i < comments.len()
            invariant
                i <= comments@.len(),
                comments@.len() < u64::MAX,
                cv == pairs_view(comments@),
                s@ == head + discussion(cv, i as int),
            decreases comments.len() - i,
        {
            assert(cv[i as int] == (comments@[i as int].0@, comments@[i as int].1@));
            s.append("Comment ");
            let num = decimal_string((i + 1) as u64);
            s.append(num.as_str());
            s.append(" by @");
            s.append(comments[i].0.as_str());
            s.append(":\n");
            s.append(comments[i].1.as_str());
            s.append("\n\n");
            i = i + 1;
        }
    }
}

/// The four kinds of items in an activity summary, in the order they appear.
#[derive(Debug, Clone, Copy, PartialEq, Eq, Structural)]
pub enum Section {
    NewPrs,
    UpdatedPrs,
    NewIssues,
    UpdatedIssues,
}

pub open spec fn state_text(s: IssueState) -> Seq<char> {
    match s {
        IssueState::Open => "Open"@,
        IssueState::Closed => "Closed"@,
        IssueState::Merged => "Merged"@,
    }
}

pub open spec fn section_title(k: Section) -> Seq<char> {
    match k {
        Section::NewPrs => "New Pull Requests"@,
        Section::UpdatedPrs => "Updated Pull Requests"@,
        Section::NewIssues => "New Issues"@,
        Section::UpdatedIssues => "Updated Issues"@,
    }
}

/// A short body, shown on its own line with line breaks as spaces.
pub open spec fn body_line(body: Option<Seq<char>>) -> Seq<char> {
    match body {
        Some(b) => if b.len() > 0 && b.len() < 200 {
            "  "@ + replaced(b, "\n"@, " "@) + "\n"@
        } else {
            seq![]
        },
        None => seq![],
    }
}

pub open spec fn item_head(k: Section, i: IssueView) -> Seq<char> {
    let kind = if k == Section::NewPrs || k == Section::UpdatedPrs {
        "PR"@
    } else {
        "Issue"@
    };
    "- ["@ + kind + " #"@ + decimal(i.number as nat) + "]("@ + i.url + "): "@ + i.title + " (State: "@ + state_text(i.state)
}

pub open spec fn author_part(i: IssueView) -> Seq<char> {
    ", by [@"@ + i.author_login + "](https://github.com/"@ + i.author_login + "))\n"@
}

pub open spec fn labels_part(i: IssueView) -> Seq<char> {
    let names = crate::github::label_names(i.labels);
    if names.len() > 0 {
        "  Labels: "@ + join_comma(names, names.len() as int) + "\n"@
    } else {
        seq![]
    }
}

/// What follows the state: the comment count for updated items, the
/// author for new ones, then a short body (new PRs) or the labels (new issues).
pub open spec fn item_rest(k: Section, i: IssueView) -> Seq<char> {
    if k == Section::UpdatedPrs || k == Section::UpdatedIssues {
        ", comments: "@ + decimal(i.comment_count as nat) + ")\n"@
    } else if k == Section::NewPrs {
        author_part(i) + body_line(i.body)
    } else {
        author_part(i) + labels_part(i)
    }
}

/// The line (or lines) of one item in a section.
pub open spec fn item_line(k: Section, i: IssueView) -> Seq<char> {
    item_head(k, i) + item_rest(k, i)
}

pub open spec fn item_lines(k: Section, items: Seq<IssueView>, n: int) -> Seq<char>
    decreases n,
{
    if n <= 0 {
        seq![]
    } else {
        item_lines(k, items, n - 1) + item_line(k, items[n - 1])
    }
}

/// A section: its title with the count, its items and a blank line; nothing
/// when it has no items.
pub open spec fn section_text(k: Section, items: Seq<IssueView>) -> Seq<char> {
    if items.len() == 0 {
        seq![]
    } else {
        "### "@ + section_title(k) + " ("@ + decimal(items.len()) + ")\n"@ + item_lines(k, items, items.len() as int)
            + "\n"@
    }
}

pub open spec fn repository_text(b: crate::analysis::RepoBatch) -> Seq<char> {
    "## Repository: "@ + b.name + "\n\n"@ + section_text(Section::NewPrs, b.new_prs) + section_text(
        Section::UpdatedPrs,
        b.updated_prs,
    ) + section_text(Section::NewIssues, b.new_issues) + section_text(Section::UpdatedIssues, b.updated_issues)
}

pub open spec fn repositories_text(bs: Seq<crate::analysis::RepoBatch>, n: int) -> Seq<char>
    decreases n,
{
    if n <= 0 {
        seq![]
    } else {
        repositories_text(bs, n - 1) + repository_text(bs[n - 1])
    }
}

pub open spec fn summary_instructions() -> Seq<char> {
    "\nProvide a summary that:\n1. Highlights the most important items that need attention\n2. Groups related activities together\n3. Identifies any blocking issues or urgent matters\n4. Suggests action items ONLY for Open issues/PRs that need attention\n5. Celebrates completed work (Merged PRs, Closed issues) separately\n6. Keep it concise - focus on what matters most\n7. When mentioning specific issues or PRs, always include the URL in markdown link format: [#123](URL)\n8. When mentioning users, make them clickable using the format: [@username](https://github.com/username)\n\nIMPORTANT: Pay attention to the State field for each item:\n- Open: Needs attention, suggest actions if appropriate\n- Merged: Completed work, acknowledge the accomplishment\n- Closed: Resolved, mention briefly but don't suggest actions\n"@
}

/// A prompt asking for a summary of the activity of each repository, in the
/// given order, after an optional note from the user.
pub fn summarize_activities_prompt(activities: &Vec<(String, RepoActivity)>, context: Option<&str>) -> (r: String)
    ensures
        r@ == match context {
            Some(c) => "User Context:\n"@ + c@ + "\n\n"@,
            None => seq![],
        } + "Please summarize the following GitHub activity:\n\n"@ + repositories_text(
            crate::analysis::batches_view(activities@),
            activities@.len() as int,
        ) + summary_instructions(),
{
    let ghost bs = crate::analysis::batches_view(activities@);
    let mut s = String::new();
    match context {
        Some(c) => {
            s.append("User Context:\n");
            s.append(c);
            s.append("\n\n");
        },
        None => {},
    }
    s.append("Please summarize the following GitHub activity:\n\n");
    let ghost head = s@;
    let mut i: usize = 0;
    while i < activities.len()
        invariant
            i <= activities@.len(),
            bs == crate::analysis::batches_view(activities@),
            s@ == head + repositories_text(bs, i as int),
        decreases activities.len() - i,
    {
        assert(bs[i as int] == crate::analysis::batch_view(activities@[i as int]));
        append_repository(&mut s, &activities[i].0, &activities[i].1);
        i = i + 1;
    }
    s.append("\nProvide a summary that:\n1. Highlights the most important items that need attention\n2. Groups related activities together\n3. Identifies any blocking issues or urgent matters\n4. Suggests action items ONLY for Open issues/PRs that need attention\n5. Celebrates completed work (Merged PRs, Closed issues) separately\n6. Keep it concise - focus on what matters most\n7. When mentioning specific issues or PRs, always include the URL in markdown link format: [#123](URL)\n8. When mentioning users, make them clickable using the format: [@username](https://github.com/username)\n\nIMPORTANT: Pay attention to the State field for each item:\n- Open: Needs attention, suggest actions if appropriate\n- Merged: Completed work, acknowledge the accomplishment\n- Closed: Resolved, mention briefly but don't suggest actions\n");
    s
}

#[verifier::rlimit(30)]
fn append_repository(s: &mut String, name: &String, activity: &RepoActivity)
    ensures
        final(s)@ == old(s)@ + repository_text(crate::analysis::batch_view((*name, *activity))),
{
    let ghost b = crate::analysis::batch_view((*name, *activity));
    let ghost s0 = s@;
    s.append("## Repository: ");
    s.append(name.as_str());
    s.append("\n\n");
    let ghost s1 = s@;
    assert(s1 == s0 + "## Repository: "@ + b.name + "\n\n"@);
    append_section(s, Section::NewPrs, &activity.new_prs);
    let ghost s2 = s@;
    append_section(s, Section::UpdatedPrs, &activity.updated_prs);
    let ghost s3 = s@;
    append_section(s, Section::NewIssues, &activity.new_issues);
    let ghost s4 = s@;
    append_section(s, Section::UpdatedIssues, &activity.updated_issues);
    proof {
        let t1 = section_text(Section::NewPrs, b.new_prs);
        let t2 = section_text(Section::UpdatedPrs, b.updated_prs);
        let t3 = section_text(Section::NewIssues, b.new_issues);
        let t4 = section_text(Section::UpdatedIssues, b.updated_issues);
        assert(s2 == s1 + t1);
        assert(s3 == s2 + t2);
        assert(s4 == s3 + t3);
        assert(s@ == s4 + t4);
        assert(s@ =~= s0 + ("## Repository: "@ + b.name + "\n\n"@ + t1 + t2 + t3 + t4));
    }
}

fn append_state(s: &mut String, st: IssueState)
    ensures
        final(s)@ == old(s)@ + state_text(st),
{
    match st {
        IssueState::Open => s.append("Open"),
        IssueState::Closed => s.append("Closed"),
        IssueState::Merged => s.append("Merged"),
    }
}

fn append_head(s: &mut String, k: Section, item: &Issue)
    ensures
        final(s)@ == old(s)@ + item_head(k, item@),
{
    s.append("- [");
    if k == Section::NewPrs || k == Section::UpdatedPrs {
        s.append("PR");
    } else {
        s.append("Issue");
    }
    s.append(" #");
    let num = decimal_string(item.number as u64);
    s.append(num.as_str());
    s.append("](");
    s.append(item.url.as_str());
    s.append("): ");
    s.append(item.title.as_str());
    s.append(" (State: ");
    append_state(s, item.state);
}

fn append_author(s: &mut String, item: &Issue)
    ensures
        final(s)@ == old(s)@ + author_part(item@),
{
    s.append(", by [@");
    s.append(item.author.login.as_str());
    s.append("](https://github.com/");
    s.append(item.author.login.as_str());
    s.append("))\n");
}

fn append_body(s: &mut String, item: &Issue)
    ensures
        final(s)@ == old(s)@ + body_line(item@.body),
{
    proof {
        reveal_strlit("\n");
    }
    match &item.body {
        Some(b) => {
            let n = b.as_str().unicode_len();
            if n > 0 && n < 200 {
                s.append("  ");
                let flat = replace_all(b.as_str(), "\n", " ");
                s.append(flat.as_str());
                s.append("\n");
            }
        },
        None => {},
    }
}

fn append_labels(s: &mut String, item: &Issue)
    ensures
        final(s)@ == old(s)@ + labels_part(item@),
{
    if item.labels.len() > 0 {
        let mut names: Vec<String> = Vec::new();
        let mut j: usize = 0;
        while j < item.labels.len()
            invariant
                j <= item.labels@.len(),
                names@.len() == j,
                forall|q: int| 0 <= q < j ==> #[trigger] names@[q]@ == item.labels@[q].name@,
            decreases item.labels.len() - j,
        {
            names.push(item.labels[j].name.clone());
            j = j + 1;
        }
        assert(names@.map_values(|p: String| p@) =~= crate::github::label_names(item@.labels));
        s.append("  Labels: ");
        let joined = join_with_comma(&names);
        s.append(joined.as_str());
        s.append("\n");
    }
}

fn append_item(s: &mut String, k: Section, item: &Issue)
    ensures
        final(s)@ == old(s)@ + item_line(k, item@),
{
    append_head(s, k, item);
    if k == Section::UpdatedPrs || k == Section::UpdatedIssues {
        s.append(", comments: ");
        let c = decimal_string(item.comments.total_count as u64);
        s.append(c.as_str());
        s.append(")\n");
    } else if k == Section::NewPrs {
        append_author(s, item);
        append_body(s, item);
    } else {
        append_author(s, item);
        append_labels(s, item);
    }
}

fn append_section(s: &mut String, k: Section, items: &Vec<Issue>)
    ensures
        final(s)@ == old(s)@ + section_text(k, crate::analysis::issues_view(items@)),
{
    let ghost iv = crate::analysis::issues_view(items@);
    if items.len() == 0 {
        return;
    }
    let ghost start = s@;
    s.append("### ");
    match k {
        Section::NewPrs => s.append("New Pull Requests"),
        Section::UpdatedPrs => s.append("Updated Pull Requests"),
        Section::NewIssues => s.append("New Issues"),
        Section::UpdatedIssues => s.append("Updated Issues"),
    }
    s.append(" (");
    let count = decimal_string(items.len() as u64);
    s.append(count.as_str());
    s.append(")\n");
    let ghost head = s@;
    let mut i: usize = 0;
    while i < items.len()
        invariant
            i <= items@.len(),
            iv == crate::analysis::issues_view(items@),
            s@ == head + item_lines(k, iv, i as int),
        decreases items.len() - i,
    {
        assert(iv[i as int] == items@[i as int]@);
        append_item(s, k, &items[i]);
        i = i + 1;
    }
    s.append("\n");
}

} // verus!
