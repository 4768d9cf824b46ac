//! Urgency, suggested actions and their reasons for prioritized issues.
use vstd::prelude::*;
use crate::analysis::{
    ActionItem, ActionView, PrioritizedIssue, PrioritizedView, RepoImportance, Urgency, actions_view, info_view, infos_view,
    prioritized_view,
};
use crate::config::Importance;
use crate::github::{Issue, IssueView, label_names};
use crate::text::{contains, decimal, decimal_string, has_substring, join_comma, join_with_comma, lower_of, lowercase, str_eq};
use crate::watch_rules::{MatchView, MatchedRule, has_rule, matches_view};

verus! {

pub open spec fn urgency_of(p: PrioritizedView) -> Urgency {
    if has_rule(p.matches, "security_issues"@) || (p.importance == Importance::Critical && p.score.total > 80) {
        Urgency::Critical
    } else if has_rule(p.matches, "breaking_changes"@) || has_rule(p.matches, "review_requests"@) || p.score.total > 60 {
        Urgency::High
    } else if p.score.total > 30 {
        Urgency::Medium
    } else {
        Urgency::Low
    }
}

/// Whether some record is for the named rule.
fn matched(ms: &Vec<MatchedRule>, name: &str) -> (r: bool)
    ensures
        r == has_rule(matches_view(ms@), name@),
{
    let mut i: usize = 0;
    while i < ms.len()
        invariant
            i <= ms@.len(),
            forall|k: int| 0 <= k < i ==> ms@[k].rule_type@ != name@,
        decreases ms.len() - i,
    {
        if str_eq(ms[i].rule_type.as_str(), name) {
            assert(matches_view(ms@)[i as int].0 == name@);
            return true;
        }
        i = i + 1;
    }
    false
}

/// Critical for a security match or a critical repository above 80; High
/// for a breaking-change or review-request match or above 60; Medium above
/// 30; else Low.
pub fn determine_urgency(issue: &PrioritizedIssue) -> (r: Urgency)
    ensures
        r == urgency_of(issue@),
{
    let total = issue.score.total;
    if matched(&issue.matched_rules, "security_issues") || (issue.importance == Importance::Critical && total > 80) {
        Urgency::Critical
    } else if matched(&issue.matched_rules, "breaking_changes") || matched(&issue.matched_rules, "review_requests")
        || total > 60 {
        Urgency::High
    } else if total > 30 {
        Urgency::Medium
    } else {
        Urgency::Low
    }
}

pub open spec fn item_kind(issue: IssueView) -> Seq<char> {
    if issue.is_pull_request {
        "PR"@
    } else {
        "issue"@
    }
}

pub open spec fn is_bug_label(lower: Seq<char>) -> bool {
    has_substring(lower, "bug"@) || has_substring(lower, "urgent"@)
}

/// Some label of the issue mentions a bug or urgency.
pub open spec fn has_bug_label(issue: IssueView) -> bool {
    exists|i: int| 0 <= i < issue.labels.len() && is_bug_label(lower_of(#[trigger] issue.labels[i].name))
}

/// The suggested action for an issue, by the first rule that applies.
pub open spec fn action_of(issue: IssueView, ms: Seq<MatchView>) -> Option<Seq<char>> {
    let num = decimal(issue.number as nat);
    let kind = item_kind(issue);
    if has_rule(ms, "security_issues"@) {
        Some("Review and address security "@ + kind + " #"@ + num)
    } else if has_rule(ms, "review_requests"@) {
        Some("Review PR #"@ + num + ": "@ + issue.url)
    } else if has_rule(ms, "breaking_changes"@) {
        Some("Review breaking change in "@ + kind + " #"@ + num)
    } else if issue.comment_count > 10 {
        Some("Check active discussion on "@ + kind + " #"@ + num)
    } else if issue.is_pull_request {
        Some("Review PR #"@ + num)
    } else if has_bug_label(issue) {
        Some("Address issue #"@ + num)
    } else {
        None
    }
}

fn bug_label_present(issue: &Issue) -> (r: bool)
    ensures
        r == has_bug_label(issue@),
{
    let mut i: usize = 0;
    while i < issue.labels.len()
        invariant
            i <= issue.labels@.len(),
            forall|k: int| 0 <= k < i ==> !is_bug_label(lower_of(#[trigger] issue@.labels[k].name)),
        decreases issue.labels.len() - i,
    {
        assert(issue@.labels[i as int].name == issue.labels@[i as int].name@);
        let low = lowercase(issue.labels[i].name.as_str());
        if contains(low.as_str(), "bug") || contains(low.as_str(), "urgent") {
            return true;
        }
        i = i + 1;
    }
    false
}

fn kind_text(issue: &Issue) -> (r: &'static str)
    ensures
        r@ == item_kind(issue@),
{
    if issue.is_pull_request {
        "PR"
    } else {
        "issue"
    }
}

/// The suggested action for an issue given the rules it matched, or
/// nothing when no rule of action applies.
pub fn generate_action(issue: &Issue, matched_rules: &Vec<MatchedRule>) -> (r: Option<String>)
    ensures
        match r {
            Some(s) => action_of(issue@, matches_view(matched_rules@)) == Some(s@),
            None => action_of(issue@, matches_view(matched_rules@)) is None,
        },
{
    let num = decimal_string(issue.number as u64);
    let kind = kind_text(issue);
    if matched(matched_rules, "security_issues") {
        let mut s = String::from_str("Review and address security ");
        s.append(kind);
        s.append(" #");
        s.append(num.as_str());
        Some(s)
    } else if matched(matched_rules, "review_requests") {
        let mut s = String::from_str("Review PR #");
        s.append(num.as_str());
        s.append(": ");
        s.append(issue.url.as_str());
        Some(s)
    } else if matched(matched_rules, "breaking_changes") {
        let mut s = String::from_str("Review breaking change in ");
        s.append(kind);
        s.append(" #");
        s.append(num.as_str());
        Some(s)
    } else if issue.comments.total_count > 10 {
        let mut s = String::from_str("Check active discussion on ");
        s.append(kind);
        s.append(" #");
        s.append(num.as_str());
        Some(s)
    } else if issue.is_pull_request {
        let mut s = String::from_str("Review PR #");
        s.append(num.as_str());
        Some(s)
    } else if bug_label_present(issue) {
        let mut s = String::from_str("Address issue #");
        s.append(num.as_str());
        Some(s)
    } else {
        None
    }
}

/// The phrase a recognized rule name contributes to a reason.
pub open spec fn rule_phrase(name: Seq<char>) -> Option<Seq<char>> {
    if name == "security_issues"@ {
        Some("Security concern"@)
    } else if name == "breaking_changes"@ {
        Some("Breaking change"@)
    } else if name == "review_requests"@ {
        Some("Review requested"@)
    } else if name == "api_changes"@ {
        Some("API change"@)
    } else if name == "performance"@ {
        Some("Performance impact"@)
    } else {
        None
    }
}

/// Phrases of the first `n` records, in order.
pub open spec fn rule_phrases(ms: Seq<MatchView>, n: int) -> Seq<Seq<char>>
    decreases n,
{
    if n <= 0 {
        seq![]
    } else {
        match rule_phrase(ms[n - 1].0) {
            Some(ph) => rule_phrases(ms, n - 1).push(ph),
            None => rule_phrases(ms, n - 1),
        }
    }
}

pub open spec fn importance_phrases(i: Importance) -> Seq<Seq<char>> {
    match i {
        Importance::Critical => seq!["Critical repository"@],
        Importance::High => seq!["High priority repository"@],
        _ => seq![],
    }
}

pub open spec fn comment_phrases(count: u32) -> Seq<Seq<char>> {
    if count > 10 {
        seq![decimal(count as nat) + " comments"@]
    } else {
        seq![]
    }
}

pub open spec fn reason_parts(p: PrioritizedView) -> Seq<Seq<char>> {
    rule_phrases(p.matches, p.matches.len() as int) + importance_phrases(p.importance) + comment_phrases(
        p.issue.comment_count,
    )
}

/// The reason given for acting on an issue.
pub open spec fn reason_of(p: PrioritizedView) -> Seq<char> {
    let parts = reason_parts(p);
    if parts.len() == 0 {
        "Requires attention"@
    } else {
        join_comma(parts, parts.len() as int)
    }
}

fn phrase_for(name: &str) -> (r: Option<&'static str>)
    ensures
        match r {
            Some(s) => rule_phrase(name@) == Some(s@),
            None => rule_phrase(name@) is None,
        },
{
    if str_eq(name, "security_issues") {
        Some("Security concern")
    } else if str_eq(name, "breaking_changes") {
        Some("Breaking change")
    } else if str_eq(name, "review_requests") {
        Some("Review requested")
    } else if str_eq(name, "api_changes") {
        Some("API change")
    } else if str_eq(name, "performance") {
        Some("Performance impact")
    } else {
        None
    }
}

/// Phrases for the matched rules in order, then for the repository's
/// importance, then for a busy discussion, joined with ", "; "Requires
/// attention" when there are none.
pub fn generate_reason(issue: &PrioritizedIssue) -> (r: String)
    ensures
        r@ == reason_of(issue@),
{
    let ghost ms = matches_view(issue.matched_rules@);
    let mut parts: Vec<String> = Vec::new();
    let mut i: usize = 0;
    while i < issue.matched_rules.len()
        invariant
            i <= issue.matched_rules@.len(),
            ms == matches_view(issue.matched_rules@),
            parts@.map_values(|s: String| s@) == rule_phrases(ms, i as int),
        decreases issue.matched_rules.len() - i,
    {
        match phrase_for(issue.matched_rules[i].rule_type.as_str()) {
            Some(ph) => {
                let ghost before = parts@.map_values(|s: String| s@);
                parts.push(String::from_str(ph));
                assert(parts@.map_values(|s: String| s@) =~= before.push(ph@));
            },
            None => {},
        }
        i = i + 1;
    }
    let ghost after_rules = parts@.map_values(|s: String| s@);
    match issue.importance {
        Importance::Critical => {
            parts.push(String::from_str("Critical repository"));
        },
        Importance::High => {
            parts.push(String::from_str("High priority repository"));
        },
        _ => {},
    }
    assert(parts@.map_values(|s: String| s@) =~= after_rules + importance_phrases(issue.importance));
    let ghost after_importance = parts@.map_values(|s: String| s@);
    let count = issue.issue.comments.total_count;
    if count > 10 {
        let mut c = decimal_string(count as u64);
        c.append(" comments");
        parts.push(c);
    }
    assert(parts@.map_values(|s: String| s@) =~= after_importance + comment_phrases(count));
    if parts.len() == 0 {
        String::from_str("Requires attention")
    } else {
        join_with_comma(&parts)
    }
}

/// The action item an issue yields, if it has an action.
pub open spec fn candidate_of(p: PrioritizedView) -> Option<ActionView> {
    match action_of(p.issue, p.matches) {
        Some(d) => Some(ActionView { description: d, issue: p.issue, repo: p.repo, urgency: urgency_of(p), reason: reason_of(p) }),
        None => None,
    }
}

/// Action items of the first `n` issues, in input order.
pub open spec fn candidates(ps: Seq<PrioritizedView>, n: int) -> Seq<ActionView>
    decreases n,
{
    if n <= 0 {
        seq![]
    } else {
        match candidate_of(ps[n - 1]) {
            Some(a) => candidates(ps, n - 1).push(a),
            None => candidates(ps, n - 1),
        }
    }
}

/// The items among the first `n` whose urgency is `u`, in order.
pub open spec fn at_level(c: Seq<ActionView>, u: Urgency, n: int) -> Seq<ActionView>
    decreases n,
{
    if n <= 0 {
        seq![]
    } else if c[n - 1].urgency == u {
        at_level(c, u, n - 1).push(c[n - 1])
    } else {
        at_level(c, u, n - 1)
    }
}

/// A stable reordering by descending urgency.
pub open spec fn by_urgency(c: Seq<ActionView>) -> Seq<ActionView> {
    let n = c.len() as int;
    at_level(c, Urgency::Critical, n) + at_level(c, Urgency::High, n) + at_level(c, Urgency::Medium, n) + at_level(
        c,
        Urgency::Low,
        n,
    )
}

/// The first `k` items, or all of them when there are fewer.
pub open spec fn first_k<A>(s: Seq<A>, k: int) -> Seq<A> {
    if s.len() <= k {
        s
    } else {
        s.subrange(0, k)
    }
}

/// Largest number of action items returned.
pub const MAX_ACTION_ITEMS: usize = 10;

pub open spec fn action_items_of(ps: Seq<PrioritizedView>) -> Seq<ActionView> {
    first_k(by_urgency(candidates(ps, ps.len() as int)), MAX_ACTION_ITEMS as int)
}

fn append_level(out: &mut Vec<ActionItem>, cands: &Vec<ActionItem>, u: Urgency)
    ensures
        actions_view(final(out)@) == actions_view(old(out)@) + at_level(actions_view(cands@), u, cands@.len() as int),
{
    let ghost c = actions_view(cands@);
    let ghost start = actions_view(out@);
    let mut i: usize = 0;
    while i < cands.len()
        invariant
            i <= cands@.len(),
            c == actions_view(cands@),
            actions_view(out@) == start + at_level(c, u, i as int),
        decreases cands.len() - i,
    {
        assert(c[i as int] == cands@[i as int]@);
        if cands[i].urgency == u {
            let ghost before = actions_view(out@);
            out.push(cands[i].duplicate());
            assert(actions_view(out@) =~= before.push(c[i as int]));
        }
        i = i + 1;
    }
}

/// Action items of the issues that have an action: ordered by descending
/// urgency, input order kept among equals, at most ten.
pub fn extract_action_items(prioritized_issues: &Vec<PrioritizedIssue>) -> (r: Vec<ActionItem>)
    ensures
        actions_view(r@) == action_items_of(prioritized_view(prioritized_issues@)),
        r@.len() <= MAX_ACTION_ITEMS,
{
    let ghost ps = prioritized_view(prioritized_issues@);
    let mut cands: Vec<ActionItem> = Vec::new();
    let mut i: usize = 0;
    while i < prioritized_issues.len()
        invariant
            i <= prioritized_issues@.len(),
            ps == prioritized_view(prioritized_issues@),
            actions_view(cands@) == candidates(ps, i as int),
        decreases prioritized_issues.len() - i,
    {
        let p = &prioritized_issues[i];
        assert(ps[i as int] == p@);
        match generate_action(&p.issue, &p.matched_rules) {
            Some(description) => {
                let urgency = determine_urgency(p);
                let reason = generate_reason(p);
                let item = ActionItem { description, issue: p.issue.duplicate(), repo: p.repo.clone(), urgency, reason };
                let ghost before = actions_view(cands@);
                cands.push(item);
                assert(actions_view(cands@) =~= before.push(item@));
            },
            None => {},
        }
        i = i + 1;
    }
    let mut out: Vec<ActionItem> = Vec::new();
    append_level(&mut out, &cands, Urgency::Critical);
    append_level(&mut out, &cands, Urgency::High);
    append_level(&mut out, &cands, Urgency::Medium);
    append_level(&mut out, &cands, Urgency::Low);
    let ghost full = actions_view(out@);
    assert(full =~= by_urgency(actions_view(cands@)));
    out.truncate(MAX_ACTION_ITEMS);
    assert(actions_view(out@) =~= first_k(full, MAX_ACTION_ITEMS as int));
    out
}

/// The fixed guidelines that open every context prompt.
pub open spec fn guidelines() -> Seq<char> {
    "## Summarization Guidelines\n\nWhen summarizing GitHub activity:\n1. Prioritize security issues, breaking changes, and critical bugs first\n2. Highlight pull requests that need review\n3. Group related items together for clarity\n4. For each high-priority item, explain why it matters\n5. Suggest specific actions when appropriate\n6. Keep summaries concise but informative\n"@
}

/// The fixed guidelines for the summarization step.
pub fn build_context_prompt() -> (r: String)
    ensures
        r@ == guidelines(),
{
    String::from_str(
        "## Summarization Guidelines\n\nWhen summarizing GitHub activity:\n1. Prioritize security issues, breaking changes, and critical bugs first\n2. Highlight pull requests that need review\n3. Group related items together for clarity\n4. For each high-priority item, explain why it matters\n5. Suggest specific actions when appropriate\n6. Keep summaries concise but informative\n",
    )
}

/// A repository as (name, importance, context note).
pub type RepoInfo = (Seq<char>, Importance, Option<Seq<char>>);

pub open spec fn repo_line(info: RepoInfo) -> Seq<char> {
    "- "@ + info.0 + match info.2 {
        Some(c) => ": "@ + c,
        None => seq![],
    } + "\n"@
}

/// Lines of the repositories at the given tier among the first `n`.
pub open spec fn tier_lines(infos: Seq<RepoInfo>, tier: Importance, n: int) -> Seq<char>
    decreases n,
{
    if n <= 0 {
        seq![]
    } else if infos[n - 1].1 == tier {
        tier_lines(infos, tier, n - 1) + repo_line(infos[n - 1])
    } else {
        tier_lines(infos, tier, n - 1)
    }
}

pub open spec fn tier_title(tier: Importance) -> Seq<char> {
    match tier {
        Importance::Critical => "Critical"@,
        Importance::High => "High"@,
        Importance::Medium => "Medium"@,
        Importance::Low => "Low"@,
    }
}

/// The section of one tier; empty when no repository is at that tier.
pub open spec fn tier_section(infos: Seq<RepoInfo>, tier: Importance) -> Seq<char> {
    let lines = tier_lines(infos, tier, infos.len() as int);
    if lines.len() == 0 {
        seq![]
    } else {
        "\n### "@ + tier_title(tier) + " importance repositories\n"@ + lines
    }
}

/// The guidelines, then the repositories tier by tier, Critical first.
pub open spec fn context_prompt_of(infos: Seq<RepoInfo>) -> Seq<char> {
    guidelines() + tier_section(infos, Importance::Critical) + tier_section(infos, Importance::High) + tier_section(
        infos,
        Importance::Medium,
    ) + tier_section(infos, Importance::Low)
}

fn tier_title_text(tier: Importance) -> (r: &'static str)
    ensures
        r@ == tier_title(tier),
{
    match tier {
        Importance::Critical => "Critical",
        Importance::High => "High",
        Importance::Medium => "Medium",
        Importance::Low => "Low",
    }
}

fn append_tier_section(out: &mut String, infos: &Vec<RepoImportance>, tier: Importance)
    ensures
        final(out)@ == old(out)@ + tier_section(infos_view(infos@), tier),
{
    let ghost iv = infos_view(infos@);
    let mut lines = String::new();
    let mut i: usize = 0;
    while i < infos.len()
        invariant
            i <= infos@.len(),
            iv == infos_view(infos@),
            lines@ == tier_lines(iv, tier, i as int),
        decreases infos.len() - i,
    {
        let info = &infos[i];
        assert(iv[i as int] == info_view(*info));
        if info.importance == tier {
            lines.append("- ");
            lines.append(info.repo.as_str());
            match &info.context {
                Some(c) => {
                    lines.append(": ");
                    lines.append(c.as_str());
                },
                None => {},
            }
            lines.append("\n");
            assert(lines@ =~= tier_lines(iv, tier, i as int) + repo_line(iv[i as int]));
        }
        i = i + 1;
    }
    if lines.as_str().unicode_len() > 0 {
        out.append("\n### ");
        out.append(tier_title_text(tier));
        out.append(" importance repositories\n");
        out.append(lines.as_str());
    }
    assert(out@ =~= old(out)@ + tier_section(iv, tier));
}

/// The context prompt: guidelines, then for each tier from Critical to Low
/// the repositories at that tier with their context notes.
pub fn build_repo_context_prompt(infos: &Vec<RepoImportance>) -> (r: String)
    ensures
        r@ == context_prompt_of(infos_view(infos@)),
{
    let mut out = build_context_prompt();
    append_tier_section(&mut out, infos, Importance::Critical);
    append_tier_section(&mut out, infos, Importance::High);
    append_tier_section(&mut out, infos, Importance::Medium);
    append_tier_section(&mut out, infos, Importance::Low);
    out
}

pub open spec fn urgency_rank(u: Urgency) -> int {
    match u {
        Urgency::Low => 0,
        Urgency::Medium => 1,
        Urgency::High => 2,
        Urgency::Critical => 3,
    }
}

proof fn lemma_at_level_prefix(s: Seq<ActionView>, t: Seq<ActionView>, u: Urgency, n: int)
    requires
        0 <= n <= s.len(),
        n <= t.len(),
        s.subrange(0, n) == t.subrange(0, n),
    ensures
        at_level(s, u, n) == at_level(t, u, n),
    decreases n,
{
    if n > 0 {
        assert(s.subrange(0, n - 1) == s.subrange(0, n).subrange(0, n - 1));
        assert(t.subrange(0, n - 1) == t.subrange(0, n).subrange(0, n - 1));
        assert(s[n - 1] == s.subrange(0, n)[n - 1]);
        assert(t[n - 1] == t.subrange(0, n)[n - 1]);
        lemma_at_level_prefix(s, t, u, n - 1);
    }
}

proof fn lemma_at_level_concat(s1: Seq<ActionView>, s2: Seq<ActionView>, u: Urgency, m: int)
    requires
        0 <= m <= s2.len(),
    ensures
        at_level(s1 + s2, u, s1.len() + m) == at_level(s1, u, s1.len() as int) + at_level(s2, u, m),
    decreases m,
{
    if m == 0 {
        assert((s1 + s2).subrange(0, s1.len() as int) == s1.subrange(0, s1.len() as int));
        lemma_at_level_prefix(s1 + s2, s1, u, s1.len() as int);
        assert(at_level(s2, u, 0) == Seq::<ActionView>::empty());
        assert(at_level(s1, u, s1.len() as int) + at_level(s2, u, 0) == at_level(s1, u, s1.len() as int));
    } else {
        lemma_at_level_concat(s1, s2, u, m - 1);
        assert((s1 + s2)[s1.len() + m - 1] == s2[m - 1]);
        let a = at_level(s1, u, s1.len() as int);
        let b = at_level(s2, u, m - 1);
        assert((a + b).push(s2[m - 1]) == a + b.push(s2[m - 1]));
    }
}

/// Every item of a level has that urgency, and a level holds at most `n` items.
proof fn lemma_at_level_items(c: Seq<ActionView>, u: Urgency, n: int)
    requires
        0 <= n <= c.len(),
    ensures
        at_level(c, u, n).len() <= n,
        forall|k: int| 0 <= k < at_level(c, u, n).len() ==> (#[trigger] at_level(c, u, n)[k]).urgency == u,
    decreases n,
{
    if n > 0 {
        lemma_at_level_items(c, u, n - 1);
    }
}

/// A sequence all at one urgency is its own level, and has no other level.
proof fn lemma_at_level_uniform(s: Seq<ActionView>, u: Urgency, v: Urgency, n: int)
    requires
        0 <= n <= s.len(),
        forall|k: int| 0 <= k < s.len() ==> (#[trigger] s[k]).urgency == u,
    ensures
        at_level(s, u, n) == s.subrange(0, n),
        u != v ==> at_level(s, v, n) == Seq::<ActionView>::empty(),
    decreases n,
{
    if n > 0 {
        lemma_at_level_uniform(s, u, v, n - 1);
        assert(s.subrange(0, n) == s.subrange(0, n - 1).push(s[n - 1]));
    } else {
        assert(s.subrange(0, 0) == Seq::<ActionView>::empty());
    }
}

/// The four levels together hold every item.
proof fn lemma_levels_len(c: Seq<ActionView>, n: int)
    requires
        0 <= n <= c.len(),
    ensures
        at_level(c, Urgency::Critical, n).len() + at_level(c, Urgency::High, n).len() + at_level(c, Urgency::Medium, n).len()
            + at_level(c, Urgency::Low, n).len() == n,
    decreases n,
{
    if n > 0 {
        lemma_levels_len(c, n - 1);
    }
}

proof fn lemma_level_of_level(c: Seq<ActionView>, u: Urgency, v: Urgency)
    ensures
        at_level(at_level(c, u, c.len() as int), v, at_level(c, u, c.len() as int).len() as int) == if u == v {
            at_level(c, u, c.len() as int)
        } else {
            Seq::<ActionView>::empty()
        },
{
    let l = at_level(c, u, c.len() as int);
    lemma_at_level_items(c, u, c.len() as int);
    lemma_at_level_uniform(l, u, v, l.len() as int);
    assert(l.subrange(0, l.len() as int) == l);
}

/// Items of level `u` in the urgency-ordered sequence are those of `c`, in
/// the same order.
proof fn lemma_by_urgency_stable(c: Seq<ActionView>, u: Urgency)
    ensures
        at_level(by_urgency(c), u, by_urgency(c).len() as int) == at_level(c, u, c.len() as int),
{
    let n = c.len() as int;
    let a = at_level(c, Urgency::Critical, n);
    let b = at_level(c, Urgency::High, n);
    let m = at_level(c, Urgency::Medium, n);
    let l = at_level(c, Urgency::Low, n);
    lemma_at_level_concat(a, b, u, b.len() as int);
    lemma_at_level_concat(a + b, m, u, m.len() as int);
    lemma_at_level_concat(a + b + m, l, u, l.len() as int);
    lemma_level_of_level(c, Urgency::Critical, u);
    lemma_level_of_level(c, Urgency::High, u);
    lemma_level_of_level(c, Urgency::Medium, u);
    lemma_level_of_level(c, Urgency::Low, u);
    let e = Seq::<ActionView>::empty();
    assert(e + e == e);
    assert(e + at_level(c, u, n) == at_level(c, u, n));
    assert(at_level(c, u, n) + e == at_level(c, u, n));
}

/// The urgency-ordered sequence never rises in urgency.
proof fn lemma_by_urgency_sorted(c: Seq<ActionView>)
    ensures
        by_urgency(c).len() == c.len(),
        forall|i: int, j: int|
            0 <= i < j < by_urgency(c).len() ==> urgency_rank(#[trigger] by_urgency(c)[i].urgency) >= urgency_rank(
                #[trigger] by_urgency(c)[j].urgency,
            ),
{
    let n = c.len() as int;
    let a = at_level(c, Urgency::Critical, n);
    let b = at_level(c, Urgency::High, n);
    let m = at_level(c, Urgency::Medium, n);
    let l = at_level(c, Urgency::Low, n);
    lemma_levels_len(c, n);
    lemma_at_level_items(c, Urgency::Critical, n);
    lemma_at_level_items(c, Urgency::High, n);
    lemma_at_level_items(c, Urgency::Medium, n);
    lemma_at_level_items(c, Urgency::Low, n);
    let s = by_urgency(c);
    assert(s == a + b + m + l);
    assert forall|k: int| 0 <= k < s.len() implies urgency_rank(#[trigger] s[k].urgency) == if k < a.len() {
        3int
    } else if k < a.len() + b.len() {
        2int
    } else if k < a.len() + b.len() + m.len() {
        1int
    } else {
        0int
    } by {
        if k < a.len() {
            assert(s[k] == a[k]);
        } else if k < a.len() + b.len() {
            assert(s[k] == b[k - a.len()]);
        } else if k < a.len() + b.len() + m.len() {
            assert(s[k] == m[k - a.len() - b.len()]);
        } else {
            assert(s[k] == l[k - a.len() - b.len() - m.len()]);
        }
    }
}

/// The action items are at most ten, never rise in urgency, and are the
/// first of a stable reordering by urgency of the items of the issues that
/// have an action: each urgency's items keep their input order.
pub proof fn lemma_action_items_ordered(ps: Seq<PrioritizedView>)
    ensures
        ({
            let c = candidates(ps, ps.len() as int);
            let out = action_items_of(ps);
            &&& out.len() <= MAX_ACTION_ITEMS
            &&& out.len() == if c.len() <= MAX_ACTION_ITEMS { c.len() as int } else { MAX_ACTION_ITEMS as int }
            &&& out == by_urgency(c).subrange(0, out.len() as int)
            &&& by_urgency(c).len() == c.len()
            &&& forall|u: Urgency| at_level(by_urgency(c), u, c.len() as int) == at_level(c, u, c.len() as int)
            &&& forall|i: int, j: int|
                0 <= i < j < out.len() ==> urgency_rank(#[trigger] out[i].urgency) >= urgency_rank(#[trigger] out[j].urgency)
        }),
{
    let c = candidates(ps, ps.len() as int);
    lemma_by_urgency_sorted(c);
    let s = by_urgency(c);
    let out = action_items_of(ps);
    assert(s.subrange(0, s.len() as int) == s);
    assert forall|u: Urgency| at_level(s, u, c.len() as int) == at_level(c, u, c.len() as int) by {
        lemma_by_urgency_stable(c, u);
    }
    assert forall|i: int, j: int| 0 <= i < j < out.len() implies urgency_rank(#[trigger] out[i].urgency) >= urgency_rank(
        #[trigger] out[j].urgency,
    ) by {
        assert(out[i] == s[i]);
        assert(out[j] == s[j]);
    }
}

} // verus!
