//! The analysis of a batch of repository activity: prioritized issues,
//! per-repository match index, context text and action items.
use vstd::prelude::*;
use crate::config::{Config, Importance, RepoConfig};
use crate::context::{RepoInfo, action_items_of, build_repo_context_prompt, context_prompt_of, extract_action_items};
use crate::github::{Issue, IssueView, RepoActivity, copy_opt, opt_view};
use crate::scoring::{PriorityScore, calculate_priority_score, priority_score};
use crate::text::str_eq;
use crate::watch_rules::{MatchView, MatchedRule, RuleView, WatchRuleEngine, issue_matches, matches_view};

verus! {

/// How soon an item should be acted on, ordered from `Low` to `Critical`.
#[derive(Debug, Clone, Copy, PartialEq, Eq, Structural, PartialOrd, Ord)]
pub enum Urgency {
    Low,
    Medium,
    High,
    Critical,
}

/// An issue that matched at least one watch rule, with its score.
#[derive(Debug)]
pub struct PrioritizedIssue {
    pub issue: Issue,
    pub repo: String,
    pub score: PriorityScore,
    pub matched_rules: Vec<MatchedRule>,
    pub importance: Importance,
    pub context: Option<String>,
}

pub struct PrioritizedView {
    pub issue: IssueView,
    pub repo: Seq<char>,
    pub score: PriorityScore,
    pub matches: Seq<MatchView>,
    pub importance: Importance,
    pub context: Option<Seq<char>>,
}

impl View for PrioritizedIssue {
    type V = PrioritizedView;

    open spec fn view(&self) -> PrioritizedView {
        PrioritizedView {
            issue: self.issue@,
            repo: self.repo@,
            score: self.score,
            matches: matches_view(self.matched_rules@),
            importance: self.importance,
            context: opt_view(self.context),
        }
    }
}

pub open spec fn prioritized_view(v: Seq<PrioritizedIssue>) -> Seq<PrioritizedView> {
    v.map_values(|p: PrioritizedIssue| p@)
}

/// A suggested next step for one issue of one repository.
#[derive(Debug)]
pub struct ActionItem {
    pub description: String,
    pub issue: Issue,
    pub repo: String,
    pub urgency: Urgency,
    pub reason: String,
}

pub struct ActionView {
    pub description: Seq<char>,
    pub issue: IssueView,
    pub repo: Seq<char>,
    pub urgency: Urgency,
    pub reason: Seq<char>,
}

impl View for ActionItem {
    type V = ActionView;

    open spec fn view(&self) -> ActionView {
        ActionView {
            description: self.description@,
            issue: self.issue@,
            repo: self.repo@,
            urgency: self.urgency,
            reason: self.reason@,
        }
    }
}

pub open spec fn actions_view(v: Seq<ActionItem>) -> Seq<ActionView> {
    v.map_values(|a: ActionItem| a@)
}

impl ActionItem {
    /// A field-by-field copy.
    pub fn duplicate(&self) -> (r: ActionItem)
        ensures
            r@ == self@,
    {
        ActionItem {
            description: self.description.clone(),
            issue: self.issue.duplicate(),
            repo: self.repo.clone(),
            urgency: self.urgency,
            reason: self.reason.clone(),
        }
    }
}

/// A repository profile as its name, active rule names, importance
/// override and context note.
pub struct ProfileView {
    pub name: Seq<char>,
    pub active: Seq<Seq<char>>,
    pub importance: Option<Importance>,
    pub context: Option<Seq<char>>,
}

pub open spec fn strings_view(v: Seq<String>) -> Seq<Seq<char>> {
    v.map_values(|s: String| s@)
}

pub open spec fn profile_view(r: RepoConfig) -> ProfileView {
    ProfileView {
        name: r.name@,
        active: strings_view(r.labels@),
        importance: r.importance_override,
        context: opt_view(r.custom_context),
    }
}

pub open spec fn profiles_view(v: Seq<RepoConfig>) -> Seq<ProfileView> {
    v.map_values(|r: RepoConfig| profile_view(r))
}

/// Index of the first profile, from `i` on, for the named repository.
pub open spec fn profile_index_from(ps: Seq<ProfileView>, name: Seq<char>, i: int) -> Option<int>
    decreases ps.len() - i,
{
    if i < 0 || i >= ps.len() {
        None
    } else if ps[i].name == name {
        Some(i)
    } else {
        profile_index_from(ps, name, i + 1)
    }
}

/// Importance of a repository: its profile's, else Medium.
pub open spec fn resolved_importance(ps: Seq<ProfileView>, name: Seq<char>) -> Importance {
    match profile_index_from(ps, name, 0) {
        Some(k) => match ps[k].importance {
            Some(i) => i,
            None => Importance::Medium,
        },
        None => Importance::Medium,
    }
}

/// Active rule names of a repository: its profile's, else none.
pub open spec fn resolved_active(ps: Seq<ProfileView>, name: Seq<char>) -> Seq<Seq<char>> {
    match profile_index_from(ps, name, 0) {
        Some(k) => ps[k].active,
        None => seq![],
    }
}

/// Context note of a repository: its profile's, else none.
pub open spec fn resolved_context(ps: Seq<ProfileView>, name: Seq<char>) -> Option<Seq<char>> {
    match profile_index_from(ps, name, 0) {
        Some(k) => ps[k].context,
        None => None,
    }
}

pub open spec fn issues_view(v: Seq<Issue>) -> Seq<IssueView> {
    v.map_values(|i: Issue| i@)
}

/// Everything that the analysis knows of one repository's batch.
pub struct RepoBatch {
    pub name: Seq<char>,
    pub new_issues: Seq<IssueView>,
    pub updated_issues: Seq<IssueView>,
    pub new_prs: Seq<IssueView>,
    pub updated_prs: Seq<IssueView>,
}

pub open spec fn batch_view(e: (String, RepoActivity)) -> RepoBatch {
    RepoBatch {
        name: e.0@,
        new_issues: issues_view(e.1.new_issues@),
        updated_issues: issues_view(e.1.updated_issues@),
        new_prs: issues_view(e.1.new_prs@),
        updated_prs: issues_view(e.1.updated_prs@),
    }
}

pub open spec fn batches_view(v: Seq<(String, RepoActivity)>) -> Seq<RepoBatch> {
    v.map_values(|e: (String, RepoActivity)| batch_view(e))
}

/// Settings that hold for every issue of one repository.
pub struct RepoSetting {
    pub rules: Seq<RuleView>,
    pub active: Seq<Seq<char>>,
    pub importance: Importance,
    pub context: Option<Seq<char>>,
    pub repo: Seq<char>,
    pub now: i64,
}

pub open spec fn setting_of(rules: Seq<RuleView>, ps: Seq<ProfileView>, name: Seq<char>, now: i64) -> RepoSetting {
    RepoSetting {
        rules,
        active: resolved_active(ps, name),
        importance: resolved_importance(ps, name),
        context: resolved_context(ps, name),
        repo: name,
        now,
    }
}

/// The prioritized entry of an issue, if it matches any rule.
pub open spec fn entry_of(st: RepoSetting, issue: IssueView) -> Option<PrioritizedView> {
    let ms = issue_matches(st.rules, st.active, issue);
    if ms.len() == 0 {
        None
    } else {
        Some(
            PrioritizedView {
                issue,
                repo: st.repo,
                score: priority_score(issue, st.importance, ms, issue.is_pull_request, st.now),
                matches: ms,
                importance: st.importance,
                context: st.context,
            },
        )
    }
}

/// Entries of the first `n` issues, in order.
pub open spec fn entries(st: RepoSetting, items: Seq<IssueView>, n: int) -> Seq<PrioritizedView>
    decreases n,
{
    if n <= 0 {
        seq![]
    } else {
        match entry_of(st, items[n - 1]) {
            Some(e) => entries(st, items, n - 1).push(e),
            None => entries(st, items, n - 1),
        }
    }
}

/// All records of the first `n` issues, in order.
pub open spec fn all_matches(st: RepoSetting, items: Seq<IssueView>, n: int) -> Seq<MatchView>
    decreases n,
{
    if n <= 0 {
        seq![]
    } else {
        all_matches(st, items, n - 1) + issue_matches(st.rules, st.active, items[n - 1])
    }
}

/// Entries of one repository: new issues, updated issues, new PRs, updated PRs.
pub open spec fn batch_entries(st: RepoSetting, b: RepoBatch) -> Seq<PrioritizedView> {
    entries(st, b.new_issues, b.new_issues.len() as int) + entries(st, b.updated_issues, b.updated_issues.len() as int)
        + entries(st, b.new_prs, b.new_prs.len() as int) + entries(st, b.updated_prs, b.updated_prs.len() as int)
}

/// Match index of one repository, in the same order.
pub open spec fn batch_matches(st: RepoSetting, b: RepoBatch) -> Seq<MatchView> {
    all_matches(st, b.new_issues, b.new_issues.len() as int) + all_matches(
        st,
        b.updated_issues,
        b.updated_issues.len() as int,
    ) + all_matches(st, b.new_prs, b.new_prs.len() as int) + all_matches(st, b.updated_prs, b.updated_prs.len() as int)
}

/// Entries of the first `n` repositories, unsorted.
pub open spec fn gathered(bs: Seq<RepoBatch>, rules: Seq<RuleView>, ps: Seq<ProfileView>, now: i64, n: int) -> Seq<PrioritizedView>
    decreases n,
{
    if n <= 0 {
        seq![]
    } else {
        gathered(bs, rules, ps, now, n - 1) + batch_entries(setting_of(rules, ps, bs[n - 1].name, now), bs[n - 1])
    }
}

/// Index where a stable descending insertion puts an entry of score `t`.
pub open spec fn insert_pos(s: Seq<PrioritizedView>, t: u32, i: int) -> int
    decreases s.len() - i,
{
    if i < 0 || i >= s.len() {
        s.len() as int
    } else if s[i].score.total < t {
        i
    } else {
        insert_pos(s, t, i + 1)
    }
}

/// The first `n` entries stable-sorted by descending total score.
pub open spec fn sort_by_total(c: Seq<PrioritizedView>, n: int) -> Seq<PrioritizedView>
    decreases n,
{
    if n <= 0 {
        seq![]
    } else {
        let s = sort_by_total(c, n - 1);
        s.insert(insert_pos(s, c[n - 1].score.total, 0), c[n - 1])
    }
}

proof fn lemma_insert_pos_bounds(s: Seq<PrioritizedView>, t: u32, i: int)
    requires
        0 <= i <= s.len(),
    ensures
        i <= insert_pos(s, t, i) <= s.len(),
    decreases s.len() - i,
{
    if i < s.len() && s[i].score.total >= t {
        lemma_insert_pos_bounds(s, t, i + 1);
    }
}

/// Importance and context note resolved for one repository.
#[derive(Debug)]
pub struct RepoImportance {
    pub repo: String,
    pub importance: Importance,
    pub context: Option<String>,
}

pub open spec fn info_view(r: RepoImportance) -> (Seq<char>, Importance, Option<Seq<char>>) {
    (r.repo@, r.importance, opt_view(r.context))
}

pub open spec fn infos_view(v: Seq<RepoImportance>) -> Seq<(Seq<char>, Importance, Option<Seq<char>>)> {
    v.map_values(|r: RepoImportance| info_view(r))
}

/// The records of one repository, over all its candidate issues.
#[derive(Debug)]
pub struct RepoMatches {
    pub repo: String,
    pub matches: Vec<MatchedRule>,
}

/// Result of analysing a batch of repository activity.
#[derive(Debug)]
pub struct AnalysisResult {
    pub prioritized_issues: Vec<PrioritizedIssue>,
    pub matched_rules_by_repo: Vec<RepoMatches>,
    pub context_prompt: String,
    pub action_items: Vec<ActionItem>,
    pub repo_importances: Vec<RepoImportance>,
}

pub struct AnalysisView {
    pub prioritized: Seq<PrioritizedView>,
    pub by_repo: Seq<(Seq<char>, Seq<MatchView>)>,
    pub context_prompt: Seq<char>,
    pub actions: Seq<ActionView>,
    pub importances: Seq<RepoInfo>,
}

pub open spec fn repo_matches_view(v: Seq<RepoMatches>) -> Seq<(Seq<char>, Seq<MatchView>)> {
    v.map_values(|r: RepoMatches| (r.repo@, matches_view(r.matches@)))
}

impl View for AnalysisResult {
    type V = AnalysisView;

    open spec fn view(&self) -> AnalysisView {
        AnalysisView {
            prioritized: prioritized_view(self.prioritized_issues@),
            by_repo: repo_matches_view(self.matched_rules_by_repo@),
            context_prompt: self.context_prompt@,
            actions: actions_view(self.action_items@),
            importances: infos_view(self.repo_importances@),
        }
    }
}

/// Resolved importance and context of the first `n` repositories.
pub open spec fn repo_infos(bs: Seq<RepoBatch>, ps: Seq<ProfileView>, n: int) -> Seq<RepoInfo>
    decreases n,
{
    if n <= 0 {
        seq![]
    } else {
        repo_infos(bs, ps, n - 1).push((bs[n - 1].name, resolved_importance(ps, bs[n - 1].name), resolved_context(ps, bs[n - 1].name)))
    }
}

/// Match index of the first `n` repositories.
pub open spec fn repo_index(bs: Seq<RepoBatch>, rules: Seq<RuleView>, ps: Seq<ProfileView>, now: i64, n: int) -> Seq<(Seq<char>, Seq<MatchView>)>
    decreases n,
{
    if n <= 0 {
        seq![]
    } else {
        repo_index(bs, rules, ps, now, n - 1).push(
            (bs[n - 1].name, batch_matches(setting_of(rules, ps, bs[n - 1].name, now), bs[n - 1])),
        )
    }
}

/// The whole analysis as a function of its inputs.
pub open spec fn analysis_of(bs: Seq<RepoBatch>, rules: Seq<RuleView>, ps: Seq<ProfileView>, now: i64) -> AnalysisView {
    let n = bs.len() as int;
    let g = gathered(bs, rules, ps, now, n);
    let sorted = sort_by_total(g, g.len() as int);
    AnalysisView {
        prioritized: sorted,
        by_repo: repo_index(bs, rules, ps, now, n),
        context_prompt: context_prompt_of(repo_infos(bs, ps, n)),
        actions: action_items_of(sorted),
        importances: repo_infos(bs, ps, n),
    }
}

fn find_profile(profiles: &Vec<RepoConfig>, name: &str) -> (r: Option<usize>)
    ensures
        match r {
            Some(k) => k < profiles@.len() && profile_index_from(profiles_view(profiles@), name@, 0) == Some(k as int),
            None => profile_index_from(profiles_view(profiles@), name@, 0) is None,
        },
{
    let ghost pv = profiles_view(profiles@);
    let mut i: usize = 0;
    while i < profiles.len()
        invariant
            i <= profiles@.len(),
            pv == profiles_view(profiles@),
            profile_index_from(pv, name@, 0) == profile_index_from(pv, name@, i as int),
        decreases profiles.len() - i,
    {
        assert(pv[i as int] == profile_view(profiles@[i as int]));
        if str_eq(profiles[i].name.as_str(), name) {
            return Some(i);
        }
        i = i + 1;
    }
    None
}

pub open spec fn setting_from(
    engine: WatchRuleEngine,
    active: Seq<String>,
    importance: Importance,
    context: Option<String>,
    repo: String,
    now: i64,
) -> RepoSetting {
    RepoSetting { rules: engine@, active: strings_view(active), importance, context: opt_view(context), repo: repo@, now }
}

fn process_items(
    engine: &WatchRuleEngine,
    active: &Vec<String>,
    importance: Importance,
    context: &Option<String>,
    repo: &String,
    now: i64,
    items: &Vec<Issue>,
    acc: &mut Vec<PrioritizedIssue>,
    index: &mut Vec<MatchedRule>,
)
    ensures
        prioritized_view(final(acc)@) == prioritized_view(old(acc)@) + entries(
            setting_from(*engine, active@, importance, *context, *repo, now),
            issues_view(items@),
            items@.len() as int,
        ),
        matches_view(final(index)@) == matches_view(old(index)@) + all_matches(
            setting_from(*engine, active@, importance, *context, *repo, now),
            issues_view(items@),
            items@.len() as int,
        ),
{
    let ghost st = setting_from(*engine, active@, importance, *context, *repo, now);
    let ghost iv = issues_view(items@);
    let ghost acc0 = prioritized_view(acc@);
    let ghost index0 = matches_view(index@);
    let mut i: usize = 0;
    while i < items.len()
        invariant
            i <= items@.len(),
            st == setting_from(*engine, active@, importance, *context, *repo, now),
            iv == issues_view(items@),
            prioritized_view(acc@) == acc0 + entries(st, iv, i as int),
            matches_view(index@) == index0 + all_matches(st, iv, i as int),
        decreases items.len() - i,
    {
        let issue = &items[i];
        assert(iv[i as int] == issue@);
        let ms = engine.check_issue(issue, active.as_slice());
        let ghost before_index = matches_view(index@);
        let mut k: usize = 0;
        while k < ms.len()
            invariant
                k <= ms@.len(),
                matches_view(index@) == before_index + matches_view(ms@).subrange(0, k as int),
            decreases ms.len() - k,
        {
            let ghost b = matches_view(index@);
            index.push(
                MatchedRule {
                    rule_type: ms[k].rule_type.clone(),
                    matched_text: ms[k].matched_text.clone(),
                    confidence: ms[k].confidence,
                },
            );
            assert(matches_view(index@) =~= b.push(ms@[k as int]@));
            assert(matches_view(ms@).subrange(0, k + 1) =~= matches_view(ms@).subrange(0, k as int).push(ms@[k as int]@));
            k = k + 1;
        }
        assert(matches_view(ms@).subrange(0, ms@.len() as int) =~= matches_view(ms@));
        if ms.len() > 0 {
            let score = calculate_priority_score(issue, importance, ms.as_slice(), issue.is_pull_request, now);
            let entry = PrioritizedIssue {
                issue: issue.duplicate(),
                repo: repo.clone(),
                score,
                matched_rules: ms,
                importance,
                context: copy_opt(context),
            };
            let ghost before = prioritized_view(acc@);
            acc.push(entry);
            assert(prioritized_view(acc@) =~= before.push(entry@));
        }
        assert(index0 + all_matches(st, iv, i + 1) =~= index0 + all_matches(st, iv, i as int) + issue_matches(st.rules, st.active, iv[i as int]));
        i = i + 1;
    }
}

/// Inserts an entry after every entry whose total is at least its own.
fn insert_by_total(sorted: &mut Vec<PrioritizedIssue>, item: PrioritizedIssue)
    ensures
        prioritized_view(final(sorted)@) == prioritized_view(old(sorted)@).insert(
            insert_pos(prioritized_view(old(sorted)@), item@.score.total, 0),
            item@,
        ),
{
    let ghost sv = prioritized_view(sorted@);
    let t = item.score.total;
    let mut i: usize = 0;
    while i < sorted.len() && sorted[i].score.total >= t
        invariant
            i <= sorted@.len(),
            sv == prioritized_view(sorted@),
            insert_pos(sv, t, 0) == insert_pos(sv, t, i as int),
        decreases sorted.len() - i,
    {
        assert(sv[i as int] == sorted@[i as int]@);
        i = i + 1;
    }
    if i < sorted.len() {
        assert(sv[i as int] == sorted@[i as int]@);
    }
    sorted.insert(i, item);
    assert(prioritized_view(sorted@) =~= sv.insert(i as int, item@));
}

/// The entries stable-sorted by descending total score.
fn sort_entries(entries: Vec<PrioritizedIssue>) -> (r: Vec<PrioritizedIssue>)
    ensures
        prioritized_view(r@) == sort_by_total(prioritized_view(entries@), entries@.len() as int),
{
    let ghost g = prioritized_view(entries@);
    let mut sorted: Vec<PrioritizedIssue> = Vec::new();
    let mut remaining = entries;
    let len = remaining.len();
    let mut taken: usize = 0;
    while remaining.len() > 0
        invariant
            g.len() == len,
            taken + remaining@.len() == g.len(),
            prioritized_view(remaining@) == g.subrange(taken as int, g.len() as int),
            prioritized_view(sorted@) == sort_by_total(g, taken as int),
        decreases remaining.len(),
    {
        let ghost rv = prioritized_view(remaining@);
        assert(rv[0] == g[taken as int]);
        assert(rv[0] == remaining@[0]@);
        let ghost before = remaining@;
        let item = remaining.remove(0);
        insert_by_total(&mut sorted, item);
        assert forall|j: int| 0 <= j < remaining@.len() implies #[trigger] prioritized_view(remaining@)[j] == g.subrange(
            taken + 1,
            g.len() as int,
        )[j] by {
            assert(remaining@[j] == before[j + 1]);
            assert(prioritized_view(before)[j + 1] == rv[j + 1]);
        }
        assert(prioritized_view(remaining@) =~= g.subrange(taken + 1, g.len() as int));
        taken = taken + 1;
    }
    sorted
}

/// One repository's share of the analysis, appended to the accumulators.
fn process_repo(
    repo: &String,
    activity: &RepoActivity,
    rule_set: &WatchRuleEngine,
    repo_profiles: &Vec<RepoConfig>,
    now: i64,
    acc: &mut Vec<PrioritizedIssue>,
    by_repo: &mut Vec<RepoMatches>,
    infos: &mut Vec<RepoImportance>,
)
    ensures
        ({
            let b = batch_view((*repo, *activity));
            let ps = profiles_view(repo_profiles@);
            let st = setting_of(rule_set@, ps, b.name, now);
            &&& prioritized_view(final(acc)@) == prioritized_view(old(acc)@) + batch_entries(st, b)
            &&& repo_matches_view(final(by_repo)@) == repo_matches_view(old(by_repo)@).push((b.name, batch_matches(st, b)))
            &&& infos_view(final(infos)@) == infos_view(old(infos)@).push(
                (b.name, resolved_importance(ps, b.name), resolved_context(ps, b.name)),
            )
        }),
{
    let ghost b = batch_view((*repo, *activity));
    let ghost ps = profiles_view(repo_profiles@);
    let no_rules: Vec<String> = Vec::new();
    let found = find_profile(repo_profiles, repo.as_str());
    let (active, importance, context) = match found {
        Some(k) => {
            let p = &repo_profiles[k];
            assert(ps[k as int] == profile_view(repo_profiles@[k as int]));
            let imp = match p.importance_override {
                Some(i) => i,
                None => Importance::Medium,
            };
            (&p.labels, imp, copy_opt(&p.custom_context))
        },
        None => (&no_rules, Importance::Medium, None),
    };
    let ghost st = setting_of(rule_set@, ps, b.name, now);
    assert(setting_from(*rule_set, active@, importance, context, *repo, now) == st) by {
        assert(strings_view(no_rules@) =~= seq![]);
    }
    let mut index: Vec<MatchedRule> = Vec::new();
    let ghost acc0 = prioritized_view(acc@);
    process_items(rule_set, active, importance, &context, repo, now, &activity.new_issues, acc, &mut index);
    process_items(rule_set, active, importance, &context, repo, now, &activity.updated_issues, acc, &mut index);
    process_items(rule_set, active, importance, &context, repo, now, &activity.new_prs, acc, &mut index);
    process_items(rule_set, active, importance, &context, repo, now, &activity.updated_prs, acc, &mut index);
    assert(prioritized_view(acc@) =~= acc0 + batch_entries(st, b));
    assert(matches_view(index@) =~= batch_matches(st, b));
    let ghost by0 = repo_matches_view(by_repo@);
    by_repo.push(RepoMatches { repo: repo.clone(), matches: index });
    assert(repo_matches_view(by_repo@) =~= by0.push((repo@, batch_matches(st, b))));
    let ghost infos0 = infos_view(infos@);
    infos.push(RepoImportance { repo: repo.clone(), importance, context });
    assert(infos_view(infos@) =~= infos0.push((repo@, importance, st.context)));
}

/// Analyses the activity of each repository, in the given order: resolves
/// its profile (Medium, no active rules and no context when it has none),
/// matches its new issues, updated issues, new PRs and updated PRs against
/// the watch rules, scores each issue that matched at `now` (seconds since
/// the Unix epoch), then sorts the entries by descending total (stable),
/// and derives the context prompt and the action items.
pub fn analyze_activities(
    activities: &Vec<(String, RepoActivity)>,
    rule_set: &WatchRuleEngine,
    repo_profiles: &Vec<RepoConfig>,
    now: i64,
) -> (r: AnalysisResult)
    ensures
        r@ == analysis_of(batches_view(activities@), rule_set@, profiles_view(repo_profiles@), now),
{
    let ghost bs = batches_view(activities@);
    let ghost rules = rule_set@;
    let ghost ps = profiles_view(repo_profiles@);
    let mut acc: Vec<PrioritizedIssue> = Vec::new();
    let mut by_repo: Vec<RepoMatches> = Vec::new();
    let mut infos: Vec<RepoImportance> = Vec::new();
    let mut n: usize = 0;
    while n < activities.len()
        invariant
            n <= activities@.len(),
            bs == batches_view(activities@),
            rules == rule_set@,
            ps == profiles_view(repo_profiles@),
            prioritized_view(acc@) == gathered(bs, rules, ps, now, n as int),
            repo_matches_view(by_repo@) == repo_index(bs, rules, ps, now, n as int),
            infos_view(infos@) == repo_infos(bs, ps, n as int),
        decreases activities.len() - n,
    {
        let ghost acc0 = prioritized_view(acc@);
        let ghost by0 = repo_matches_view(by_repo@);
        let ghost infos0 = infos_view(infos@);
        assert(bs[n as int] == batch_view(activities@[n as int]));
        process_repo(&activities[n].0, &activities[n].1, rule_set, repo_profiles, now, &mut acc, &mut by_repo, &mut infos);
        assert(prioritized_view(acc@) == gathered(bs, rules, ps, now, n + 1));
        assert(repo_matches_view(by_repo@) =~= repo_index(bs, rules, ps, now, n + 1));
        assert(infos_view(infos@) =~= repo_infos(bs, ps, n + 1));
        n = n + 1;
    }
    let sorted = sort_entries(acc);
    let context_prompt = build_repo_context_prompt(&infos);
    let action_items = extract_action_items(&sorted);
    AnalysisResult {
        prioritized_issues: sorted,
        matched_rules_by_repo: by_repo,
        context_prompt,
        action_items,
        repo_importances: infos,
    }
}

/// Analysis of repository activity under one configuration.
pub struct IntelligentAnalyzer<'a> {
    pub config: &'a Config,
}

impl<'a> IntelligentAnalyzer<'a> {
    pub fn new(config: &'a Config) -> (r: IntelligentAnalyzer<'a>)
        ensures
            r.config == config,
    {
        IntelligentAnalyzer { config }
    }

    /// Analyses activity with the configuration's watch rules and
    /// repository profiles, at time `now` (seconds since the Unix epoch).
    pub fn analyze(&self, activities: &Vec<(String, RepoActivity)>, now: i64) -> (r: AnalysisResult)
        ensures
            r@ == analysis_of(
                batches_view(activities@),
                crate::watch_rules::rules_view(self.config.watch_rules@),
                profiles_view(self.config.repos@),
                now,
            ),
    {
        let engine = WatchRuleEngine::new(&self.config.watch_rules);
        analyze_activities(activities, &engine, &self.config.repos, now)
    }
}

/// The analysis is a function of its inputs: equal activities, rules,
/// profiles and time give equal results, field for field and character
/// for character.
pub proof fn lemma_analysis_deterministic(
    a1: Seq<(String, RepoActivity)>,
    a2: Seq<(String, RepoActivity)>,
    r1: Seq<crate::watch_rules::WatchRule>,
    r2: Seq<crate::watch_rules::WatchRule>,
    p1: Seq<RepoConfig>,
    p2: Seq<RepoConfig>,
    now: i64,
)
    requires
        batches_view(a1) == batches_view(a2),
        crate::watch_rules::rules_view(r1) == crate::watch_rules::rules_view(r2),
        profiles_view(p1) == profiles_view(p2),
    ensures
        analysis_of(batches_view(a1), crate::watch_rules::rules_view(r1), profiles_view(p1), now) == analysis_of(
            batches_view(a2),
            crate::watch_rules::rules_view(r2),
            profiles_view(p2),
            now,
        ),
{
}

proof fn lemma_entries_matched(st: RepoSetting, items: Seq<IssueView>, n: int)
    requires
        0 <= n <= items.len(),
    ensures
        forall|k: int| 0 <= k < entries(st, items, n).len() ==> (#[trigger] entries(st, items, n)[k]).matches.len() > 0,
    decreases n,
{
    if n > 0 {
        lemma_entries_matched(st, items, n - 1);
    }
}

proof fn lemma_gathered_matched(bs: Seq<RepoBatch>, rules: Seq<RuleView>, ps: Seq<ProfileView>, now: i64, n: int)
    requires
        0 <= n <= bs.len(),
    ensures
        forall|k: int|
            0 <= k < gathered(bs, rules, ps, now, n).len() ==> (#[trigger] gathered(bs, rules, ps, now, n)[k]).matches.len()
                > 0,
    decreases n,
{
    if n > 0 {
        lemma_gathered_matched(bs, rules, ps, now, n - 1);
        let b = bs[n - 1];
        let st = setting_of(rules, ps, b.name, now);
        lemma_entries_matched(st, b.new_issues, b.new_issues.len() as int);
        lemma_entries_matched(st, b.updated_issues, b.updated_issues.len() as int);
        lemma_entries_matched(st, b.new_prs, b.new_prs.len() as int);
        lemma_entries_matched(st, b.updated_prs, b.updated_prs.len() as int);
    }
}

proof fn lemma_sort_keeps_matched(c: Seq<PrioritizedView>, n: int)
    requires
        0 <= n <= c.len(),
        forall|k: int| 0 <= k < c.len() ==> (#[trigger] c[k]).matches.len() > 0,
    ensures
        forall|k: int| 0 <= k < sort_by_total(c, n).len() ==> (#[trigger] sort_by_total(c, n)[k]).matches.len() > 0,
    decreases n,
{
    if n > 0 {
        lemma_sort_keeps_matched(c, n - 1);
        let s = sort_by_total(c, n - 1);
        let i = insert_pos(s, c[n - 1].score.total, 0);
        lemma_insert_pos_bounds(s, c[n - 1].score.total, 0);
        let t = s.insert(i, c[n - 1]);
        assert forall|k: int| 0 <= k < t.len() implies (#[trigger] t[k]).matches.len() > 0 by {
            if k < i {
                assert(t[k] == s[k]);
            } else if k > i {
                assert(t[k] == s[k - 1]);
            }
        }
    }
}

/// Every prioritized issue of an analysis matched at least one watch rule.
pub proof fn lemma_prioritized_all_matched(bs: Seq<RepoBatch>, rules: Seq<RuleView>, ps: Seq<ProfileView>, now: i64)
    ensures
        forall|k: int|
            0 <= k < analysis_of(bs, rules, ps, now).prioritized.len() ==> (#[trigger] analysis_of(
                bs,
                rules,
                ps,
                now,
            ).prioritized[k]).matches.len() > 0,
{
    let g = gathered(bs, rules, ps, now, bs.len() as int);
    lemma_gathered_matched(bs, rules, ps, now, bs.len() as int);
    lemma_sort_keeps_matched(g, g.len() as int);
}

pub open spec fn sorted_by_total(s: Seq<PrioritizedView>) -> bool {
    forall|i: int, j: int| 0 <= i < j < s.len() ==> (#[trigger] s[i]).score.total >= (#[trigger] s[j]).score.total
}

proof fn lemma_insert_pos_split(s: Seq<PrioritizedView>, t: u32, i: int)
    requires
        0 <= i <= s.len(),
        sorted_by_total(s),
        forall|k: int| 0 <= k < i ==> (#[trigger] s[k]).score.total >= t,
    ensures
        forall|k: int| 0 <= k < insert_pos(s, t, i) ==> (#[trigger] s[k]).score.total >= t,
        forall|k: int| insert_pos(s, t, i) <= k < s.len() ==> (#[trigger] s[k]).score.total < t,
    decreases s.len() - i,
{
    if i < s.len() {
        if s[i].score.total >= t {
            lemma_insert_pos_split(s, t, i + 1);
        } else {
            assert forall|k: int| i <= k < s.len() implies (#[trigger] s[k]).score.total < t by {
                if k > i {
                    assert(s[i].score.total >= s[k].score.total);
                }
            }
        }
    }
}

proof fn lemma_sort_sorted(c: Seq<PrioritizedView>, n: int)
    requires
        0 <= n <= c.len(),
    ensures
        sorted_by_total(sort_by_total(c, n)),
        sort_by_total(c, n).len() == n,
    decreases n,
{
    if n > 0 {
        lemma_sort_sorted(c, n - 1);
        let s = sort_by_total(c, n - 1);
        let x = c[n - 1];
        let t = x.score.total;
        lemma_insert_pos_bounds(s, t, 0);
        lemma_insert_pos_split(s, t, 0);
        let i = insert_pos(s, t, 0);
        let r = s.insert(i, x);
        assert forall|a: int, b: int| 0 <= a < b < r.len() implies (#[trigger] r[a]).score.total >= (#[trigger] r[b]).score.total by {
            let ra = if a < i { s[a] } else if a == i { x } else { s[a - 1] };
            let rb = if b < i { s[b] } else if b == i { x } else { s[b - 1] };
            assert(r[a] == ra);
            assert(r[b] == rb);
        }
    }
}

/// The prioritized issues of an analysis never rise in total score.
pub proof fn lemma_prioritized_sorted(bs: Seq<RepoBatch>, rules: Seq<RuleView>, ps: Seq<ProfileView>, now: i64)
    ensures
        sorted_by_total(analysis_of(bs, rules, ps, now).prioritized),
{
    let g = gathered(bs, rules, ps, now, bs.len() as int);
    lemma_sort_sorted(g, g.len() as int);
}

} // verus!
