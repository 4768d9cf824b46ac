//! Watch rules: named lists of trigger patterns, matched against issues.
use vstd::prelude::*;
use crate::github::{Issue, IssueView, Label, label_names};
use crate::text::{contains, has_substring, lower_of, lowercase, str_eq};

verus! {

/// A named watch rule and its trigger patterns, in order.
#[derive(Debug)]
pub struct WatchRule {
    pub name: String,
    pub patterns: Vec<String>,
}

/// A rule as a name and its pattern texts.
pub type RuleView = (Seq<char>, Seq<Seq<char>>);

/// A matched rule as (rule name, text that triggered it, confidence in hundredths).
pub type MatchView = (Seq<char>, Seq<char>, u32);

pub open spec fn patterns_view(p: Seq<String>) -> Seq<Seq<char>> {
    p.map_values(|s: String| s@)
}

impl View for WatchRule {
    type V = RuleView;

    open spec fn view(&self) -> RuleView {
        (self.name@, patterns_view(self.patterns@))
    }
}

/// Evidence that an issue or repository satisfies a watch rule.
/// `confidence` is in hundredths: 100 is certain.
#[derive(Debug, Clone)]
pub struct MatchedRule {
    pub rule_type: String,
    pub matched_text: String,
    pub confidence: u32,
}

impl View for MatchedRule {
    type V = MatchView;

    open spec fn view(&self) -> MatchView {
        (self.rule_type@, self.matched_text@, self.confidence)
    }
}

pub open spec fn matches_view(v: Seq<MatchedRule>) -> Seq<MatchView> {
    v.map_values(|m: MatchedRule| m@)
}

pub open spec fn rules_view(v: Seq<WatchRule>) -> Seq<RuleView> {
    v.map_values(|r: WatchRule| r@)
}

/// Index of the first rule, from `i` on, that has the given name.
pub open spec fn rule_index_from(rules: Seq<RuleView>, name: Seq<char>, i: int) -> Option<int>
    decreases rules.len() - i,
{
    if i < 0 || i >= rules.len() {
        None
    } else if rules[i].0 == name {
        Some(i)
    } else {
        rule_index_from(rules, name, i + 1)
    }
}

/// The patterns of the first rule with the given name.
pub open spec fn lookup_rule(rules: Seq<RuleView>, name: Seq<char>) -> Option<Seq<Seq<char>>> {
    match rule_index_from(rules, name, 0) {
        Some(k) => Some(rules[k].1),
        None => None,
    }
}

/// A pattern shaped like a mention placeholder, `@{...}`.
pub open spec fn is_mention_placeholder(p: Seq<char>) -> bool {
    p.len() >= 2 && p[0] == '@' && p[1] == '{' && p[p.len() - 1] == '}'
}

/// A pattern that fires on a case-folded text.
pub open spec fn pattern_hits(p: Seq<char>, text_lower: Seq<char>) -> bool {
    !is_mention_placeholder(p) && has_substring(text_lower, lower_of(p))
}

/// Index of the first pattern, from `i` on, that fires.
pub open spec fn first_hit_from(pats: Seq<Seq<char>>, text_lower: Seq<char>, i: int) -> Option<int>
    decreases pats.len() - i,
{
    if i < 0 || i >= pats.len() {
        None
    } else if pattern_hits(pats[i], text_lower) {
        Some(i)
    } else {
        first_hit_from(pats, text_lower, i + 1)
    }
}

/// What one active rule name yields on a case-folded text: nothing, or one record.
pub open spec fn rule_outcome(rules: Seq<RuleView>, name: Seq<char>, text_lower: Seq<char>) -> Option<MatchView> {
    match lookup_rule(rules, name) {
        None => None,
        Some(pats) => if pats.len() == 0 && name == "all_activity"@ {
            Some((name, "all"@, 100u32))
        } else {
            match first_hit_from(pats, text_lower, 0) {
                Some(j) => Some((name, pats[j], 100u32)),
                None => None,
            }
        },
    }
}

/// Records from pattern scanning for the first `n` active rule names.
pub open spec fn pattern_phase(rules: Seq<RuleView>, active: Seq<Seq<char>>, text_lower: Seq<char>, n: int) -> Seq<MatchView>
    decreases n,
{
    if n <= 0 {
        seq![]
    } else {
        let prev = pattern_phase(rules, active, text_lower, n - 1);
        match rule_outcome(rules, active[n - 1], text_lower) {
            Some(m) => prev.push(m),
            None => prev,
        }
    }
}

/// Some record in `ms` is for the named rule.
pub open spec fn has_rule(ms: Seq<MatchView>, name: Seq<char>) -> bool {
    exists|i: int| 0 <= i < ms.len() && #[trigger] ms[i].0 == name
}

pub open spec fn is_security_label(lower: Seq<char>) -> bool {
    has_substring(lower, "security"@) || has_substring(lower, "vulnerability"@)
}

pub open spec fn is_breaking_label(lower: Seq<char>) -> bool {
    has_substring(lower, "breaking"@) || has_substring(lower, "major"@)
}

/// One label's built-in heuristics applied to the records so far.
pub open spec fn label_step(acc: Seq<MatchView>, label: Seq<char>) -> Seq<MatchView> {
    let low = lower_of(label);
    let a1 = if is_security_label(low) && !has_rule(acc, "security_issues"@) {
        acc.push(("security_issues"@, label, 90u32))
    } else {
        acc
    };
    if is_breaking_label(low) && !has_rule(a1, "breaking_changes"@) {
        a1.push(("breaking_changes"@, label, 90u32))
    } else {
        a1
    }
}

/// The built-in label heuristics over the first `n` labels.
pub open spec fn label_phase(acc: Seq<MatchView>, labels: Seq<Seq<char>>, n: int) -> Seq<MatchView>
    decreases n,
{
    if n <= 0 {
        acc
    } else {
        label_step(label_phase(acc, labels, n - 1), labels[n - 1])
    }
}

/// The label names, each followed by a space.
pub open spec fn labels_text(names: Seq<Seq<char>>, n: int) -> Seq<char>
    decreases n,
{
    if n <= 0 {
        seq![]
    } else {
        labels_text(names, n - 1) + names[n - 1] + " "@
    }
}

/// Title, body (if any) and label names, each followed by a space.
pub open spec fn searchable_text(issue: IssueView) -> Seq<char> {
    let names = label_names(issue.labels);
    issue.title + " "@ + match issue.body {
        Some(b) => b + " "@,
        None => seq![],
    } + labels_text(names, names.len() as int)
}

/// All records for an issue: pattern scanning, then label heuristics.
pub open spec fn issue_matches(rules: Seq<RuleView>, active: Seq<Seq<char>>, issue: IssueView) -> Seq<MatchView> {
    let names = label_names(issue.labels);
    label_phase(
        pattern_phase(rules, active, lower_of(searchable_text(issue)), active.len() as int),
        names,
        names.len() as int,
    )
}

/// Records for one repository pattern from rules that list it verbatim,
/// over the first `m` rules.
pub open spec fn listing_rules(rules: Seq<RuleView>, p: Seq<char>, m: int) -> Seq<MatchView>
    decreases m,
{
    if m <= 0 {
        seq![]
    } else {
        let prev = listing_rules(rules, p, m - 1);
        if rules[m - 1].1.contains(p) {
            prev.push((rules[m - 1].0, p, 80u32))
        } else {
            prev
        }
    }
}

/// Records for a repository name over the first `n` patterns.
pub open spec fn repo_matches(rules: Seq<RuleView>, pats: Seq<Seq<char>>, repo: Seq<char>, n: int) -> Seq<MatchView>
    decreases n,
{
    if n <= 0 {
        seq![]
    } else {
        let p = pats[n - 1];
        let with_rules = repo_matches(rules, pats, repo, n - 1) + listing_rules(rules, p, rules.len() as int);
        if has_substring(lower_of(repo), lower_of(p)) {
            with_rules.push(("repo_pattern"@, p, 70u32))
        } else {
            with_rules
        }
    }
}

fn new_match(rule: String, text: String, confidence: u32) -> (r: MatchedRule)
    ensures
        r@ == (rule@, text@, confidence),
{
    MatchedRule { rule_type: rule, matched_text: text, confidence }
}

fn is_placeholder(p: &str) -> (r: bool)
    ensures
        r == is_mention_placeholder(p@),
{
    let n = p.unicode_len();
    n >= 2 && p.get_char(0) == '@' && p.get_char(1) == '{' && p.get_char(n - 1) == '}'
}

/// Index of the first pattern that fires on the case-folded text.
fn first_hit(pats: &Vec<String>, text_lower: &str) -> (r: Option<usize>)
    ensures
        match r {
            Some(j) => j < pats@.len() && first_hit_from(patterns_view(pats@), text_lower@, 0) == Some(j as int),
            None => first_hit_from(patterns_view(pats@), text_lower@, 0) is None,
        },
{
    let ghost pv = patterns_view(pats@);
    let mut i: usize = 0;
    while i < pats.len()
        invariant
            i <= pats@.len(),
            pv == patterns_view(pats@),
            first_hit_from(pv, text_lower@, 0) == first_hit_from(pv, text_lower@, i as int),
        decreases pats.len() - i,
    {
        let p = pats[i].as_str();
        if !is_placeholder(p) {
            let pl = lowercase(p);
            if contains(text_lower, pl.as_str()) {
                return Some(i);
            }
        }
        i = i + 1;
    }
    None
}

/// Whether some record is for the named rule.
fn has_rule_exec(ms: &Vec<MatchedRule>, name: &str) -> (r: bool)
    ensures
        r == has_rule(matches_view(ms@), name@),
{
    let mut i: usize = 0;
    while i < ms.len()
        invariant
            i <= ms@.len(),
            forall|k: int| 0 <= k < i ==> ms@[k].rule_type@ != name@,
        decreases ms.len() - i,
    {
        if str_eq(ms[i].rule_type.as_str(), name) {
            assert(matches_view(ms@)[i as int].0 == name@);
            return true;
        }
        i = i + 1;
    }
    false
}

/// Engine for matching issues and repositories against watch rules.
pub struct WatchRuleEngine {
    pub rules: Vec<WatchRule>,
}

impl View for WatchRuleEngine {
    type V = Seq<RuleView>;

    open spec fn view(&self) -> Seq<RuleView> {
        rules_view(self.rules@)
    }
}

fn copy_strings(v: &Vec<String>) -> (r: Vec<String>)
    ensures
        patterns_view(r@) == patterns_view(v@),
{
    let mut r: Vec<String> = Vec::new();
    let mut i: usize = 0;
    while i < v.len()
        invariant
            i <= v@.len(),
            r@.len() == i,
            forall|k: int| 0 <= k < i ==> #[trigger] r@[k]@ == v@[k]@,
        decreases v.len() - i,
    {
        r.push(v[i].clone());
        i = i + 1;
    }
    assert(patterns_view(r@) =~= patterns_view(v@));
    r
}

impl WatchRuleEngine {
    /// An engine over a copy of the given rules.
    pub fn new(rules: &Vec<WatchRule>) -> (r: WatchRuleEngine)
        ensures
            r@ == rules_view(rules@),
    {
        let mut out: Vec<WatchRule> = Vec::new();
        let mut i: usize = 0;
        while i < rules.len()
            invariant
                i <= rules@.len(),
                out@.len() == i,
                forall|k: int| 0 <= k < i ==> #[trigger] out@[k]@ == rules@[k]@,
            decreases rules.len() - i,
        {
            out.push(WatchRule { name: rules[i].name.clone(), patterns: copy_strings(&rules[i].patterns) });
            i = i + 1;
        }
        assert(rules_view(out@) =~= rules_view(rules@));
        WatchRuleEngine { rules: out }
    }

    /// Index of the first rule with the given name.
    fn find_rule(&self, name: &str) -> (r: Option<usize>)
        ensures
            match r {
                Some(k) => k < self.rules@.len() && rule_index_from(self@, name@, 0) == Some(k as int),
                None => rule_index_from(self@, name@, 0) is None,
            },
    {
        let mut i: usize = 0;
        while i < self.rules.len()
            invariant
                i <= self.rules@.len(),
                rule_index_from(self@, name@, 0) == rule_index_from(self@, name@, i as int),
            decreases self.rules.len() - i,
        {
            if str_eq(self.rules[i].name.as_str(), name) {
                return Some(i);
            }
            i = i + 1;
        }
        None
    }
    /// What one active rule name yields on the case-folded text.
    fn scan_rule(&self, name: &String, text_lower: &str) -> (r: Option<MatchedRule>)
        ensures
            match r {
                Some(m) => rule_outcome(self@, name@, text_lower@) == Some(m@),
                None => rule_outcome(self@, name@, text_lower@) is None,
            },
    {
        match self.find_rule(name.as_str()) {
            None => None,
            Some(k) => {
                let pats = &self.rules[k].patterns;
                assert(self@[k as int].1 == patterns_view(pats@));
                if pats.len() == 0 && str_eq(name.as_str(), "all_activity") {
                    Some(new_match(name.clone(), String::from_str("all"), 100))
                } else {
                    match first_hit(pats, text_lower) {
                        Some(j) => Some(new_match(name.clone(), pats[j].clone(), 100)),
                        None => None,
                    }
                }
            },
        }
    }

    /// The records that an issue yields: first one per active rule name
    /// whose patterns fire (first pattern wins), then the built-in label
    /// heuristics for security and breaking changes, each at most once.
    pub fn check_issue(&self, issue: &Issue, active_labels: &[String]) -> (r: Vec<MatchedRule>)
        ensures
            matches_view(r@) == issue_matches(self@, active_labels@.map_values(|s: String| s@), issue@),
    {
        let ghost active = active_labels@.map_values(|s: String| s@);
        let text = build_searchable_text(issue);
        let lower = lowercase(text.as_str());
        let mut matches: Vec<MatchedRule> = Vec::new();
        let mut a: usize = 0;
        while a < active_labels.len()
            invariant
                a <= active_labels@.len(),
                active == active_labels@.map_values(|s: String| s@),
                lower@ == lower_of(searchable_text(issue@)),
                matches_view(matches@) == pattern_phase(self@, active, lower@, a as int),
            decreases active_labels.len() - a,
        {
            let found = self.scan_rule(&active_labels[a], lower.as_str());
            match found {
                Some(m) => {
                    matches.push(m);
                    assert(matches_view(matches@) =~= pattern_phase(self@, active, lower@, a as int).push(m@));
                },
                None => {},
            }
            a = a + 1;
        }
        let ghost base = matches_view(matches@);
        let ghost names = label_names(issue@.labels);
        let mut i: usize = 0;
        while i < issue.labels.len()
            invariant
                i <= issue.labels@.len(),
                names == label_names(issue@.labels),
                names.len() == issue.labels@.len(),
                forall|k: int| 0 <= k < names.len() ==> #[trigger] names[k] == issue.labels@[k].name@,
                matches_view(matches@) == label_phase(base, names, i as int),
            decreases issue.labels.len() - i,
        {
            let name = &issue.labels[i].name;
            let low = lowercase(name.as_str());
            let ghost before = matches_view(matches@);
            if contains(low.as_str(), "security") || contains(low.as_str(), "vulnerability") {
                if !has_rule_exec(&matches, "security_issues") {
                    matches.push(new_match(String::from_str("security_issues"), name.clone(), 90));
                    assert(matches_view(matches@) =~= before.push(("security_issues"@, name@, 90u32)));
                }
            }
            let ghost mid = matches_view(matches@);
            if contains(low.as_str(), "breaking") || contains(low.as_str(), "major") {
                if !has_rule_exec(&matches, "breaking_changes") {
                    matches.push(new_match(String::from_str("breaking_changes"), name.clone(), 90));
                    assert(matches_view(matches@) =~= mid.push(("breaking_changes"@, name@, 90u32)));
                }
            }
            i = i + 1;
        }
        matches
    }

    /// Records for a repository: for each pattern, one per rule that lists
    /// it verbatim, then one more when the repository name contains it
    /// (case-insensitively).
    pub fn check_repo_patterns(&self, repo_name: &str, patterns: &[String]) -> (r: Vec<MatchedRule>)
        ensures
            matches_view(r@) == repo_matches(self@, patterns@.map_values(|s: String| s@), repo_name@, patterns@.len() as int),
    {
        let ghost pats = patterns@.map_values(|s: String| s@);
        let repo_lower = lowercase(repo_name);
        let mut matches: Vec<MatchedRule> = Vec::new();
        let mut n: usize = 0;
        while n < patterns.len()
            invariant
                n <= patterns@.len(),
                pats == patterns@.map_values(|s: String| s@),
                repo_lower@ == lower_of(repo_name@),
                matches_view(matches@) == repo_matches(self@, pats, repo_name@, n as int),
            decreases patterns.len() - n,
        {
            let pattern = &patterns[n];
            assert(pattern@ == pats[n as int]);
            let ghost base = matches_view(matches@);
            let mut m: usize = 0;
            while m < self.rules.len()
                invariant
                    m <= self.rules@.len(),
                    n < patterns@.len(),
                    pats == patterns@.map_values(|s: String| s@),
                    pattern@ == pats[n as int],
                    matches_view(matches@) == base + listing_rules(self@, pats[n as int], m as int),
                decreases self.rules.len() - m,
            {
                assert(self@[m as int] == self.rules@[m as int]@);
                assert(pats[n as int] == patterns@[n as int]@);
                if lists_pattern(&self.rules[m].patterns, pattern) {
                    let ghost before = matches_view(matches@);
                    matches.push(new_match(self.rules[m].name.clone(), pattern.clone(), 80));
                    assert(matches_view(matches@) =~= before.push((self@[m as int].0, pats[n as int], 80u32)));
                }
                m = m + 1;
            }
            let pl = lowercase(pattern.as_str());
            if contains(repo_lower.as_str(), pl.as_str()) {
                let ghost before = matches_view(matches@);
                matches.push(new_match(String::from_str("repo_pattern"), pattern.clone(), 70));
                assert(matches_view(matches@) =~= before.push(("repo_pattern"@, pats[n as int], 70u32)));
            }
            n = n + 1;
        }
        matches
    }
}

/// Whether a rule's pattern list holds the pattern verbatim.
fn lists_pattern(pats: &Vec<String>, p: &String) -> (r: bool)
    ensures
        r == patterns_view(pats@).contains(p@),
{
    let mut i: usize = 0;
    while i < pats.len()
        invariant
            i <= pats@.len(),
            forall|k: int| 0 <= k < i ==> pats@[k]@ != p@,
        decreases pats.len() - i,
    {
        if pats[i] == *p {
            assert(patterns_view(pats@)[i as int] == p@);
            return true;
        }
        i = i + 1;
    }
    false
}

/// Title, body (if any) and label names, each followed by a space.
pub fn build_searchable_text(issue: &Issue) -> (r: String)
    ensures
        r@ == searchable_text(issue@),
{
    let ghost names = label_names(issue@.labels);
    let mut text = issue.title.clone();
    text.append(" ");
    match &issue.body {
        Some(b) => {
            text.append(b.as_str());
            text.append(" ");
        },
        None => {},
    }
    let ghost head = text@;
    assert(head == issue@.title + " "@ + match issue@.body {
        Some(b) => b + " "@,
        None => seq![],
    });
    let mut i: usize = 0;
    while i < issue.labels.len()
        invariant
            i <= issue.labels@.len(),
            names == label_names(issue@.labels),
            names.len() == issue.labels@.len(),
            text@ == head + labels_text(names, i as int),
        decreases issue.labels.len() - i,
    {
        assert(names[i as int] == issue.labels@[i as int].name@);
        text.append(issue.labels[i].name.as_str());
        text.append(" ");
        i = i + 1;
    }
    text
}

/// Number of records for the named rule among the first `n`.
pub open spec fn count_rule(ms: Seq<MatchView>, name: Seq<char>, n: int) -> nat
    decreases n,
{
    if n <= 0 {
        0
    } else {
        count_rule(ms, name, n - 1) + if ms[n - 1].0 == name {
            1nat
        } else {
            0nat
        }
    }
}

/// Number of occurrences of a name among the first `n` names.
pub open spec fn count_name(names: Seq<Seq<char>>, name: Seq<char>, n: int) -> nat
    decreases n,
{
    if n <= 0 {
        0
    } else {
        count_name(names, name, n - 1) + if names[n - 1] == name {
            1nat
        } else {
            0nat
        }
    }
}

pub open spec fn total_rule(ms: Seq<MatchView>, name: Seq<char>) -> nat {
    count_rule(ms, name, ms.len() as int)
}

proof fn lemma_count_same_prefix(s: Seq<MatchView>, t: Seq<MatchView>, x: Seq<char>, n: int)
    requires
        0 <= n <= s.len(),
        n <= t.len(),
        forall|k: int| 0 <= k < n ==> s[k] == t[k],
    ensures
        count_rule(s, x, n) == count_rule(t, x, n),
    decreases n,
{
    if n > 0 {
        lemma_count_same_prefix(s, t, x, n - 1);
    }
}

proof fn lemma_count_push(s: Seq<MatchView>, m: MatchView, x: Seq<char>)
    ensures
        total_rule(s.push(m), x) == total_rule(s, x) + if m.0 == x {
            1nat
        } else {
            0nat
        },
{
    lemma_count_same_prefix(s.push(m), s, x, s.len() as int);
}

proof fn lemma_count_le(s: Seq<MatchView>, x: Seq<char>, k: int)
    requires
        0 <= k <= s.len(),
    ensures
        count_rule(s, x, k) <= total_rule(s, x),
    decreases s.len() - k,
{
    if k < s.len() {
        lemma_count_le(s, x, k + 1);
    }
}

proof fn lemma_has_rule_count(s: Seq<MatchView>, x: Seq<char>, n: int)
    requires
        0 <= n <= s.len(),
    ensures
        (exists|i: int| 0 <= i < n && #[trigger] s[i].0 == x) <==> count_rule(s, x, n) > 0,
    decreases n,
{
    if n > 0 {
        lemma_has_rule_count(s, x, n - 1);
        if count_rule(s, x, n - 1) > 0 {
            let i = choose|i: int| 0 <= i < n - 1 && #[trigger] s[i].0 == x;
            assert(0 <= i < n && s[i].0 == x);
        }
    }
}

/// Pattern scanning gives at most one record per entry of the active names,
/// each for that name.
proof fn lemma_pattern_phase_bounded(rules: Seq<RuleView>, active: Seq<Seq<char>>, text: Seq<char>, n: int)
    requires
        0 <= n <= active.len(),
    ensures
        pattern_phase(rules, active, text, n).len() <= n,
        forall|x: Seq<char>|
            total_rule(#[trigger] pattern_phase(rules, active, text, n), x) <= count_name(active, x, n),
    decreases n,
{
    if n > 0 {
        lemma_pattern_phase_bounded(rules, active, text, n - 1);
        let prev = pattern_phase(rules, active, text, n - 1);
        assert forall|x: Seq<char>| total_rule(#[trigger] pattern_phase(rules, active, text, n), x) <= count_name(active, x, n) by {
            assert(total_rule(prev, x) <= count_name(active, x, n - 1));
            match rule_outcome(rules, active[n - 1], text) {
                Some(m) => {
                    assert(m.0 == active[n - 1]);
                    lemma_count_push(prev, m, x);
                },
                None => {},
            }
        }
    }
}

pub open spec fn is_heuristic_rule(name: Seq<char>) -> bool {
    name == "security_issues"@ || name == "breaking_changes"@
}

/// What the label heuristics add to the records `acc`.
pub open spec fn adds_at_most_one_each(acc: Seq<MatchView>, r: Seq<MatchView>) -> bool {
    &&& acc.len() <= r.len()
    &&& r.subrange(0, acc.len() as int) == acc
    &&& forall|k: int| acc.len() <= k < r.len() ==> is_heuristic_rule(#[trigger] r[k].0)
    &&& total_rule(r, "security_issues"@) <= total_rule(acc, "security_issues"@) + 1
    &&& total_rule(r, "breaking_changes"@) <= total_rule(acc, "breaking_changes"@) + 1
    &&& has_rule(acc, "security_issues"@) ==> total_rule(r, "security_issues"@) == total_rule(acc, "security_issues"@)
    &&& has_rule(acc, "breaking_changes"@) ==> total_rule(r, "breaking_changes"@) == total_rule(
        acc,
        "breaking_changes"@,
    )
    &&& r.len() - acc.len() == (total_rule(r, "security_issues"@) - total_rule(acc, "security_issues"@)) + (total_rule(
        r,
        "breaking_changes"@,
    ) - total_rule(acc, "breaking_changes"@))
}

proof fn lemma_push_keeps(acc: Seq<MatchView>, r: Seq<MatchView>, m: MatchView)
    requires
        adds_at_most_one_each(acc, r),
        is_heuristic_rule(m.0),
        !has_rule(r, m.0),
    ensures
        adds_at_most_one_each(acc, r.push(m)),
{
    let sec = "security_issues"@;
    let brk = "breaking_changes"@;
    reveal_strlit("security_issues");
    reveal_strlit("breaking_changes");
    assert(sec.len() != brk.len());
    let r2 = r.push(m);
    lemma_count_push(r, m, sec);
    lemma_count_push(r, m, brk);
    lemma_has_rule_count(r, m.0, r.len() as int);
    lemma_has_rule_count(acc, m.0, acc.len() as int);
    assert(total_rule(r, m.0) == 0);
    assert(r2.subrange(0, acc.len() as int) == r.subrange(0, acc.len() as int));
    lemma_count_same_prefix(r, acc, sec, acc.len() as int);
    lemma_count_same_prefix(r, acc, brk, acc.len() as int);
    lemma_count_le(r, sec, acc.len() as int);
    lemma_count_le(r, brk, acc.len() as int);
    assert forall|k: int| 0 <= k < acc.len() implies r[k] == acc[k] by {
        assert(r.subrange(0, acc.len() as int)[k] == r[k]);
    }
    if has_rule(acc, m.0) {
        let i = choose|i: int| 0 <= i < acc.len() && #[trigger] acc[i].0 == m.0;
        assert(r[i].0 == m.0);
    }
    assert forall|k: int| acc.len() <= k < r2.len() implies is_heuristic_rule(#[trigger] r2[k].0) by {
        if k < r.len() {
            assert(r2[k] == r[k]);
        }
    }
}

proof fn lemma_label_phase_bounded(acc: Seq<MatchView>, labels: Seq<Seq<char>>, n: int)
    requires
        0 <= n <= labels.len(),
    ensures
        adds_at_most_one_each(acc, label_phase(acc, labels, n)),
    decreases n,
{
    let sec = "security_issues"@;
    let brk = "breaking_changes"@;
    if n == 0 {
        assert(acc.subrange(0, acc.len() as int) == acc);
    } else {
        lemma_label_phase_bounded(acc, labels, n - 1);
        let r = label_phase(acc, labels, n - 1);
        let l = labels[n - 1];
        let low = lower_of(l);
        let a1 = if is_security_label(low) && !has_rule(r, sec) {
            r.push((sec, l, 90u32))
        } else {
            r
        };
        if is_security_label(low) && !has_rule(r, sec) {
            lemma_push_keeps(acc, r, (sec, l, 90u32));
        }
        if is_breaking_label(low) && !has_rule(a1, brk) {
            lemma_push_keeps(acc, a1, (brk, l, 90u32));
        }
    }
}

/// For every issue: pattern scanning yields at most one record per entry
/// of the active rule names (first pattern wins), each for that name; the
/// built-in label heuristics then append at most one `security_issues`
/// and at most one `breaking_changes` record, and none for a rule that
/// pattern scanning already produced.
pub proof fn lemma_issue_matches_bounded(rules: Seq<RuleView>, active: Seq<Seq<char>>, issue: IssueView)
    ensures
        ({
            let pm = pattern_phase(rules, active, lower_of(searchable_text(issue)), active.len() as int);
            let all = issue_matches(rules, active, issue);
            &&& pm.len() <= active.len()
            &&& forall|x: Seq<char>| total_rule(pm, x) <= count_name(active, x, active.len() as int)
            &&& adds_at_most_one_each(pm, all)
            &&& all.len() <= pm.len() + 2
        }),
{
    let text = lower_of(searchable_text(issue));
    let pm = pattern_phase(rules, active, text, active.len() as int);
    let names = label_names(issue.labels);
    lemma_pattern_phase_bounded(rules, active, text, active.len() as int);
    lemma_label_phase_bounded(pm, names, names.len() as int);
    let all = issue_matches(rules, active, issue);
    assert(forall|x: Seq<char>| total_rule(pm, x) <= count_name(active, x, active.len() as int));
}

} // verus!
