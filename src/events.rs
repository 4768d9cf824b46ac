//! Activity events of a user's feed, reduced to the facts the listing reads.
use vstd::prelude::*;
use crate::report::{action_priority, action_rank};
use crate::text::{decimal, decimal_string, lemma_text_order, str_eq, text_less, text_lt};

verus! {

/// What the listing reads of one activity event: its type, its actor, and
/// the parts of its payload that matter.
#[derive(Debug, Clone)]
pub struct EventFacts {
    pub event_type: String,
    pub actor: String,
    /// `payload.action`, when it is a string.
    pub action: Option<String>,
    /// `payload.pull_request.number`, when it is an unsigned number.
    pub pr_number: Option<u64>,
    /// `payload.pull_request.title`, when it is a string.
    pub pr_title: Option<String>,
    /// `payload.issue.number`, when it is an unsigned number.
    pub issue_number: Option<u64>,
    /// `payload.issue.title`, when it is a string.
    pub issue_title: Option<String>,
    /// Whether `payload.issue.pull_request` is present.
    pub issue_is_pr: bool,
    /// Length of `payload.commits`, when it is an array.
    pub commit_count: Option<u64>,
    /// `payload.ref_type`, when it is a string.
    pub ref_type: Option<String>,
}

/// The issue or pull request an event is about.
#[derive(Debug, Clone, Copy, PartialEq, Eq, Structural)]
pub struct IssueKey {
    pub issue_number: u64,
    pub is_pr: bool,
}

pub open spec fn opt_text(o: Option<String>) -> Option<Seq<char>> {
    match o {
        Some(s) => Some(s@),
        None => None,
    }
}

pub open spec fn default_types() -> Seq<Seq<char>> {
    seq![
        "IssueCommentEvent"@,
        "PullRequestEvent"@,
        "IssuesEvent"@,
        "PullRequestReviewCommentEvent"@,
        "PullRequestReviewEvent"@,
    ]
}

pub open spec fn texts(v: Seq<String>) -> Seq<Seq<char>> {
    v.map_values(|s: String| s@)
}

/// Whether the listing shows an event: its type is among those included
/// (the default list when none is given) and not among those excluded, and
/// it is no labelling of an issue.
pub open spec fn shown(e: EventFacts, wanted: Option<Seq<Seq<char>>>, unwanted: Option<Seq<Seq<char>>>) -> bool {
    let inc = match wanted {
        Some(v) => v,
        None => default_types(),
    };
    &&& inc.contains(e.event_type@)
    &&& match unwanted {
        Some(v) => !v.contains(e.event_type@),
        None => true,
    }
    &&& !(e.event_type@ == "IssuesEvent"@ && (opt_text(e.action) == Some("labeled"@) || opt_text(e.action) == Some(
        "unlabeled"@,
    )))
}

fn listed(v: &Vec<String>, s: &String) -> (r: bool)
    ensures
        r == texts(v@).contains(s@),
{
    let mut i: usize = 0;
    while i < v.len()
        invariant
            i <= v@.len(),
            forall|k: int| 0 <= k < i ==> v@[k]@ != s@,
        decreases v.len() - i,
    {
        if v[i] == *s {
            assert(texts(v@)[i as int] == s@);
            return true;
        }
        i = i + 1;
    }
    false
}

fn in_default_types(s: &str) -> (r: bool)
    ensures
        r == default_types().contains(s@),
{
    let r = str_eq(s, "IssueCommentEvent") || str_eq(s, "PullRequestEvent") || str_eq(s, "IssuesEvent") || str_eq(
        s,
        "PullRequestReviewCommentEvent",
    ) || str_eq(s, "PullRequestReviewEvent");
    let ghost d = default_types();
    proof {
        if r {
            if s@ == "IssueCommentEvent"@ {
                assert(d[0] == s@);
            } else if s@ == "PullRequestEvent"@ {
                assert(d[1] == s@);
            } else if s@ == "IssuesEvent"@ {
                assert(d[2] == s@);
            } else if s@ == "PullRequestReviewCommentEvent"@ {
                assert(d[3] == s@);
            } else {
                assert(d[4] == s@);
            }
        }
    }
    r
}

fn opt_is(o: &Option<String>, lit: &str) -> (r: bool)
    ensures
        r == (opt_text(*o) == Some(lit@)),
{
    match o {
        Some(s) => str_eq(s.as_str(), lit),
        None => false,
    }
}

/// Positions of the events that the listing shows, in order.
pub fn filter_events(events: &Vec<EventFacts>, include_types: Option<&Vec<String>>, exclude_types: Option<&Vec<String>>) -> (r: Vec<usize>)
    ensures
        ({
            let inc = match include_types {
                Some(v) => Some(texts(v@)),
                None => None,
            };
            let exc = match exclude_types {
                Some(v) => Some(texts(v@)),
                None => None,
            };
            &&& forall|k: int| 0 <= k < r@.len() ==> (#[trigger] r@[k]) < events@.len() && shown(events@[r@[k] as int], inc, exc)
            &&& forall|k: int, l: int| 0 <= k < l < r@.len() ==> (#[trigger] r@[k]) < (#[trigger] r@[l])
            &&& forall|i: int| 0 <= i < events@.len() && shown(events@[i], inc, exc) ==> r@.contains(i as usize)
        }),
{
    let ghost inc = match include_types {
        Some(v) => Some(texts(v@)),
        None => None,
    };
    let ghost exc = match exclude_types {
        Some(v) => Some(texts(v@)),
        None => None,
    };
    let mut out: Vec<usize> = Vec::new();
    let mut i: usize = 0;
    while i < events.len()
        invariant
            i <= events@.len(),
            inc == (match include_types {
                Some(v) => Some(texts(v@)),
                None => None,
            }),
            exc == (match exclude_types {
                Some(v) => Some(texts(v@)),
                None => None,
            }),
            forall|k: int| 0 <= k < out@.len() ==> (#[trigger] out@[k]) < i && shown(events@[out@[k] as int], inc, exc),
            forall|k: int, l: int| 0 <= k < l < out@.len() ==> (#[trigger] out@[k]) < (#[trigger] out@[l]),
            forall|j: int| 0 <= j < i && shown(events@[j], inc, exc) ==> out@.contains(j as usize),
        decreases events.len() - i,
    {
        let e = &events[i];
        let included = match include_types {
            Some(v) => listed(v, &e.event_type),
            None => in_default_types(e.event_type.as_str()),
        };
        let excluded = match exclude_types {
            Some(v) => listed(v, &e.event_type),
            None => false,
        };
        let labelling = str_eq(e.event_type.as_str(), "IssuesEvent") && (opt_is(&e.action, "labeled") || opt_is(
            &e.action,
            "unlabeled",
        ));
        if included && !excluded && !labelling {
            let ghost before = out@;
            out.push(i);
            assert forall|j: int| 0 <= j < i + 1 && shown(events@[j], inc, exc) implies out@.contains(j as usize) by {
                if j < i {
                    let k = choose|k: int| 0 <= k < before.len() && before[k] == j as usize;
                    assert(out@[k] == j as usize);
                } else {
                    assert(out@[before.len() as int] == j as usize);
                }
            }
        }
        i = i + 1;
    }
    out
}

/// The issue or pull request an event is about, by event type.
pub open spec fn issue_key_of(e: EventFacts) -> Option<IssueKey> {
    let t = e.event_type@;
    if t == "PullRequestEvent"@ || t == "PullRequestReviewCommentEvent"@ {
        match e.pr_number {
            Some(n) => Some(IssueKey { issue_number: n, is_pr: true }),
            None => None,
        }
    } else if t == "IssuesEvent"@ || t == "IssueCommentEvent"@ {
        match e.issue_number {
            Some(n) => Some(IssueKey { issue_number: n, is_pr: e.issue_is_pr }),
            None => None,
        }
    } else {
        None
    }
}

pub fn extract_issue_key(event: &EventFacts) -> (r: Option<IssueKey>)
    ensures
        r == issue_key_of(*event),
{
    let t = event.event_type.as_str();
    if str_eq(t, "PullRequestEvent") || str_eq(t, "PullRequestReviewCommentEvent") {
        match event.pr_number {
            Some(n) => Some(IssueKey { issue_number: n, is_pr: true }),
            None => None,
        }
    } else if str_eq(t, "IssuesEvent") || str_eq(t, "IssueCommentEvent") {
        match event.issue_number {
            Some(n) => Some(IssueKey { issue_number: n, is_pr: event.issue_is_pr }),
            None => None,
        }
    } else {
        None
    }
}

/// The title of the item an event is about, by event type.
pub open spec fn title_of(e: EventFacts) -> Option<Seq<char>> {
    let t = e.event_type@;
    if t == "PullRequestEvent"@ || t == "PullRequestReviewCommentEvent"@ || t == "PullRequestReviewEvent"@ {
        opt_text(e.pr_title)
    } else if t == "IssuesEvent"@ || t == "IssueCommentEvent"@ {
        opt_text(e.issue_title)
    } else {
        None
    }
}

fn copy_text(o: &Option<String>) -> (r: Option<String>)
    ensures
        opt_text(r) == opt_text(*o),
{
    match o {
        Some(s) => Some(s.clone()),
        None => None,
    }
}

pub fn extract_title_from_event(event: &EventFacts) -> (r: Option<String>)
    ensures
        opt_text(r) == title_of(*event),
{
    let t = event.event_type.as_str();
    if str_eq(t, "PullRequestEvent") || str_eq(t, "PullRequestReviewCommentEvent") || str_eq(t, "PullRequestReviewEvent") {
        copy_text(&event.pr_title)
    } else if str_eq(t, "IssuesEvent") || str_eq(t, "IssueCommentEvent") {
        copy_text(&event.issue_title)
    } else {
        None
    }
}

/// The wording of a pull request action.
pub open spec fn pr_action_text(a: Seq<char>) -> Seq<char> {
    if a == "ready_for_review"@ {
        "ready for review"@
    } else if a == "converted_to_draft"@ {
        "converted to draft"@
    } else {
        a
    }
}

/// How the listing words what an event did.
pub open spec fn action_text_of(e: EventFacts) -> Seq<char> {
    let t = e.event_type@;
    if t == "PullRequestEvent"@ {
        match opt_text(e.action) {
            Some(a) => pr_action_text(a),
            None => "updated"@,
        }
    } else if t == "IssuesEvent"@ {
        match opt_text(e.action) {
            Some(a) => a,
            None => "updated"@,
        }
    } else if t == "IssueCommentEvent"@ {
        "commented"@
    } else if t == "PullRequestReviewEvent"@ {
        match opt_text(e.action) {
            Some(a) => if a == "submitted"@ {
                "reviewed"@
            } else {
                "review activity"@
            },
            None => "reviewed"@,
        }
    } else if t == "PullRequestReviewCommentEvent"@ {
        "review commented"@
    } else {
        t
    }
}

pub fn event_action_text(event: &EventFacts) -> (r: String)
    ensures
        r@ == action_text_of(*event),
{
    let t = event.event_type.as_str();
    if str_eq(t, "PullRequestEvent") {
        match &event.action {
            Some(a) => if str_eq(a.as_str(), "ready_for_review") {
                String::from_str("ready for review")
            } else if str_eq(a.as_str(), "converted_to_draft") {
                String::from_str("converted to draft")
            } else {
                a.clone()
            },
            None => String::from_str("updated"),
        }
    } else if str_eq(t, "IssuesEvent") {
        match &event.action {
            Some(a) => a.clone(),
            None => String::from_str("updated"),
        }
    } else if str_eq(t, "IssueCommentEvent") {
        String::from_str("commented")
    } else if str_eq(t, "PullRequestReviewEvent") {
        match &event.action {
            Some(a) => if str_eq(a.as_str(), "submitted") {
                String::from_str("reviewed")
            } else {
                String::from_str("review activity")
            },
            None => String::from_str("reviewed"),
        }
    } else if str_eq(t, "PullRequestReviewCommentEvent") {
        String::from_str("review commented")
    } else {
        event.event_type.clone()
    }
}

/// `@login` of an event's actor.
pub open spec fn actor_text(e: EventFacts) -> Seq<char> {
    "@"@ + e.actor@
}

/// The order of actions in the grouped listing: by rank, then by text.
pub open spec fn action_before(a: Seq<char>, b: Seq<char>) -> bool {
    action_rank(a) < action_rank(b) || (action_rank(a) == action_rank(b) && text_lt(a, b))
}

pub type GroupView = (Seq<char>, Seq<Seq<char>>);

pub open spec fn groups_view(gs: Seq<(String, Vec<String>)>) -> Seq<GroupView> {
    gs.map_values(|g: (String, Vec<String>)| (g.0@, texts(g.1@)))
}

/// Strictly increasing texts.
pub open spec fn strictly_sorted(v: Seq<Seq<char>>) -> bool {
    forall|i: int, j: int| 0 <= i < j < v.len() ==> text_lt(#[trigger] v[i], #[trigger] v[j])
}

/// Groups in listing order, each with a non-empty, sorted list of distinct actors.
pub open spec fn well_grouped(gs: Seq<GroupView>) -> bool {
    &&& forall|i: int, j: int| 0 <= i < j < gs.len() ==> action_before(#[trigger] gs[i].0, #[trigger] gs[j].0)
    &&& forall|i: int| 0 <= i < gs.len() ==> (#[trigger] gs[i]).1.len() > 0 && strictly_sorted(gs[i].1)
}

/// Some group of the action lists the actor.
pub open spec fn has_pair(gs: Seq<GroupView>, a: Seq<char>, x: Seq<char>) -> bool {
    exists|i: int| 0 <= i < gs.len() && (#[trigger] gs[i]).0 == a && gs[i].1.contains(x)
}

/// One of the first `n` events did `a` by actor `x`.
pub open spec fn pair_from(events: Seq<EventFacts>, n: int, a: Seq<char>, x: Seq<char>) -> bool {
    exists|j: int| 0 <= j < n && action_text_of(#[trigger] events[j]) == a && actor_text(events[j]) == x
}

/// Every listed pair comes from one of the first `n` events.
pub open spec fn pairs_from(gs: Seq<GroupView>, events: Seq<EventFacts>, n: int) -> bool {
    forall|i: int, k: int|
        0 <= i < gs.len() && 0 <= k < gs[i].1.len() ==> #[trigger] pair_from(events, n, gs[i].0, gs[i].1[k])
}

proof fn lemma_action_order(a: Seq<char>, b: Seq<char>, c: Seq<char>)
    ensures
        !action_before(a, a),
        a != b ==> (action_before(a, b) || action_before(b, a)),
        !(action_before(a, b) && action_before(b, a)),
        action_before(a, b) && action_before(b, c) ==> action_before(a, c),
{
    lemma_text_order(a, b, c);
}

/// Inserts `x` into a strictly sorted list unless it is there.
fn insert_sorted(v: &mut Vec<String>, x: String)
    requires
        strictly_sorted(texts(old(v)@)),
    ensures
        strictly_sorted(texts(final(v)@)),
        texts(final(v)@).contains(x@),
        forall|y: Seq<char>| texts(old(v)@).contains(y) ==> texts(final(v)@).contains(y),
        forall|k: int| 0 <= k < texts(final(v)@).len() ==> (#[trigger] texts(final(v)@)[k]) == x@ || texts(old(v)@).contains(
            texts(final(v)@)[k],
        ),
{
    let ghost t = texts(v@);
    let mut i: usize = 0;
    while i < v.len() && text_less(v[i].as_str(), x.as_str())
        invariant
            i <= v@.len(),
            t == texts(v@),
            strictly_sorted(t),
            forall|k: int| 0 <= k < i ==> text_lt(#[trigger] t[k], x@),
        decreases v.len() - i,
    {
        i = i + 1;
    }
    if i < v.len() && v[i] == x {
        assert(t[i as int] == x@);
        return;
    }
    proof {
        if i < v@.len() {
            lemma_text_order(x@, t[i as int], x@);
            assert(text_lt(x@, t[i as int]));
            assert forall|k: int| i <= k < t.len() implies text_lt(x@, #[trigger] t[k]) by {
                if k > i {
                    lemma_text_order(x@, t[i as int], t[k]);
                }
            }
        }
    }
    v.insert(i, x);
    let ghost r = texts(v@);
    assert(r =~= t.insert(i as int, x@));
    assert forall|a: int, b: int| 0 <= a < b < r.len() implies text_lt(#[trigger] r[a], #[trigger] r[b]) by {
        if a < i && b < i {
        } else if a < i && b == i {
        } else if a < i {
            assert(r[b] == t[b - 1]);
        } else if a == i {
            assert(r[b] == t[b - 1]);
        } else {
            assert(r[a] == t[a - 1]);
            assert(r[b] == t[b - 1]);
        }
    }
    assert(r[i as int] == x@);
    assert forall|y: Seq<char>| t.contains(y) implies r.contains(y) by {
        let k = choose|k: int| 0 <= k < t.len() && t[k] == y;
        if k < i {
            assert(r[k] == y);
        } else {
            assert(r[k + 1] == y);
        }
    }
    assert forall|k: int| 0 <= k < r.len() implies (#[trigger] r[k]) == x@ || t.contains(r[k]) by {
        if k < i {
            assert(r[k] == t[k]);
        } else if k > i {
            assert(r[k] == t[k - 1]);
        }
    }
}

/// Adds one (action, actor) pair to the groups.
fn add_pair(groups: &mut Vec<(String, Vec<String>)>, a: String, x: String)
    requires
        well_grouped(groups_view(old(groups)@)),
    ensures
        well_grouped(groups_view(final(groups)@)),
        has_pair(groups_view(final(groups)@), a@, x@),
        forall|b: Seq<char>, y: Seq<char>|
            has_pair(groups_view(old(groups)@), b, y) ==> has_pair(groups_view(final(groups)@), b, y),
        forall|i: int, k: int|
            0 <= i < groups_view(final(groups)@).len() && 0 <= k < groups_view(final(groups)@)[i].1.len() ==> ((
            #[trigger] groups_view(final(groups)@)[i]).0 == a@ && groups_view(final(groups)@)[i].1[k] == x@) || has_pair(
                groups_view(old(groups)@),
                groups_view(final(groups)@)[i].0,
                #[trigger] groups_view(final(groups)@)[i].1[k],
            ),
{
    let ghost g0 = groups_view(groups@);
    let rank = action_priority(a.as_str());
    let mut i: usize = 0;
    while i < groups.len() && (action_priority(groups[i].0.as_str()) < rank || (action_priority(groups[i].0.as_str()) == rank
        && text_less(groups[i].0.as_str(), a.as_str())))
        invariant
            i <= groups@.len(),
            g0 == groups_view(groups@),
            well_grouped(g0),
            rank == action_rank(a@),
            forall|k: int| 0 <= k < i ==> action_before(#[trigger] g0[k].0, a@),
        decreases groups.len() - i,
    {
        assert(g0[i as int].0 == groups@[i as int].0@);
        i = i + 1;
    }
    if i < groups.len() && groups[i].0 == a {
        assert(g0[i as int].0 == a@);
        let (name, mut actors) = groups.remove(i);
        assert(texts(actors@) == g0[i as int].1);
        insert_sorted(&mut actors, x);
        let ghost na = texts(actors@);
        groups.insert(i, (name, actors));
        let ghost g1 = groups_view(groups@);
        assert(g1 =~= g0.update(i as int, (a@, na)));
        assert(g1[i as int] == (a@, na));
        assert forall|b: Seq<char>, y: Seq<char>| has_pair(g0, b, y) implies has_pair(g1, b, y) by {
            let k = choose|k: int| 0 <= k < g0.len() && (#[trigger] g0[k]).0 == b && g0[k].1.contains(y);
            assert(g1[k].0 == b && g1[k].1.contains(y));
        }
        assert forall|p: int, k: int| 0 <= p < g1.len() && 0 <= k < g1[p].1.len() implies ((#[trigger] g1[p]).0 == a@
            && g1[p].1[k] == x@) || has_pair(g0, g1[p].0, #[trigger] g1[p].1[k]) by {
            if p != i {
                assert(g1[p] == g0[p]);
                assert(g0[p].1[k] == g1[p].1[k]);
            } else if g1[p].1[k] != x@ {
                assert(g0[p].1.contains(g1[p].1[k]));
            }
        }
        assert forall|p: int| 0 <= p < g1.len() implies (#[trigger] g1[p]).1.len() > 0 && strictly_sorted(g1[p].1) by {
            if p != i {
                assert(g1[p] == g0[p]);
            }
        }
        assert forall|p: int, q: int| 0 <= p < q < g1.len() implies action_before(#[trigger] g1[p].0, #[trigger] g1[q].0) by {
            assert(g1[p].0 == g0[p].0);
            assert(g1[q].0 == g0[q].0);
        }
        assert(g1[i as int].1.contains(x@));
    } else {
        proof {
            if i < g0.len() {
                assert(g0[i as int].0 == groups@[i as int].0@);
                lemma_action_order(a@, g0[i as int].0, a@);
                assert(action_before(a@, g0[i as int].0));
                assert forall|k: int| i <= k < g0.len() implies action_before(a@, #[trigger] g0[k].0) by {
                    if k > i {
                        lemma_action_order(a@, g0[i as int].0, g0[k].0);
                    }
                }
            }
        }
        let mut actors: Vec<String> = Vec::new();
        actors.push(x);
        let ghost na = texts(actors@);
        assert(na[0] == x@);
        groups.insert(i, (a, actors));
        let ghost g1 = groups_view(groups@);
        assert(g1 =~= g0.insert(i as int, (a@, na)));
        assert(g1[i as int].1.contains(x@));
        assert forall|b: Seq<char>, y: Seq<char>| has_pair(g0, b, y) implies has_pair(g1, b, y) by {
            let k = choose|k: int| 0 <= k < g0.len() && (#[trigger] g0[k]).0 == b && g0[k].1.contains(y);
            if k < i {
                assert(g1[k] == g0[k]);
            } else {
                assert(g1[k + 1] == g0[k]);
            }
        }
        assert forall|p: int, k: int| 0 <= p < g1.len() && 0 <= k < g1[p].1.len() implies ((#[trigger] g1[p]).0 == a@
            && g1[p].1[k] == x@) || has_pair(g0, g1[p].0, #[trigger] g1[p].1[k]) by {
            if p < i {
                assert(g1[p] == g0[p]);
                assert(g0[p].1.contains(g1[p].1[k]));
            } else if p > i {
                assert(g1[p] == g0[p - 1]);
                assert(g0[p - 1].1.contains(g1[p].1[k]));
            }
        }
        assert forall|p: int| 0 <= p < g1.len() implies (#[trigger] g1[p]).1.len() > 0 && strictly_sorted(g1[p].1) by {
            if p < i {
                assert(g1[p] == g0[p]);
            } else if p > i {
                assert(g1[p] == g0[p - 1]);
            }
        }
        assert forall|p: int, q: int| 0 <= p < q < g1.len() implies action_before(#[trigger] g1[p].0, #[trigger] g1[q].0) by {
            let gp = if p < i { g0[p] } else if p == i { (a@, na) } else { g0[p - 1] };
            let gq = if q < i { g0[q] } else if q == i { (a@, na) } else { g0[q - 1] };
            assert(g1[p] == gp);
            assert(g1[q] == gq);
        }
    }
}

/// The events grouped by what they did, in listing order (by rank, then
/// by text), each with the sorted, distinct `@login`s of its actors.
pub fn group_events_by_action(events: &Vec<EventFacts>) -> (r: Vec<(String, Vec<String>)>)
    ensures
        well_grouped(groups_view(r@)),
        forall|j: int| 0 <= j < events@.len() ==> has_pair(groups_view(r@), action_text_of(#[trigger] events@[j]), actor_text(events@[j])),
        pairs_from(groups_view(r@), events@, events@.len() as int),
{
    let mut groups: Vec<(String, Vec<String>)> = Vec::new();
    let mut j: usize = 0;
    while j < events.len()
        invariant
            j <= events@.len(),
            well_grouped(groups_view(groups@)),
            forall|k: int| 0 <= k < j ==> has_pair(groups_view(groups@), action_text_of(#[trigger] events@[k]), actor_text(events@[k])),
            pairs_from(groups_view(groups@), events@, j as int),
        decreases events.len() - j,
    {
        let e = &events[j];
        let a = event_action_text(e);
        let mut x = String::from_str("@");
        x.append(e.actor.as_str());
        let ghost g0 = groups_view(groups@);
        add_pair(&mut groups, a, x);
        let ghost g1 = groups_view(groups@);
        assert forall|i: int, k: int| 0 <= i < g1.len() && 0 <= k < g1[i].1.len() implies #[trigger] pair_from(
            events@,
            j + 1,
            g1[i].0,
            g1[i].1[k],
        ) by {
            if g1[i].0 == action_text_of(events@[j as int]) && g1[i].1[k] == actor_text(events@[j as int]) {
                assert(0 <= j < j + 1);
                assert(action_text_of(events@[j as int]) == g1[i].0);
            } else {
                assert(has_pair(g0, g1[i].0, g1[i].1[k]));
                let p = choose|p: int| 0 <= p < g0.len() && (#[trigger] g0[p]).0 == g1[i].0 && g0[p].1.contains(g1[i].1[k]);
                let q = choose|q: int| 0 <= q < g0[p].1.len() && g0[p].1[q] == g1[i].1[k];
                assert(g0[p].1[q] == g1[i].1[k]);
                assert(pair_from(events@, j as int, g0[p].0, g0[p].1[q]));
                let m = choose|m: int| 0 <= m < j && action_text_of(#[trigger] events@[m]) == g0[p].0 && actor_text(events@[m]) == g0[p].1[q];
                assert(0 <= m < j + 1);
            }
        }
        assert(pairs_from(g1, events@, j + 1));
        j = j + 1;
    }
    groups
}

pub open spec fn number_text(n: u64) -> Seq<char> {
    decimal(n as nat)
}

/// One line describing an event, by its type and what its payload tells.
pub open spec fn event_line(e: EventFacts) -> Seq<char> {
    let a = "@"@ + e.actor@;
    let t = e.event_type@;
    if t == "PushEvent"@ {
        match e.commit_count {
            Some(c) => a + " pushed "@ + number_text(c) + " commit(s)"@,
            None => a + " pushed commits"@,
        }
    } else if t == "PullRequestEvent"@ {
        match opt_text(e.action) {
            Some(x) => match e.pr_number {
                Some(n) => a + " "@ + x + " PR #"@ + number_text(n),
                None => a + " "@ + x + " pull request"@,
            },
            None => a + " pull request activity"@,
        }
    } else if t == "IssuesEvent"@ {
        match opt_text(e.action) {
            Some(x) => match e.issue_number {
                Some(n) => a + " "@ + x + " issue #"@ + number_text(n),
                None => a + " "@ + x + " issue"@,
            },
            None => a + " issue activity"@,
        }
    } else if t == "IssueCommentEvent"@ {
        match e.issue_number {
            Some(n) => a + " commented on issue #"@ + number_text(n),
            None => a + " commented on issue"@,
        }
    } else if t == "PullRequestReviewEvent"@ {
        match e.pr_number {
            Some(n) => a + " reviewed PR #"@ + number_text(n),
            None => a + " reviewed pull request"@,
        }
    } else if t == "PullRequestReviewCommentEvent"@ {
        match e.pr_number {
            Some(n) => a + " commented on PR #"@ + number_text(n),
            None => a + " commented on pull request"@,
        }
    } else if t == "CreateEvent"@ {
        match opt_text(e.ref_type) {
            Some(r) => a + " created "@ + r,
            None => a + " created resource"@,
        }
    } else if t == "DeleteEvent"@ {
        match opt_text(e.ref_type) {
            Some(r) => a + " deleted "@ + r,
            None => a + " deleted resource"@,
        }
    } else if t == "ForkEvent"@ {
        a + " forked repository"@
    } else if t == "WatchEvent"@ {
        a + " starred repository"@
    } else if t == "ReleaseEvent"@ {
        match opt_text(e.action) {
            Some(x) => a + " "@ + x + " release"@,
            None => a + " release activity"@,
        }
    } else {
        a + " "@ + t + " event"@
    }
}

fn push_number(s: &mut String, n: u64)
    ensures
        final(s)@ == old(s)@ + number_text(n),
{
    let d = decimal_string(n);
    s.append(d.as_str());
}

/// Either `<with>N` when a number is known or `<without>`.
fn push_numbered(s: &mut String, n: Option<u64>, with: &str, without: &str)
    ensures
        final(s)@ == match n {
            Some(v) => old(s)@ + with@ + number_text(v),
            None => old(s)@ + without@,
        },
{
    match n {
        Some(v) => {
            s.append(with);
            push_number(s, v);
        },
        None => {
            s.append(without);
        },
    }
}

pub fn format_activity_event(event: &EventFacts) -> (r: String)
    ensures
        r@ == event_line(*event),
{
    let mut s = String::from_str("@");
    s.append(event.actor.as_str());
    let t = event.event_type.as_str();
    if str_eq(t, "PushEvent") {
        match event.commit_count {
            Some(c) => {
                s.append(" pushed ");
                push_number(&mut s, c);
                s.append(" commit(s)");
            },
            None => {
                s.append(" pushed commits");
            },
        }
    } else if str_eq(t, "PullRequestEvent") {
        match &event.action {
            Some(x) => {
                s.append(" ");
                s.append(x.as_str());
                push_numbered(&mut s, event.pr_number, " PR #", " pull request");
            },
            None => {
                s.append(" pull request activity");
            },
        }
    } else if str_eq(t, "IssuesEvent") {
        match &event.action {
            Some(x) => {
                s.append(" ");
                s.append(x.as_str());
                push_numbered(&mut s, event.issue_number, " issue #", " issue");
            },
            None => {
                s.append(" issue activity");
            },
        }
    } else if str_eq(t, "IssueCommentEvent") {
        push_numbered(&mut s, event.issue_number, " commented on issue #", " commented on issue");
    } else if str_eq(t, "PullRequestReviewEvent") {
        push_numbered(&mut s, event.pr_number, " reviewed PR #", " reviewed pull request");
    } else if str_eq(t, "PullRequestReviewCommentEvent") {
        push_numbered(&mut s, event.pr_number, " commented on PR #", " commented on pull request");
    } else if str_eq(t, "CreateEvent") {
        match &event.ref_type {
            Some(r) => {
                s.append(" created ");
                s.append(r.as_str());
            },
            None => {
                s.append(" created resource");
            },
        }
    } else if str_eq(t, "DeleteEvent") {
        match &event.ref_type {
            Some(r) => {
                s.append(" deleted ");
                s.append(r.as_str());
            },
            None => {
                s.append(" deleted resource");
            },
        }
    } else if str_eq(t, "ForkEvent") {
        s.append(" forked repository");
    } else if str_eq(t, "WatchEvent") {
        s.append(" starred repository");
    } else if str_eq(t, "ReleaseEvent") {
        match &event.action {
            Some(x) => {
                s.append(" ");
                s.append(x.as_str());
                s.append(" release");
            },
            None => {
                s.append(" release activity");
            },
        }
    } else {
        s.append(" ");
        s.append(t);
        s.append(" event");
    }
    s
}

} // verus!
