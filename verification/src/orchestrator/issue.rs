//! Tracker issues and the rules that decide whether one is dispatched: its
//! state against the configured active and terminal states, its labels,
//! its blockers, the free slots, and the dispatch order.

use vstd::prelude::*;

use crate::domain::{
    lookup_table, model_for_state_spec, normalize_issue_state, normalize_state, table_lookup,
    AgentBackend, ServiceConfig,
};
use crate::text::{
    eq_ignore_ascii_case, eq_ignore_case, is_blank, is_blank_str, lower_seq, str_eq,
    to_ascii_lowercase, trim, trim_seq,
};

verus! {

/// An issue that blocks another, as the tracker reports it; `state` is
/// absent for blockers in another project.
#[derive(Debug, Clone, PartialEq, Eq)]
pub struct BlockerRef {
    pub id: Option<String>,
    pub identifier: Option<String>,
    pub state: Option<String>,
}

/// A tracker issue; `created_at_us` is its creation time in Unix
/// microseconds.
#[derive(Debug, Clone, PartialEq, Eq)]
pub struct Issue {
    pub id: String,
    pub identifier: String,
    pub title: String,
    pub state: String,
    pub priority: Option<i32>,
    pub created_at_us: Option<i64>,
    pub labels: Vec<String>,
    pub assigned_to_worker: bool,
    pub parent_identifier: Option<String>,
    pub blocked_by: Vec<BlockerRef>,
    pub url: Option<String>,
}

/// The tracker settings the dispatch rules read.
#[derive(Debug, Clone, PartialEq, Eq)]
pub struct TrackerConfig {
    pub kind: Option<String>,
    pub active_states: Vec<String>,
    pub terminal_states: Vec<String>,
    pub exclude_labels: Vec<String>,
}

/// Some listed state normalizes to the same text as `state`.
pub open spec fn state_listed(states: Seq<String>, state: Seq<char>) -> bool {
    exists|i: int|
        0 <= i < states.len() && normalize_state(#[trigger] states[i]@) == normalize_state(state)
}

/// Like `state_listed`, but a state that normalizes to nothing never
/// matches: the configured sets leave out blank entries.
pub open spec fn state_in_set(states: Seq<String>, state: Seq<char>) -> bool {
    normalize_state(state).len() > 0 && state_listed(states, state)
}

fn listed(states: &Vec<String>, state: &str) -> (res: bool)
    ensures
        res == state_listed(states@, state@),
{
    let normalized = normalize_issue_state(state);
    let mut i: usize = 0;
    while i < states.len()
        invariant
            i <= states@.len(),
            normalized@ == normalize_state(state@),
            forall|j: int|
                0 <= j < i ==> normalize_state(#[trigger] states@[j]@) != normalize_state(state@),
        decreases states@.len() - i,
    {
        let candidate = normalize_issue_state(states[i].as_str());
        if str_eq(candidate.as_str(), normalized.as_str()) {
            return true;
        }
        i = i + 1;
    }
    false
}

pub fn in_set(states: &Vec<String>, state: &str) -> (res: bool)
    ensures
        res == state_in_set(states@, state@),
{
    let normalized = normalize_issue_state(state);
    if normalized.unicode_len() == 0 {
        return false;
    }
    listed(states, state)
}

pub fn is_terminal_state(state_name: &str, tracker: &TrackerConfig) -> (res: bool)
    ensures
        res == state_listed(tracker.terminal_states@, state_name@),
{
    listed(&tracker.terminal_states, state_name)
}

pub fn is_active_state(state_name: &str, tracker: &TrackerConfig) -> (res: bool)
    ensures
        res == state_listed(tracker.active_states@, state_name@),
{
    listed(&tracker.active_states, state_name)
}

/// A multi-turn session goes on only while the issue is still assigned to
/// this worker, active, not terminal, and in the state it was dispatched
/// in: a state change ends the session so the next dispatch gets the new
/// state's prompt.
pub fn should_continue_issue_in_session(
    issue: &Issue,
    tracker: &TrackerConfig,
    dispatched_state: &str,
) -> (res: bool)
    ensures
        res == (issue.assigned_to_worker && state_listed(tracker.active_states@, issue.state@)
            && !state_listed(tracker.terminal_states@, issue.state@) && normalize_state(
            issue.state@,
        ) == normalize_state(dispatched_state@)),
{
    if !issue.assigned_to_worker {
        return false;
    }
    if !is_active_state(issue.state.as_str(), tracker) {
        return false;
    }
    if is_terminal_state(issue.state.as_str(), tracker) {
        return false;
    }
    let a = normalize_issue_state(issue.state.as_str());
    let b = normalize_issue_state(dispatched_state);
    str_eq(a.as_str(), b.as_str())
}

/// Id, identifier, title and state are all present (not blank).
pub open spec fn has_required_fields(issue: Issue) -> bool {
    !is_blank(issue.id@) && !is_blank(issue.identifier@) && !is_blank(issue.title@) && !is_blank(
        issue.state@,
    )
}

pub fn issue_has_required_fields(issue: &Issue) -> (res: bool)
    ensures
        res == has_required_fields(*issue),
{
    !is_blank_str(issue.id.as_str()) && !is_blank_str(issue.identifier.as_str()) && !is_blank_str(
        issue.title.as_str(),
    ) && !is_blank_str(issue.state.as_str())
}

/// Priorities 1 to 4 rank as themselves; anything else ranks last, as 5.
pub open spec fn priority_rank_spec(priority: Option<i32>) -> i32 {
    match priority {
        Some(v) => if 1 <= v <= 4 {
            v
        } else {
            5
        },
        None => 5,
    }
}

pub fn priority_rank(priority: Option<i32>) -> (res: i32)
    ensures
        res == priority_rank_spec(priority),
{
    match priority {
        Some(v) => if 1 <= v && v <= 4 {
            v
        } else {
            5
        },
        None => 5,
    }
}

/// Issues without a creation time sort after all others.
pub open spec fn created_at_key(issue: Issue) -> i64 {
    match issue.created_at_us {
        Some(t) => t,
        None => i64::MAX,
    }
}

pub fn issue_created_at_sort_key(issue: &Issue) -> (res: i64)
    ensures
        res == created_at_key(*issue),
{
    match issue.created_at_us {
        Some(t) => t,
        None => i64::MAX,
    }
}

/// A label as the exclusion check compares it: trimmed, ASCII-lowercased.
pub open spec fn label_key(label: Seq<char>) -> Seq<char> {
    lower_seq(trim_seq(label))
}

/// The issue carries a non-blank label whose key is the key of a non-blank
/// excluded label.
pub open spec fn has_excluded_label(issue: Issue, excluded: Seq<String>) -> bool {
    exists|i: int, j: int|
        0 <= i < issue.labels@.len() && 0 <= j < excluded.len() && label_key(
            #[trigger] issue.labels@[i]@,
        ).len() > 0 && label_key(issue.labels@[i]@) == label_key(#[trigger] excluded[j]@)
}

fn label_excluded(label: &str, excluded: &Vec<String>) -> (res: bool)
    ensures
        res == (label_key(label@).len() > 0 && exists|j: int|
            0 <= j < excluded@.len() && label_key(label@) == label_key(#[trigger] excluded@[j]@)),
{
    let t = trim(label);
    let key = to_ascii_lowercase(t.as_str());
    if key.unicode_len() == 0 {
        return false;
    }
    let mut j: usize = 0;
    while j < excluded.len()
        invariant
            j <= excluded@.len(),
            key@ == label_key(label@),
            key@.len() > 0,
            forall|k: int| 0 <= k < j ==> label_key(label@) != label_key(#[trigger] excluded@[k]@),
        decreases excluded@.len() - j,
    {
        let et = trim(excluded[j].as_str());
        let ek = to_ascii_lowercase(et.as_str());
        if str_eq(ek.as_str(), key.as_str()) {
            assert(label_key(label@) == label_key(excluded@[j as int]@));
            return true;
        }
        j = j + 1;
    }
    false
}

pub fn issue_has_excluded_label(issue: &Issue, tracker: &TrackerConfig) -> (res: bool)
    ensures
        res == has_excluded_label(*issue, tracker.exclude_labels@),
{
    let mut i: usize = 0;
    while i < issue.labels.len()
        invariant
            i <= issue.labels@.len(),
            forall|k: int, j: int|
                0 <= k < i && 0 <= j < tracker.exclude_labels@.len() ==> !(label_key(
                    #[trigger] issue.labels@[k]@,
                ).len() > 0 && label_key(issue.labels@[k]@) == label_key(
                    #[trigger] tracker.exclude_labels@[j]@,
                )),
        decreases issue.labels@.len() - i,
    {
        if label_excluded(issue.labels[i].as_str(), &tracker.exclude_labels) {
            return true;
        }
        i = i + 1;
    }
    false
}

/// The checks that do not depend on slots or claims: required fields,
/// assignment, an active and non-terminal state, no excluded label.
pub open spec fn blocked_check_candidate(issue: Issue, tracker: TrackerConfig) -> bool {
    &&& has_required_fields(issue)
    &&& issue.assigned_to_worker
    &&& !state_in_set(tracker.terminal_states@, issue.state@)
    &&& state_in_set(tracker.active_states@, issue.state@)
    &&& !has_excluded_label(issue, tracker.exclude_labels@)
}

pub fn is_candidate_for_blocked_check(issue: &Issue, tracker: &TrackerConfig) -> (res: bool)
    ensures
        res == blocked_check_candidate(*issue, *tracker),
{
    issue_has_required_fields(issue) && issue.assigned_to_worker && !in_set(
        &tracker.terminal_states,
        issue.state.as_str(),
    ) && in_set(&tracker.active_states, issue.state.as_str()) && !issue_has_excluded_label(
        issue,
        tracker,
    )
}

/// Whether some entry of a list of ids is `id`.
pub open spec fn id_listed(ids: Seq<String>, id: Seq<char>) -> bool {
    exists|i: int| 0 <= i < ids.len() && #[trigger] ids[i]@ == id
}

fn contains_id(ids: &Vec<String>, id: &str) -> (res: bool)
    ensures
        res == id_listed(ids@, id@),
{
    let mut i: usize = 0;
    while i < ids.len()
        invariant
            i <= ids@.len(),
            forall|k: int| 0 <= k < i ==> #[trigger] ids@[k]@ != id@,
        decreases ids@.len() - i,
    {
        if str_eq(ids[i].as_str(), id) {
            return true;
        }
        i = i + 1;
    }
    false
}

/// Free dispatch slots: the configured maximum less the running workers,
/// never below zero.
pub open spec fn available_slots_spec(max_concurrent_agents: u32, running: nat) -> u32 {
    if running >= max_concurrent_agents {
        0
    } else {
        (max_concurrent_agents - running) as u32
    }
}

pub fn available_slots(max_concurrent_agents: u32, running: usize) -> (res: u32)
    ensures
        res == available_slots_spec(max_concurrent_agents, running as nat),
{
    if running >= max_concurrent_agents as usize {
        0
    } else {
        max_concurrent_agents - running as u32
    }
}

/// An issue is dispatched when it passes the candidate checks, is a
/// top-level issue (child tasks run under their parent's worker), is
/// neither claimed nor running, and a slot is free.
pub open spec fn dispatchable(
    issue: Issue,
    tracker: TrackerConfig,
    claimed: Seq<String>,
    running: Seq<String>,
    max_concurrent_agents: u32,
) -> bool {
    &&& blocked_check_candidate(issue, tracker)
    &&& issue.parent_identifier is None
    &&& !id_listed(claimed, issue.id@)
    &&& !id_listed(running, issue.id@)
    &&& available_slots_spec(max_concurrent_agents, running.len()) > 0
}

pub fn should_dispatch_issue(
    issue: &Issue,
    tracker: &TrackerConfig,
    claimed: &Vec<String>,
    running: &Vec<String>,
    max_concurrent_agents: u32,
) -> (res: bool)
    ensures
        res == dispatchable(*issue, *tracker, claimed@, running@, max_concurrent_agents),
{
    if !issue_has_required_fields(issue) || !issue.assigned_to_worker {
        return false;
    }
    if in_set(&tracker.terminal_states, issue.state.as_str()) {
        return false;
    }
    if !in_set(&tracker.active_states, issue.state.as_str()) {
        return false;
    }
    if issue.parent_identifier.is_some() {
        return false;
    }
    if issue_has_excluded_label(issue, tracker) {
        return false;
    }
    if contains_id(claimed, issue.id.as_str()) || contains_id(running, issue.id.as_str()) {
        return false;
    }
    available_slots(max_concurrent_agents, running.len()) > 0
}

/// The identifiers of the blockers that still block: those whose state is
/// known and not terminal (blank states count as not terminal), in order;
/// a blocker without an identifier shows as `unknown`.
pub open spec fn blocking_identifiers_spec(
    blockers: Seq<BlockerRef>,
    terminal_states: Seq<String>,
) -> Seq<Seq<char>>
    decreases blockers.len(),
{
    if blockers.len() == 0 {
        Seq::empty()
    } else {
        let rest = blocking_identifiers_spec(blockers.drop_last(), terminal_states);
        let b = blockers.last();
        match b.state {
            None => rest,
            Some(s) => if state_in_set(terminal_states, s@) {
                rest
            } else {
                rest.push(
                    match b.identifier {
                        Some(id) => id@,
                        None => "unknown"@,
                    },
                )
            },
        }
    }
}

/// Whether the issue waits on a blocker that is not done, and which.
pub fn is_blocked_by_dependency(issue: &Issue, tracker: &TrackerConfig) -> (res: (bool, Vec<String>))
    ensures
        res.1@.map_values(|s: String| s@) == blocking_identifiers_spec(
            issue.blocked_by@,
            tracker.terminal_states@,
        ),
        res.0 == (res.1@.len() > 0),
{
    let blockers = &issue.blocked_by;
    let mut out: Vec<String> = Vec::new();
    let mut i: usize = 0;
    while i < blockers.len()
        invariant
            i <= blockers@.len(),
            out@.map_values(|s: String| s@) == blocking_identifiers_spec(
                blockers@.take(i as int),
                tracker.terminal_states@,
            ),
        decreases blockers@.len() - i,
    {
        proof {
            assert(blockers@.take(i + 1).drop_last() =~= blockers@.take(i as int));
        }
        let b = &blockers[i];
        match &b.state {
            None => {},
            Some(s) => {
                if !in_set(&tracker.terminal_states, s.as_str()) {
                    let id = match &b.identifier {
                        Some(id) => id.clone(),
                        None => "unknown".to_owned(),
                    };
                    let ghost before = out@;
                    out.push(id);
                    assert(out@.map_values(|s: String| s@) =~= before.map_values(|s: String| s@).push(id@));
                }
            },
        }
        i = i + 1;
    }
    assert(blockers@.take(blockers@.len() as int) =~= blockers@);
    let blocked = out.len() > 0;
    (blocked, out)
}

/// How an existing workspace may be reused for a dispatch.
#[derive(Debug, Clone, Copy, PartialEq, Eq, Structural)]
pub enum ExistingWorkspaceRefreshPolicy {
    Strict,
    AllowStale,
}

/// Only a first dispatch of a `todo` issue insists on a fresh workspace.
pub fn workspace_refresh_policy_for_dispatch(issue: &Issue, attempt: Option<u32>) -> (res:
    ExistingWorkspaceRefreshPolicy)
    ensures
        res == (if attempt is None && normalize_state(issue.state@) == "todo"@ {
            ExistingWorkspaceRefreshPolicy::Strict
        } else {
            ExistingWorkspaceRefreshPolicy::AllowStale
        }),
{
    let normalized = normalize_issue_state(issue.state.as_str());
    if attempt.is_none() && str_eq(normalized.as_str(), "todo") {
        ExistingWorkspaceRefreshPolicy::Strict
    } else {
        ExistingWorkspaceRefreshPolicy::AllowStale
    }
}

/// The stall timeout of a backend, clamped to `i64::MAX`.
pub fn backend_stall_timeout_ms(config: &ServiceConfig, backend: AgentBackend) -> (res: i64)
    ensures
        res == ({
            let t = match backend {
                AgentBackend::KataCli => config.pi_agent.stall_timeout_ms,
                AgentBackend::Codex => config.codex.stall_timeout_ms,
            };
            if t > i64::MAX {
                i64::MAX
            } else {
                t as i64
            }
        }),
{
    let t = match backend {
        AgentBackend::KataCli => config.pi_agent.stall_timeout_ms,
        AgentBackend::Codex => config.codex.stall_timeout_ms,
    };
    if t > i64::MAX as u64 {
        i64::MAX
    } else {
        t as i64
    }
}

/// Completion comments are written only for GitHub trackers.
pub fn completion_comments_enabled(tracker: &TrackerConfig) -> (res: bool)
    ensures
        res == (tracker.kind matches Some(k) && eq_ignore_case(k@, "github"@)),
{
    match &tracker.kind {
        Some(k) => eq_ignore_ascii_case(k.as_str(), "github"),
        None => false,
    }
}

/// `str::to_lowercase`: full Unicode lowercasing.
pub uninterp spec fn unicode_lower(s: Seq<char>) -> Seq<char>;

/// `str::to_lowercase` of std. Its result depends on the text alone; the
/// Unicode case tables are not restated here, so the contract only names it.
#[verifier::external_body]
fn to_lowercase(s: &str) -> (res: String)
    ensures
        res@ == unicode_lower(s@),
{
    s.to_lowercase()
}

/// The model override of the first issue label (trimmed, lowercased,
/// blank ones skipped) that has one.
pub open spec fn label_model(labels: Seq<String>, table: Seq<(String, String)>) -> Option<String>
    decreases labels.len(),
{
    if labels.len() == 0 {
        None
    } else {
        let key = unicode_lower(trim_seq(labels[0]@));
        if key.len() > 0 && table_lookup(table, key) is Some {
            table_lookup(table, key)
        } else {
            label_model(labels.drop_first(), table)
        }
    }
}

/// The Pi model for an issue: a label's override first, then the state's
/// override, then the configured default.
pub open spec fn effective_pi_model_spec(config: ServiceConfig, issue: Issue) -> Option<String> {
    match label_model(issue.labels@, config.pi_agent.model_by_label@) {
        Some(m) => Some(m),
        None => model_for_state_spec(config.pi_agent, issue.state@),
    }
}

pub fn effective_pi_model_for_issue(config: &ServiceConfig, issue: &Issue) -> (res: Option<String>)
    ensures
        res == effective_pi_model_spec(*config, *issue),
{
    let labels = &issue.labels;
    let mut i: usize = 0;
    assert(labels@.subrange(0, labels@.len() as int) =~= labels@);
    while i < labels.len()
        invariant
            i <= labels@.len(),
            labels@ == issue.labels@,
            label_model(labels@, config.pi_agent.model_by_label@) == label_model(
                labels@.subrange(i as int, labels@.len() as int),
                config.pi_agent.model_by_label@,
            ),
        decreases labels@.len() - i,
    {
        proof {
            let sub = labels@.subrange(i as int, labels@.len() as int);
            assert(sub[0] == labels@[i as int]);
            assert(sub.drop_first() =~= labels@.subrange(i + 1, labels@.len() as int));
        }
        let t = trim(labels[i].as_str());
        let key = to_lowercase(t.as_str());
        if key.unicode_len() > 0 {
            match lookup_table(&config.pi_agent.model_by_label, key.as_str()) {
                Some(m) => {
                    proof {
                        let sub = labels@.subrange(i as int, labels@.len() as int);
                        assert(sub[0]@ == labels@[i as int]@);
                        assert(label_model(sub, config.pi_agent.model_by_label@) == Some(m));
                    }
                    return Some(m);
                },
                None => {},
            }
        }
        i = i + 1;
    }
    proof {
        assert(labels@.subrange(labels@.len() as int, labels@.len() as int).len() == 0);
    }
    config.pi_agent.model_for_state(issue.state.as_str())
}

/// The note left on an issue moved back from Agent Review because no open
/// pull request matches its workspace branch.
pub open spec fn invalid_agent_review_note_text(
    issue: Issue,
    branch: Option<Seq<char>>,
    reason: Seq<char>,
) -> Seq<char> {
    "## Symphony note\n\nMoved this issue from `Agent Review` back to `In Progress` because Agent Review requires an open PR for the current workspace branch.\n\n- branch: `"@
        + match branch {
        Some(b) => b,
        None => "unknown"@,
    } + "`\n- reason: "@ + reason + "\n\nOpen or restore the PR, then move `"@ + issue.identifier@
        + "` back to `Agent Review`."@
}

pub fn invalid_agent_review_note(issue: &Issue, branch: Option<&str>, reason: &str) -> (res:
    String)
    ensures
        res@ == invalid_agent_review_note_text(
            *issue,
            match branch {
                Some(b) => Some(b@),
                None => None,
            },
            reason@,
        ),
{
    let mut out = "## Symphony note\n\nMoved this issue from `Agent Review` back to `In Progress` because Agent Review requires an open PR for the current workspace branch.\n\n- branch: `".to_owned();
    match branch {
        Some(b) => out.append(b),
        None => out.append("unknown"),
    }
    out.append("`\n- reason: ");
    out.append(reason);
    out.append("\n\nOpen or restore the PR, then move `");
    out.append(issue.identifier.as_str());
    out.append("` back to `Agent Review`.");
    out
}

} // verus!
