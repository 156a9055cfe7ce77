//! One dispatch tick: which candidates show as blocked by their
//! dependencies, and the decision for each candidate in dispatch order.

use vstd::prelude::*;

use crate::orchestrator::issue::{
    available_slots, available_slots_spec, blocked_check_candidate, blocking_identifiers_spec,
    dispatchable, has_excluded_label, has_required_fields, id_listed, is_blocked_by_dependency,
    is_candidate_for_blocked_check, should_dispatch_issue, state_in_set, Issue, TrackerConfig,
};
use crate::text::str_eq;

verus! {

/// A candidate held back by dependencies that are not done.
#[derive(Debug, Clone, PartialEq, Eq)]
pub struct BlockedIssueEntry {
    pub issue_id: String,
    pub identifier: String,
    pub title: String,
    pub state: String,
    pub blocker_identifiers: Vec<String>,
}

/// The candidates shown as blocked: those that pass the candidate checks
/// (slots and claims aside) and have a blocker that is not done, in order.
pub open spec fn blocked_candidates_spec(candidates: Seq<Issue>, tracker: TrackerConfig) -> Seq<
    Issue,
>
    decreases candidates.len(),
{
    if candidates.len() == 0 {
        Seq::empty()
    } else {
        let rest = blocked_candidates_spec(candidates.drop_last(), tracker);
        let c = candidates.last();
        if blocked_check_candidate(c, tracker) && blocking_identifiers_spec(
            c.blocked_by@,
            tracker.terminal_states@,
        ).len() > 0 {
            rest.push(c)
        } else {
            rest
        }
    }
}

/// The entry of each blocked candidate: its id, identifier, title, state and
/// the identifiers of its blockers.
pub open spec fn entry_describes(e: BlockedIssueEntry, c: Issue, tracker: TrackerConfig) -> bool {
    &&& e.issue_id == c.id
    &&& e.identifier == c.identifier
    &&& e.title == c.title
    &&& e.state == c.state
    &&& e.blocker_identifiers@.map_values(|s: String| s@) == blocking_identifiers_spec(
        c.blocked_by@,
        tracker.terminal_states@,
    )
}

pub fn blocked_candidates(candidates: &Vec<Issue>, tracker: &TrackerConfig) -> (res: Vec<
    BlockedIssueEntry,
>)
    ensures
        ({
            let b = blocked_candidates_spec(candidates@, *tracker);
            &&& res@.len() == b.len()
            &&& forall|i: int| 0 <= i < b.len() ==> entry_describes(#[trigger] res@[i], b[i], *tracker)
        }),
{
    let mut out: Vec<BlockedIssueEntry> = Vec::new();
    let mut i: usize = 0;
    while i < candidates.len()
        invariant
            i <= candidates@.len(),
            ({
                let b = blocked_candidates_spec(candidates@.take(i as int), *tracker);
                &&& out@.len() == b.len()
                &&& forall|k: int| 0 <= k < b.len() ==> entry_describes(#[trigger] out@[k], b[k], *tracker)
            }),
        decreases candidates@.len() - i,
    {
        proof {
            assert(candidates@.take(i + 1).drop_last() =~= candidates@.take(i as int));
            assert(candidates@.take(i + 1).last() == candidates@[i as int]);
        }
        let c = &candidates[i];
        if is_candidate_for_blocked_check(c, tracker) {
            let (blocked, ids) = is_blocked_by_dependency(c, tracker);
            if blocked {
                out.push(
                    BlockedIssueEntry {
                        issue_id: c.id.clone(),
                        identifier: c.identifier.clone(),
                        title: c.title.clone(),
                        state: c.state.clone(),
                        blocker_identifiers: ids,
                    },
                );
            }
        }
        i = i + 1;
    }
    assert(candidates@.take(candidates@.len() as int) =~= candidates@);
    out
}

/// What the tick does with the next candidate in dispatch order.
#[derive(Debug, Clone, Copy, PartialEq, Eq, Structural)]
pub enum TickStep {
    /// No slot is free: the tick stops dispatching.
    Stop,
    /// The candidate is not dispatched this tick.
    Skip,
    /// Refresh the candidate from the tracker and check it again.
    Refresh,
}

/// Whether an id is among the blocked entries.
pub open spec fn blocked_id(blocked: Seq<BlockedIssueEntry>, id: Seq<char>) -> bool {
    exists|i: int| 0 <= i < blocked.len() && #[trigger] blocked[i].issue_id@ == id
}

/// The step for a candidate: stop when no slot is free; skip a candidate
/// that may not be dispatched or is blocked; refresh the others.
pub open spec fn tick_step_spec(
    candidate: Issue,
    blocked: Seq<BlockedIssueEntry>,
    tracker: TrackerConfig,
    claimed: Seq<String>,
    running: Seq<String>,
    max_concurrent_agents: u32,
) -> TickStep {
    if available_slots_spec(max_concurrent_agents, running.len()) == 0 {
        TickStep::Stop
    } else if !dispatchable(candidate, tracker, claimed, running, max_concurrent_agents) {
        TickStep::Skip
    } else if blocked_id(blocked, candidate.id@) {
        TickStep::Skip
    } else {
        TickStep::Refresh
    }
}

fn is_blocked_id(blocked: &Vec<BlockedIssueEntry>, id: &str) -> (res: bool)
    ensures
        res == blocked_id(blocked@, id@),
{
    let mut i: usize = 0;
    while i < blocked.len()
        invariant
            i <= blocked@.len(),
            forall|k: int| 0 <= k < i ==> #[trigger] blocked@[k].issue_id@ != id@,
        decreases blocked@.len() - i,
    {
        if str_eq(blocked[i].issue_id.as_str(), id) {
            return true;
        }
        i = i + 1;
    }
    false
}

pub fn tick_step(
    candidate: &Issue,
    blocked: &Vec<BlockedIssueEntry>,
    tracker: &TrackerConfig,
    claimed: &Vec<String>,
    running: &Vec<String>,
    max_concurrent_agents: u32,
) -> (res: TickStep)
    ensures
        res == tick_step_spec(*candidate, blocked@, *tracker, claimed@, running@, max_concurrent_agents),
{
    if available_slots(max_concurrent_agents, running.len()) == 0 {
        TickStep::Stop
    } else if !should_dispatch_issue(candidate, tracker, claimed, running, max_concurrent_agents) {
        TickStep::Skip
    } else if is_blocked_id(blocked, candidate.id.as_str()) {
        TickStep::Skip
    } else {
        TickStep::Refresh
    }
}

/// A candidate shown as blocked is never dispatched in that tick: its step
/// is to stop or to skip it.
pub proof fn lemma_blocked_candidate_is_not_dispatched(
    candidate: Issue,
    blocked: Seq<BlockedIssueEntry>,
    tracker: TrackerConfig,
    claimed: Seq<String>,
    running: Seq<String>,
    max_concurrent_agents: u32,
    k: int,
)
    requires
        0 <= k < blocked.len(),
        blocked[k].issue_id@ == candidate.id@,
    ensures
        tick_step_spec(candidate, blocked, tracker, claimed, running, max_concurrent_agents)
            != TickStep::Refresh,
{
}

/// A claimed or running candidate is never refreshed for dispatch, and no
/// candidate is when every slot is taken.
pub proof fn lemma_no_double_dispatch(
    candidate: Issue,
    blocked: Seq<BlockedIssueEntry>,
    tracker: TrackerConfig,
    claimed: Seq<String>,
    running: Seq<String>,
    max_concurrent_agents: u32,
)
    requires
        id_listed(claimed, candidate.id@) || id_listed(running, candidate.id@) || running.len()
            >= max_concurrent_agents,
    ensures
        tick_step_spec(candidate, blocked, tracker, claimed, running, max_concurrent_agents)
            != TickStep::Refresh,
{
}


/// Every candidate listed as blocked passes the candidate checks (required
/// fields present, assigned to this worker, in an active and not a terminal
/// state, no excluded label), is one of the candidates, and has a blocker
/// that is not done; and every candidate that passes the checks and has
/// such a blocker is listed.
pub proof fn lemma_blocked_entries_are_candidates(candidates: Seq<Issue>, tracker: TrackerConfig)
    ensures
        forall|k: int|
            0 <= k < blocked_candidates_spec(candidates, tracker).len() ==> {
                let c = #[trigger] blocked_candidates_spec(candidates, tracker)[k];
                &&& candidates.contains(c)
                &&& has_required_fields(c)
                &&& c.assigned_to_worker
                &&& state_in_set(tracker.active_states@, c.state@)
                &&& !state_in_set(tracker.terminal_states@, c.state@)
                &&& !has_excluded_label(c, tracker.exclude_labels@)
                &&& blocking_identifiers_spec(c.blocked_by@, tracker.terminal_states@).len() > 0
            },
        forall|c: Issue|
            #[trigger] candidates.contains(c) && has_required_fields(c) && c.assigned_to_worker
                && state_in_set(tracker.active_states@, c.state@) && !state_in_set(
                tracker.terminal_states@,
                c.state@,
            ) && !has_excluded_label(c, tracker.exclude_labels@) && blocking_identifiers_spec(
                c.blocked_by@,
                tracker.terminal_states@,
            ).len() > 0 ==> blocked_candidates_spec(candidates, tracker).contains(c),
    decreases candidates.len(),
{
    if candidates.len() > 0 {
        let rest = candidates.drop_last();
        lemma_blocked_entries_are_candidates(rest, tracker);
        let b = blocked_candidates_spec(candidates, tracker);
        let br = blocked_candidates_spec(rest, tracker);
        assert forall|k: int| 0 <= k < b.len() implies candidates.contains(#[trigger] b[k]) by {
            if k < br.len() {
                assert(b[k] == br[k]);
                let m = choose|m: int| 0 <= m < rest.len() && rest[m] == br[k];
                assert(candidates[m] == rest[m]);
            } else {
                assert(b[k] == candidates.last());
                assert(candidates[candidates.len() - 1] == candidates.last());
            }
        }
        assert forall|k: int| 0 <= k < b.len() implies blocked_check_candidate(#[trigger] b[k], tracker)
            && blocking_identifiers_spec(b[k].blocked_by@, tracker.terminal_states@).len() > 0 by {
            if k < br.len() {
                assert(b[k] == br[k]);
            }
        }
        assert forall|c: Issue|
            #[trigger] candidates.contains(c) && blocked_check_candidate(c, tracker)
                && blocking_identifiers_spec(c.blocked_by@, tracker.terminal_states@).len() > 0
            implies b.contains(c) by {
            let m = choose|m: int| 0 <= m < candidates.len() && candidates[m] == c;
            if m < rest.len() {
                assert(rest[m] == c);
                assert(rest.contains(c));
                let n = choose|n: int| 0 <= n < br.len() && br[n] == c;
                assert(b[n] == c);
            } else {
                assert(c == candidates.last());
                assert(b[b.len() - 1] == c);
            }
        }
    }
}

} // verus!
