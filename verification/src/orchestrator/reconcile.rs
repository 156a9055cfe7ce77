//! Reconciling running workers with the tracker: what becomes of each
//! running issue the tracker returns, the notice a state change sends, and
//! the running issues the tracker no longer returns.

use vstd::prelude::*;

use crate::domain::{normalize_issue_state, normalize_state};
use crate::orchestrator::issue::{id_listed, in_set, state_in_set, Issue, TrackerConfig};
use crate::text::{push_char, str_eq};

verus! {

/// What reconciliation does with a running issue.
#[derive(Debug, Clone, Copy, PartialEq, Eq, Structural)]
pub enum ReconcileAction {
    /// The issue reached a terminal state: its completion is recorded and
    /// its worker stopped.
    Complete,
    /// The issue left the active states or this worker: its worker is
    /// released.
    Release,
    /// The worker goes on; the issue's state is recorded.
    Keep,
}

pub open spec fn reconcile_action_spec(issue: Issue, tracker: TrackerConfig) -> ReconcileAction {
    if state_in_set(tracker.terminal_states@, issue.state@) {
        ReconcileAction::Complete
    } else if !issue.assigned_to_worker || !state_in_set(tracker.active_states@, issue.state@) {
        ReconcileAction::Release
    } else {
        ReconcileAction::Keep
    }
}

/// A terminal issue completes; one no longer assigned to this worker or not
/// active is released; the others keep their worker.
pub fn reconcile_action(issue: &Issue, tracker: &TrackerConfig) -> (res: ReconcileAction)
    ensures
        res == reconcile_action_spec(*issue, *tracker),
{
    if in_set(&tracker.terminal_states, issue.state.as_str()) {
        ReconcileAction::Complete
    } else if !issue.assigned_to_worker || !in_set(&tracker.active_states, issue.state.as_str()) {
        ReconcileAction::Release
    } else {
        ReconcileAction::Keep
    }
}

/// The notice sent when a running issue's state changed.
#[derive(Debug, Clone, PartialEq, Eq)]
pub struct StateChangeNotice {
    pub event_type: String,
    pub message: String,
}

/// Spaces turned into underscores.
pub open spec fn underscored(s: Seq<char>) -> Seq<char> {
    Seq::new(s.len(), |i: int| if s[i] == ' ' { '_' } else { s[i] })
}

/// A notice is due when the state differs from the one recorded before,
/// compared normalized: its type is the new state normalized with spaces
/// as underscores; its message names both states as they were written.
pub open spec fn state_change_notice_ok(
    issue: Issue,
    previous_state: Option<Seq<char>>,
    res: Option<StateChangeNotice>,
) -> bool {
    match previous_state {
        None => res is None,
        Some(p) => if normalize_state(p) == normalize_state(issue.state@) {
            res is None
        } else {
            res matches Some(n) && n.event_type@ == underscored(normalize_state(issue.state@))
                && n.message@ == "Moved to "@ + issue.state@ + " (was "@ + p + ")."@
        },
    }
}

fn underscore_spaces(s: &str) -> (res: String)
    ensures
        res@ == underscored(s@),
{
    let n: usize = s.unicode_len();
    let mut out = String::new();
    let mut i: usize = 0;
    while i < n
        invariant
            n == s@.len(),
            i <= n,
            out@ =~= underscored(s@).subrange(0, i as int),
        decreases n - i,
    {
        let c = s.get_char(i);
        if c == ' ' {
            push_char(&mut out, '_');
        } else {
            push_char(&mut out, c);
        }
        i = i + 1;
    }
    proof {
        assert(underscored(s@).subrange(0, n as int) =~= underscored(s@));
    }
    out
}

pub fn state_change_notice(issue: &Issue, previous_state: Option<&str>) -> (res: Option<
    StateChangeNotice,
>)
    ensures
        state_change_notice_ok(
            *issue,
            match previous_state {
                Some(p) => Some(p@),
                None => None,
            },
            res,
        ),
{
    let prev = match previous_state {
        Some(p) => p,
        None => {
            return None;
        },
    };
    let now = normalize_issue_state(issue.state.as_str());
    let before = normalize_issue_state(prev);
    if str_eq(now.as_str(), before.as_str()) {
        return None;
    }
    let event_type = underscore_spaces(now.as_str());
    let mut message = "Moved to ".to_owned();
    message.append(issue.state.as_str());
    message.append(" (was ");
    message.append(prev);
    message.append(").");
    Some(StateChangeNotice { event_type, message })
}

/// What becomes of a terminal issue's workspace.
#[derive(Debug, Clone, PartialEq, Eq)]
pub enum TerminalCleanup {
    /// Nothing is removed: cleanup is off, or no workspace is known.
    Keep,
    /// A worker still has a session on it: it is removed when the worker
    /// completes.
    Defer(String),
    /// It is removed now.
    Remove(String),
}

/// With cleanup on, the workspace is the running attempt's, else the
/// retry's, else the hint; it is removed at once unless a session is still
/// active on it.
pub open spec fn terminal_cleanup_ok(
    cleanup_on_done: bool,
    running_path: Option<Seq<char>>,
    retry_path: Option<Seq<char>>,
    hint: Option<Seq<char>>,
    session_active: bool,
    res: TerminalCleanup,
) -> bool {
    let path = if running_path is Some {
        running_path
    } else if retry_path is Some {
        retry_path
    } else {
        hint
    };
    if !cleanup_on_done || path is None {
        res == TerminalCleanup::Keep
    } else if session_active {
        res matches TerminalCleanup::Defer(p) && p@ == path.unwrap()
    } else {
        res matches TerminalCleanup::Remove(p) && p@ == path.unwrap()
    }
}

pub open spec fn opt_text(o: Option<&str>) -> Option<Seq<char>> {
    match o {
        Some(s) => Some(s@),
        None => None,
    }
}

pub fn terminal_cleanup_plan(
    cleanup_on_done: bool,
    running_path: Option<&str>,
    retry_path: Option<&str>,
    hint: Option<&str>,
    session_active: bool,
) -> (res: TerminalCleanup)
    ensures
        terminal_cleanup_ok(
            cleanup_on_done,
            opt_text(running_path),
            opt_text(retry_path),
            opt_text(hint),
            session_active,
            res,
        ),
{
    if !cleanup_on_done {
        return TerminalCleanup::Keep;
    }
    let path: &str = match running_path {
        Some(p) => p,
        None => match retry_path {
            Some(p) => p,
            None => match hint {
                Some(p) => p,
                None => {
                    return TerminalCleanup::Keep;
                },
            },
        },
    };
    if session_active {
        TerminalCleanup::Defer(path.to_owned())
    } else {
        TerminalCleanup::Remove(path.to_owned())
    }
}

/// The running ids the tracker did not return, in order.
pub open spec fn missing_ids_spec(running: Seq<String>, visible: Seq<String>) -> Seq<Seq<char>>
    decreases running.len(),
{
    if running.len() == 0 {
        Seq::empty()
    } else {
        let rest = missing_ids_spec(running.drop_last(), visible);
        if id_listed(visible, running.last()@) {
            rest
        } else {
            rest.push(running.last()@)
        }
    }
}

fn listed_id(ids: &Vec<String>, id: &str) -> (res: bool)
    ensures
        res == id_listed(ids@, id@),
{
    let mut i: usize = 0;
    while i < ids.len()
        invariant
            i <= ids@.len(),
            forall|k: int| 0 <= k < i ==> #[trigger] ids@[k]@ != id@,
        decreases ids@.len() - i,
    {
        if str_eq(ids[i].as_str(), id) {
            return true;
        }
        i = i + 1;
    }
    false
}

/// The running issues the tracker no longer returns: each is released.
pub fn missing_running_ids(running_ids: &Vec<String>, visible_ids: &Vec<String>) -> (res: Vec<
    String,
>)
    ensures
        res@.map_values(|s: String| s@) == missing_ids_spec(running_ids@, visible_ids@),
{
    let mut out: Vec<String> = Vec::new();
    let mut i: usize = 0;
    while i < running_ids.len()
        invariant
            i <= running_ids@.len(),
            out@.map_values(|s: String| s@) == missing_ids_spec(
                running_ids@.take(i as int),
                visible_ids@,
            ),
        decreases running_ids@.len() - i,
    {
        proof {
            assert(running_ids@.take(i + 1).drop_last() =~= running_ids@.take(i as int));
            assert(running_ids@.take(i + 1).last() == running_ids@[i as int]);
        }
        if !listed_id(visible_ids, running_ids[i].as_str()) {
            let ghost before = out@.map_values(|s: String| s@);
            out.push(running_ids[i].clone());
            proof {
                assert(out@.map_values(|s: String| s@) =~= before.push(running_ids@[i as int]@));
            }
        }
        i = i + 1;
    }
    proof {
        assert(running_ids@.take(running_ids@.len() as int) =~= running_ids@);
    }
    out
}

/// The ids released for not being returned are exactly the running ids the
/// tracker did not return.
pub proof fn lemma_missing_ids_are_exactly_the_unreturned(
    running: Seq<String>,
    visible: Seq<String>,
    id: Seq<char>,
)
    ensures
        missing_ids_spec(running, visible).contains(id) <==> (id_listed(running, id) && !id_listed(
            visible,
            id,
        )),
    decreases running.len(),
{
    if running.len() > 0 {
        let rest = running.drop_last();
        lemma_missing_ids_are_exactly_the_unreturned(rest, visible, id);
        if id_listed(running, id) {
            let k = choose|k: int| 0 <= k < running.len() && #[trigger] running[k]@ == id;
            if k < running.len() - 1 {
                assert(rest[k]@ == id);
            }
        }
        if id_listed(rest, id) {
            let k = choose|k: int| 0 <= k < rest.len() && #[trigger] rest[k]@ == id;
            assert(running[k]@ == id);
        }
        if !id_listed(visible, running.last()@) {
            let m = missing_ids_spec(rest, visible);
            assert(m.push(running.last()@)[m.len() as int] == running.last()@);
            if m.push(running.last()@).contains(id) && !m.contains(id) {
                let j = choose|j: int| 0 <= j < m.len() + 1 && m.push(running.last()@)[j] == id;
                if j < m.len() {
                    assert(m[j] == id);
                }
            }
            if m.contains(id) {
                let j = choose|j: int| 0 <= j < m.len() && m[j] == id;
                assert(m.push(running.last()@)[j] == id);
            }
        }
    }
}

} // verus!
