//! The turns of one worker session: a session runs turns while its issue
//! stays assigned and in the state it was dispatched in, up to the turn
//! limit, and says at the end whether the work should continue in a new
//! session.

use vstd::prelude::*;

use crate::orchestrator::issue::{
    should_continue_issue_in_session, Issue, TrackerConfig, state_listed,
};
use crate::domain::normalize_state;
use crate::orchestrator::runtime::{accumulate_turn_metrics, TurnMetrics};

verus! {

/// What refreshing the issue between turns found.
#[derive(Debug, Clone, PartialEq, Eq)]
pub enum IssueRefresh {
    /// The tracker returned the issue (or nothing, when it is gone).
    Fetched(Option<Issue>),
    /// The refresh failed; its error text.
    Failed(String),
}

/// The next step of a session's turn loop.
#[derive(Debug, Clone, PartialEq, Eq)]
pub enum TurnLoopStep {
    /// Run the next turn, whose number is given.
    NextTurn(u32),
    /// Refresh the issue before deciding on another turn.
    RefreshIssue,
    /// The session ends; whether to continue the work in a new session.
    Finished { schedule_continuation: bool },
    /// A turn failed; the session ends with its error.
    Failed(String),
}

/// The turn loop of one session.
#[derive(Debug, Clone, PartialEq, Eq)]
pub struct TurnLoop {
    pub turn_number: u32,
    pub max_turns: u32,
    pub metrics: Option<TurnMetrics>,
}

/// Usage reported by a finished turn.
#[derive(Debug, Clone, PartialEq, Eq)]
pub struct TurnUsage {
    pub input_tokens: u64,
    pub output_tokens: u64,
    pub total_tokens: u64,
    pub rate_limits: Option<String>,
}

impl TurnLoop {
    /// A loop at its first turn, allowed `max(max_turns, 1)` turns.
    pub fn new(max_turns: u32) -> (res: Self)
        ensures
            res.turn_number == 1,
            res.max_turns == (if max_turns > 1 {
                max_turns
            } else {
                1
            }),
            res.metrics is None,
    {
        TurnLoop {
            turn_number: 1,
            max_turns: if max_turns > 1 {
                max_turns
            } else {
                1
            },
            metrics: None,
        }
    }

    /// After a turn: a failed turn ends the session; after the last turn the
    /// session ends and the work continues in a new session; otherwise the
    /// issue is refreshed first.
    pub fn after_turn(&mut self, result: Result<TurnUsage, String>) -> (res: TurnLoopStep)
        requires
            1 <= old(self).turn_number <= old(self).max_turns,
        ensures
            final(self).turn_number == old(self).turn_number,
            final(self).max_turns == old(self).max_turns,
            match result {
                Err(e) => res == TurnLoopStep::Failed(e) && final(self).metrics == old(
                    self,
                ).metrics,
                Ok(_) => if old(self).turn_number >= old(self).max_turns {
                    res == TurnLoopStep::Finished { schedule_continuation: true }
                } else {
                    res == TurnLoopStep::RefreshIssue
                },
            },
    {
        match result {
            Err(e) => TurnLoopStep::Failed(e),
            Ok(u) => {
                accumulate_turn_metrics(
                    &mut self.metrics,
                    u.input_tokens,
                    u.output_tokens,
                    u.total_tokens,
                    u.rate_limits,
                );
                if self.turn_number >= self.max_turns {
                    TurnLoopStep::Finished { schedule_continuation: true }
                } else {
                    TurnLoopStep::RefreshIssue
                }
            },
        }
    }

    /// After the refresh: an issue that may go on gets the next turn; an
    /// issue that left its state, was unassigned, finished or disappeared
    /// ends the session without a continuation; a failed refresh ends it
    /// with one.
    pub fn after_refresh(
        &mut self,
        refresh: &IssueRefresh,
        tracker: &TrackerConfig,
        dispatched_state: &str,
    ) -> (res: TurnLoopStep)
        requires
            1 <= old(self).turn_number < old(self).max_turns,
        ensures
            final(self).max_turns == old(self).max_turns,
            final(self).metrics == old(self).metrics,
            1 <= final(self).turn_number <= final(self).max_turns,
            match *refresh {
                IssueRefresh::Fetched(Some(issue)) => if issue.assigned_to_worker && state_listed(
                    tracker.active_states@,
                    issue.state@,
                ) && !state_listed(tracker.terminal_states@, issue.state@) && normalize_state(
                    issue.state@,
                ) == normalize_state(dispatched_state@) {
                    final(self).turn_number == old(self).turn_number + 1 && res
                        == TurnLoopStep::NextTurn(final(self).turn_number)
                } else {
                    res == TurnLoopStep::Finished { schedule_continuation: false }
                },
                IssueRefresh::Fetched(None) => res == TurnLoopStep::Finished {
                    schedule_continuation: false,
                },
                IssueRefresh::Failed(_) => res == TurnLoopStep::Finished {
                    schedule_continuation: true,
                },
            },
    {
        match refresh {
            IssueRefresh::Fetched(Some(issue)) => {
                if should_continue_issue_in_session(issue, tracker, dispatched_state) {
                    self.turn_number = self.turn_number + 1;
                    TurnLoopStep::NextTurn(self.turn_number)
                } else {
                    TurnLoopStep::Finished { schedule_continuation: false }
                }
            },
            IssueRefresh::Fetched(None) => TurnLoopStep::Finished { schedule_continuation: false },
            IssueRefresh::Failed(_) => TurnLoopStep::Finished { schedule_continuation: true },
        }
    }
}

} // verus!
