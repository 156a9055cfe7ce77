//! A running worker's session as the orchestrator tracks it: what each
//! agent event changes, when a silent worker counts as stalled, and what a
//! worker's end leads to.

use vstd::prelude::*;

use crate::domain::{sat_add, saturating_add_u64, usage_sum, usage_zero, StageUsage};
use crate::orchestrator::events::{
    event_session_id, event_time, event_timestamp_ms, extract_tool_activity, opt_view, tool_after,
    AgentEvent, ToolActivity,
};
use crate::orchestrator::rate_limit::{format_rate_limit_error, rate_limit_error_text};
use crate::orchestrator::retry::RetryKind;
use crate::orchestrator::runtime::WorkerCompletion;
use crate::text::{append_signed_decimal, contains_seq, contains_str, signed_decimal};

verus! {

/// What the orchestrator knows of a running worker's session.
#[derive(Debug, Clone, PartialEq, Eq)]
pub struct WorkerSession {
    /// Turns completed.
    pub turn_count: u32,
    /// Tokens of the completed turns.
    pub total_tokens: u64,
    /// The turn in progress, from 1, never past `max_turns`.
    pub turn_number: u32,
    pub max_turns: u32,
    pub stall_timeout_ms: i64,
    pub last_activity_ms: Option<i64>,
    pub session_tokens: StageUsage,
    pub current_tool_name: Option<String>,
    pub current_tool_args_preview: Option<String>,
    /// The last error shown for the session.
    pub last_error: Option<String>,
    pub session_id: Option<String>,
    /// `running`, or `failed` or `cancelled` once a turn says so.
    pub status: String,
    /// The error that failed the run.
    pub error: Option<String>,
}

/// The turn number stays within `1..=max_turns`, and `max_turns` is at
/// least 1.
pub open spec fn session_wf(s: WorkerSession) -> bool {
    1 <= s.max_turns && 1 <= s.turn_number <= s.max_turns
}

impl WorkerSession {
    /// A fresh session: first turn, `max(max_turns, 1)` turns allowed.
    pub fn new(max_turns: u32, stall_timeout_ms: i64, last_activity_ms: Option<i64>) -> (res: Self)
        ensures
            session_wf(res),
            res.turn_count == 0,
            res.total_tokens == 0,
            res.turn_number == 1,
            res.max_turns == (if max_turns > 1 {
                max_turns
            } else {
                1
            }),
            res.stall_timeout_ms == stall_timeout_ms,
            res.last_activity_ms == last_activity_ms,
            res.session_tokens == usage_zero(),
            res.current_tool_name is None,
            res.last_error is None,
            res.session_id is None,
            res.status@ == "running"@,
            res.error is None,
    {
        WorkerSession {
            turn_count: 0,
            total_tokens: 0,
            turn_number: 1,
            max_turns: if max_turns > 1 {
                max_turns
            } else {
                1
            },
            stall_timeout_ms,
            last_activity_ms,
            session_tokens: StageUsage::zero(),
            current_tool_name: None,
            current_tool_args_preview: None,
            last_error: None,
            session_id: None,
            status: "running".to_owned(),
            error: None,
        }
    }

    /// Take in an agent event: it is the latest activity; a session start
    /// names the session; a tool start or end moves the tool in flight; a
    /// failed turn or startup fails the run and shows its error (as the
    /// rate-limit text); a cancelled turn cancels it; an error that ended a
    /// turn is shown without failing the run; a completed turn counts, adds
    /// its tokens, clears the shown error and moves to the next turn, never
    /// past the last.
    pub fn ingest(&mut self, event: &AgentEvent)
        requires
            session_wf(*old(self)),
        ensures
            session_wf(*final(self)),
            final(self).max_turns == old(self).max_turns,
            final(self).stall_timeout_ms == old(self).stall_timeout_ms,
            final(self).last_activity_ms == Some(event_time(*event)),
            opt_view(final(self).session_id) == match *event {
                AgentEvent::SessionStarted { session_id, .. } => Some(session_id@),
                _ => opt_view(old(self).session_id),
            },
            (opt_view(final(self).current_tool_name), opt_view(final(self).current_tool_args_preview))
                == tool_after(
                *event,
                (opt_view(old(self).current_tool_name), opt_view(old(self).current_tool_args_preview)),
            ),
            match *event {
                AgentEvent::TurnFailed { error, .. } | AgentEvent::StartupFailed { error, .. } => {
                    &&& final(self).status@ == "failed"@
                    &&& final(self).error == Some(error)
                    &&& final(self).last_error matches Some(e) && e@ == rate_limit_error_text(
                        error@,
                    )
                },
                AgentEvent::TurnCancelled { .. } => {
                    &&& final(self).status@ == "cancelled"@
                    &&& final(self).error == old(self).error
                    &&& final(self).last_error == old(self).last_error
                },
                AgentEvent::TurnEndedWithError { error, .. } => {
                    &&& final(self).status == old(self).status
                    &&& final(self).error == old(self).error
                    &&& final(self).last_error matches Some(e) && e@ == rate_limit_error_text(
                        error@,
                    )
                },
                AgentEvent::TurnCompleted { .. } => {
                    &&& final(self).status == old(self).status
                    &&& final(self).error == old(self).error
                    &&& final(self).last_error is None
                },
                _ => {
                    &&& final(self).status == old(self).status
                    &&& final(self).error == old(self).error
                    &&& final(self).last_error == old(self).last_error
                },
            },
            match *event {
                AgentEvent::TurnCompleted { input_tokens, output_tokens, total_tokens, .. } => {
                    &&& final(self).turn_count == (if old(self).turn_count == u32::MAX {
                        u32::MAX
                    } else {
                        (old(self).turn_count + 1) as u32
                    })
                    &&& final(self).total_tokens == sat_add(old(self).total_tokens, total_tokens)
                    &&& final(self).session_tokens == usage_sum(
                        old(self).session_tokens,
                        StageUsage { input_tokens, output_tokens, total_tokens },
                    )
                    &&& final(self).turn_number == (if old(self).turn_number
                        < old(self).max_turns {
                        (old(self).turn_number + 1) as u32
                    } else {
                        old(self).max_turns
                    })
                },
                _ => {
                    &&& final(self).turn_count == old(self).turn_count
                    &&& final(self).total_tokens == old(self).total_tokens
                    &&& final(self).session_tokens == old(self).session_tokens
                    &&& final(self).turn_number == old(self).turn_number
                },
            },
    {
        self.last_activity_ms = Some(event_timestamp_ms(event));
        match event_session_id(event) {
            Some(id) => {
                self.session_id = Some(id.to_owned());
            },
            None => {},
        }
        match extract_tool_activity(event) {
            ToolActivity::Started { name, args_preview } => {
                self.current_tool_name = Some(name);
                self.current_tool_args_preview = args_preview;
            },
            ToolActivity::Ended => {
                self.current_tool_name = None;
                self.current_tool_args_preview = None;
            },
            ToolActivity::Idle => {},
        }
        match event {
            AgentEvent::TurnFailed { error, .. } | AgentEvent::StartupFailed { error, .. } => {
                self.status = "failed".to_owned();
                self.error = Some(error.clone());
                self.last_error = Some(format_rate_limit_error(error.as_str()));
            },
            AgentEvent::TurnCancelled { .. } => {
                self.status = "cancelled".to_owned();
            },
            AgentEvent::TurnEndedWithError { error, .. } => {
                self.last_error = Some(format_rate_limit_error(error.as_str()));
            },
            AgentEvent::TurnCompleted { input_tokens, output_tokens, total_tokens, .. } => {
                self.turn_count = if self.turn_count == u32::MAX {
                    u32::MAX
                } else {
                    self.turn_count + 1
                };
                self.total_tokens = saturating_add_u64(self.total_tokens, *total_tokens);
                self.session_tokens = self.session_tokens.plus(
                    StageUsage {
                        input_tokens: *input_tokens,
                        output_tokens: *output_tokens,
                        total_tokens: *total_tokens,
                    },
                );
                self.last_error = None;
                if self.turn_number < self.max_turns {
                    self.turn_number = self.turn_number + 1;
                }
            },
            _ => {},
        }
    }
}

/// A worker is stalled when its stall timeout (the session's, when it has
/// a positive one, else the default) is positive and more time than that
/// has passed since its last activity (or its start, when it has shown
/// none); the result is the time passed.
pub open spec fn stall_spec(
    now_ms: i64,
    last_activity_ms: Option<i64>,
    started_at_ms: i64,
    session_timeout_ms: Option<i64>,
    default_timeout_ms: i64,
) -> Option<i64> {
    let timeout = match session_timeout_ms {
        Some(t) => if t > 0 {
            t
        } else {
            default_timeout_ms
        },
        None => default_timeout_ms,
    };
    let last = match last_activity_ms {
        Some(l) => l,
        None => started_at_ms,
    };
    let elapsed: int = if now_ms - last < i64::MIN {
        i64::MIN as int
    } else if now_ms - last > i64::MAX {
        i64::MAX as int
    } else {
        now_ms - last
    };
    if timeout <= 0 || elapsed <= timeout {
        None
    } else {
        Some(elapsed as i64)
    }
}

pub fn stalled_for(
    now_ms: i64,
    last_activity_ms: Option<i64>,
    started_at_ms: i64,
    session_timeout_ms: Option<i64>,
    default_timeout_ms: i64,
) -> (res: Option<i64>)
    ensures
        res == stall_spec(
            now_ms,
            last_activity_ms,
            started_at_ms,
            session_timeout_ms,
            default_timeout_ms,
        ),
{
    let timeout = match session_timeout_ms {
        Some(t) => if t > 0 {
            t
        } else {
            default_timeout_ms
        },
        None => default_timeout_ms,
    };
    if timeout <= 0 {
        return None;
    }
    let last = match last_activity_ms {
        Some(l) => l,
        None => started_at_ms,
    };
    let elapsed: i64 = if last < 0 && now_ms > i64::MAX + last {
        i64::MAX
    } else if last > 0 && now_ms < i64::MIN + last {
        i64::MIN
    } else {
        now_ms - last
    };
    if elapsed <= timeout {
        None
    } else {
        Some(elapsed)
    }
}

/// The marker that tells a stall apart from other failures.
pub const STALL_FAILURE_MARKER: &'static str = "without agent activity";

/// The failure a stalled worker ends with.
pub fn stall_failure_message(elapsed_ms: i64) -> (res: String)
    ensures
        res@ == "stalled for "@ + signed_decimal(elapsed_ms as int) + "ms "@
            + STALL_FAILURE_MARKER@,
{
    let mut m = "stalled for ".to_owned();
    append_signed_decimal(&mut m, elapsed_ms);
    m.append("ms ");
    m.append(STALL_FAILURE_MARKER);
    m
}

/// What a worker's end leads to.
#[derive(Debug, Clone, PartialEq, Eq)]
pub enum CompletionPlan {
    /// The work goes on in a new session: a continuation retry, attempt 1.
    Continue,
    /// The issue is done for now: it is recorded as completed and any
    /// scheduled retry is dropped.
    Finish,
    /// The attempt failed: a failure retry with this attempt; `notify`
    /// unless the failure was a stall.
    Retry { attempt: u32, notify: bool },
}

/// A completed worker continues or finishes as it asked; a failed one is
/// retried with the attempt after its own (at least 1), and is announced
/// unless it stalled.
pub open spec fn completion_plan_spec(completion: WorkerCompletion, prior_attempt: Option<u32>) -> CompletionPlan {
    match completion {
        WorkerCompletion::Completed { schedule_continuation } => if schedule_continuation {
            CompletionPlan::Continue
        } else {
            CompletionPlan::Finish
        },
        WorkerCompletion::Failed { error } => {
            let prior: int = match prior_attempt {
                Some(a) => a as int,
                None => 0,
            };
            let next: int = if prior == u32::MAX {
                u32::MAX as int
            } else {
                prior + 1
            };
            CompletionPlan::Retry {
                attempt: next as u32,
                notify: !contains_seq(error@, STALL_FAILURE_MARKER@),
            }
        },
    }
}

pub fn completion_plan(completion: &WorkerCompletion, prior_attempt: Option<u32>) -> (res: CompletionPlan)
    ensures
        res == completion_plan_spec(*completion, prior_attempt),
        res matches CompletionPlan::Retry { attempt, .. } ==> attempt >= 1,
{
    match completion {
        WorkerCompletion::Completed { schedule_continuation } => {
            if *schedule_continuation {
                CompletionPlan::Continue
            } else {
                CompletionPlan::Finish
            }
        },
        WorkerCompletion::Failed { error } => {
            let prior: u32 = match prior_attempt {
                Some(a) => a,
                None => 0,
            };
            let next: u32 = if prior == u32::MAX {
                u32::MAX
            } else {
                prior + 1
            };
            CompletionPlan::Retry {
                attempt: next,
                notify: !contains_str(error.as_str(), STALL_FAILURE_MARKER),
            }
        },
    }
}

/// The retry a plan schedules, if any: its kind and attempt.
pub open spec fn plan_retry(plan: CompletionPlan) -> Option<(RetryKind, u32)> {
    match plan {
        CompletionPlan::Continue => Some((RetryKind::Continuation, 1)),
        CompletionPlan::Finish => None,
        CompletionPlan::Retry { attempt, .. } => Some((RetryKind::Failure, attempt)),
    }
}

/// A stalled worker is retried as a failure without an announcement, and
/// every failed worker is retried with a later attempt than its own.
pub proof fn lemma_stall_retries_quietly(elapsed_ms: i64, prior_attempt: Option<u32>, error: String)
    requires
        error@ == "stalled for "@ + signed_decimal(elapsed_ms as int) + "ms "@
            + STALL_FAILURE_MARKER@,
    ensures
        completion_plan_spec(WorkerCompletion::Failed { error }, prior_attempt) matches CompletionPlan::Retry {
            attempt,
            notify,
        } && !notify && (prior_attempt is Some && prior_attempt.unwrap() < u32::MAX ==> attempt
            > prior_attempt.unwrap()),
{
    let prefix = "stalled for "@ + signed_decimal(elapsed_ms as int) + "ms "@;
    assert(error@.subrange(prefix.len() as int, error@.len() as int) =~= STALL_FAILURE_MARKER@);
    assert(crate::text::occurs_at(error@, STALL_FAILURE_MARKER@, prefix.len() as int));
}

} // verus!
