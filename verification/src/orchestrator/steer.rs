//! Steering a running worker: an operator's instruction is normalized,
//! matched to the running issue it names, handed to that worker's session,
//! and answered with a result and an event.

use vstd::prelude::*;

use crate::orchestrator::events::{truncate_for_display, truncate_spec};
use crate::orchestrator::runtime::{RuntimeEvent, SteerResult};
use crate::text::{
    eq_ignore_ascii_case, eq_ignore_case, to_ascii_uppercase, trim, trim_seq, upper_seq,
};

verus! {

/// How many characters of an instruction the received event shows.
pub const STEER_PREVIEW_MAX_CHARS: usize = 100;

/// A steering request as the orchestrator handles it: the issue identifier
/// trimmed and upper-cased, the instruction trimmed, and its preview.
#[derive(Debug, Clone, PartialEq, Eq)]
pub struct SteerRequest {
    pub issue_identifier: String,
    pub instruction: String,
    pub instruction_preview: String,
}

pub open spec fn steer_request_matches(r: SteerRequest, issue_identifier: Seq<char>, instruction: Seq<char>) -> bool {
    &&& r.issue_identifier@ == upper_seq(trim_seq(issue_identifier))
    &&& r.instruction@ == trim_seq(instruction)
    &&& r.instruction_preview@ == truncate_spec(trim_seq(instruction), STEER_PREVIEW_MAX_CHARS as nat)
}

pub fn normalize_steer_request(issue_identifier: &str, instruction: &str) -> (res: SteerRequest)
    ensures
        steer_request_matches(res, issue_identifier@, instruction@),
{
    let id = trim(issue_identifier);
    let upper = to_ascii_uppercase(id.as_str());
    let text = trim(instruction);
    let preview = truncate_for_display(text.as_str(), STEER_PREVIEW_MAX_CHARS);
    SteerRequest { issue_identifier: upper, instruction: text, instruction_preview: preview }
}

/// The event that records a received request.
pub fn steer_received_event(request: &SteerRequest) -> (res: RuntimeEvent)
    ensures
        res matches RuntimeEvent::SteerReceived { issue_identifier, instruction_preview }
            && issue_identifier@ == request.issue_identifier@ && instruction_preview@
            == request.instruction_preview@,
{
    RuntimeEvent::SteerReceived {
        issue_identifier: request.issue_identifier.clone(),
        instruction_preview: request.instruction_preview.clone(),
    }
}

/// A running worker a request may be meant for: its issue, and whether it
/// has a session and a channel to send instructions on.
#[derive(Debug, Clone, PartialEq, Eq)]
pub struct SteerTarget {
    pub issue_id: String,
    pub issue_identifier: String,
    pub has_session: bool,
    pub has_channel: bool,
}

/// What to do with a request: answer it at once, or send the instruction
/// to the worker of this issue.
#[derive(Debug, Clone, PartialEq, Eq)]
pub enum SteerDecision {
    Reply(SteerResult),
    Send { issue_id: String, issue_identifier: String },
}

/// The first running worker whose identifier matches, ignoring ASCII case.
pub open spec fn first_target(targets: Seq<SteerTarget>, identifier: Seq<char>) -> Option<SteerTarget>
    decreases targets.len(),
{
    if targets.len() == 0 {
        None
    } else if eq_ignore_case(targets[0].issue_identifier@, identifier) {
        Some(targets[0])
    } else {
        first_target(targets.drop_first(), identifier)
    }
}

/// An empty instruction fails; a request for no running issue, or for a
/// worker without a session or a channel, is answered as such; otherwise
/// the instruction goes to the matching worker, under its own identifier.
pub open spec fn steer_decision_ok(request: SteerRequest, targets: Seq<SteerTarget>, d: SteerDecision) -> bool {
    if request.instruction@.len() == 0 {
        d matches SteerDecision::Reply(SteerResult::DeliveryFailed { message }) && message@
            == "instruction_empty"@
    } else {
        match first_target(targets, request.issue_identifier@) {
            None => d == SteerDecision::Reply(SteerResult::IssueNotRunning),
            Some(t) => if !t.has_session || !t.has_channel {
                d == SteerDecision::Reply(SteerResult::NoActiveSession)
            } else {
                d matches SteerDecision::Send { issue_id, issue_identifier } && issue_id@
                    == t.issue_id@ && issue_identifier@ == t.issue_identifier@
            },
        }
    }
}

pub fn decide_steer(request: &SteerRequest, targets: &Vec<SteerTarget>) -> (res: SteerDecision)
    ensures
        steer_decision_ok(*request, targets@, res),
{
    proof {
        reveal_strlit("instruction_empty");
    }
    if request.instruction.unicode_len() == 0 {
        return SteerDecision::Reply(
            SteerResult::DeliveryFailed { message: "instruction_empty".to_owned() },
        );
    }
    let mut i: usize = 0;
    proof {
        assert(targets@.subrange(0, targets@.len() as int) =~= targets@);
    }
    while i < targets.len()
        invariant
            i <= targets@.len(),
            request.instruction@.len() > 0,
            first_target(targets@, request.issue_identifier@) == first_target(
                targets@.subrange(i as int, targets@.len() as int),
                request.issue_identifier@,
            ),
        decreases targets@.len() - i,
    {
        proof {
            let rest = targets@.subrange(i as int, targets@.len() as int);
            assert(rest[0] == targets@[i as int]);
            assert(rest.drop_first() =~= targets@.subrange(i + 1, targets@.len() as int));
        }
        let t = &targets[i];
        if eq_ignore_ascii_case(t.issue_identifier.as_str(), request.issue_identifier.as_str()) {
            if !t.has_session || !t.has_channel {
                return SteerDecision::Reply(SteerResult::NoActiveSession);
            }
            return SteerDecision::Send {
                issue_id: t.issue_id.clone(),
                issue_identifier: t.issue_identifier.clone(),
            };
        }
        i = i + 1;
    }
    SteerDecision::Reply(SteerResult::IssueNotRunning)
}

/// How handing an instruction to a worker went.
#[derive(Debug, Clone, PartialEq, Eq)]
pub enum SteerDelivery {
    /// The worker's channel was closed; it is forgotten.
    ChannelClosed,
    /// The worker took the instruction.
    Accepted,
    /// The worker refused it, with this error.
    Refused(String),
    /// The worker dropped the reply.
    ResponseDropped,
    /// No reply came in time.
    TimedOut,
}

/// A closed channel means no session; an accepted instruction is
/// delivered; a refusal carries its error; a dropped reply or a timeout
/// fails with its own reason.
pub open spec fn steer_delivery_result_ok(
    issue_id: Seq<char>,
    issue_identifier: Seq<char>,
    delivery: SteerDelivery,
    r: SteerResult,
) -> bool {
    match delivery {
        SteerDelivery::ChannelClosed => r == SteerResult::NoActiveSession,
        SteerDelivery::Accepted => r matches SteerResult::Delivered { issue_id: i, issue_identifier: n }
            && i@ == issue_id && n@ == issue_identifier,
        SteerDelivery::Refused(e) => r matches SteerResult::DeliveryFailed { message } && message@
            == e@,
        SteerDelivery::ResponseDropped => r matches SteerResult::DeliveryFailed { message }
            && message@ == "worker_follow_up_response_dropped"@,
        SteerDelivery::TimedOut => r matches SteerResult::DeliveryFailed { message } && message@
            == "worker_follow_up_timeout"@,
    }
}

/// The result of a sent instruction.
pub fn steer_delivery_result(issue_id: String, issue_identifier: String, delivery: SteerDelivery) -> (res:
    SteerResult)
    ensures
        steer_delivery_result_ok(issue_id@, issue_identifier@, delivery, res),
{
    match delivery {
        SteerDelivery::ChannelClosed => SteerResult::NoActiveSession,
        SteerDelivery::Accepted => SteerResult::Delivered { issue_id, issue_identifier },
        SteerDelivery::Refused(e) => SteerResult::DeliveryFailed { message: e },
        SteerDelivery::ResponseDropped => SteerResult::DeliveryFailed {
            message: "worker_follow_up_response_dropped".to_owned(),
        },
        SteerDelivery::TimedOut => SteerResult::DeliveryFailed {
            message: "worker_follow_up_timeout".to_owned(),
        },
    }
}

/// The event a result is recorded with: a delivery under the worker's
/// issue, a failure under the requested identifier with its reason.
pub open spec fn steer_result_event_ok(requested: Seq<char>, result: SteerResult, e: RuntimeEvent) -> bool {
    match result {
        SteerResult::Delivered { issue_id, issue_identifier } => e matches RuntimeEvent::SteerDelivered {
            issue_id: i,
            issue_identifier: n,
        } && i@ == issue_id@ && n@ == issue_identifier@,
        SteerResult::IssueNotRunning => e matches RuntimeEvent::SteerFailed { issue_identifier, error }
            && issue_identifier@ == requested && error@ == "issue_not_running"@,
        SteerResult::NoActiveSession => e matches RuntimeEvent::SteerFailed { issue_identifier, error }
            && issue_identifier@ == requested && error@ == "no_active_session"@,
        SteerResult::DeliveryFailed { message } => e matches RuntimeEvent::SteerFailed {
            issue_identifier,
            error,
        } && issue_identifier@ == requested && error@ == message@,
    }
}

pub fn steer_result_event(requested_identifier: &str, result: &SteerResult) -> (res: RuntimeEvent)
    ensures
        steer_result_event_ok(requested_identifier@, *result, res),
{
    match result {
        SteerResult::Delivered { issue_id, issue_identifier } => RuntimeEvent::SteerDelivered {
            issue_id: issue_id.clone(),
            issue_identifier: issue_identifier.clone(),
        },
        SteerResult::IssueNotRunning => RuntimeEvent::SteerFailed {
            issue_identifier: requested_identifier.to_owned(),
            error: "issue_not_running".to_owned(),
        },
        SteerResult::NoActiveSession => RuntimeEvent::SteerFailed {
            issue_identifier: requested_identifier.to_owned(),
            error: "no_active_session".to_owned(),
        },
        SteerResult::DeliveryFailed { message } => RuntimeEvent::SteerFailed {
            issue_identifier: requested_identifier.to_owned(),
            error: message.clone(),
        },
    }
}

} // verus!
