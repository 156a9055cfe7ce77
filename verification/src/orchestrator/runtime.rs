//! What the orchestrator loop exchanges: runtime events, steering results,
//! dispatched issues, worker completions and turn metrics, the completion
//! comment, and the port to the tracker.

use vstd::prelude::*;

use std::path::Path;

use crate::domain::{sat_add, saturating_add_u64, SymphonyError};
use crate::orchestrator::events::{truncate_for_display, truncate_spec, EventKind, EventSeverity};
use crate::orchestrator::issue::{ExistingWorkspaceRefreshPolicy, Issue};
use crate::json::{
    json_i64, json_opt_string, json_string, json_text, json_u64, opt_quoted, push_entry, quoted,
    JsonValue,
};
use crate::orchestrator::retry::RetryKind;
use crate::text::{append_decimal, decimal, signed_decimal};

verus! {

/// What a steering request came to.
#[derive(Debug, Clone, PartialEq, Eq)]
pub enum SteerResult {
    Delivered { issue_id: String, issue_identifier: String },
    IssueNotRunning,
    NoActiveSession,
    DeliveryFailed { message: String },
}

/// The events the orchestrator records about itself.
#[derive(Debug, Clone, PartialEq, Eq)]
pub enum RuntimeEvent {
    StartupCleanup,
    Reconcile,
    Validate,
    Dispatch,
    ValidationSkippedDispatch,
    RetryScheduled {
        issue_id: String,
        attempt: u32,
        due_at_ms: i64,
        token: String,
        retry_kind: RetryKind,
    },
    RetryIgnoredStale { issue_id: String, token: String },
    WorkerCompleted { issue_id: String, issue_identifier: String, session_id: Option<String> },
    WorkerFailed {
        issue_id: String,
        issue_identifier: String,
        session_id: Option<String>,
        error: String,
    },
    WorkspacePrepareFailed { issue_id: String, issue_identifier: String, error: String },
    WorkerStalled {
        issue_id: String,
        issue_identifier: String,
        session_id: Option<String>,
        elapsed_ms: i64,
    },
    SteerReceived { issue_identifier: String, instruction_preview: String },
    SteerDelivered { issue_id: String, issue_identifier: String },
    SteerFailed { issue_identifier: String, error: String },
    /// A refresh request will trigger an immediate tick.
    RefreshRequested,
    /// A refresh request joined one already pending.
    RefreshCoalesced,
}

/// An issue handed to a worker.
#[derive(Debug, Clone)]
pub struct DispatchedIssue {
    pub issue: Issue,
    pub attempt: Option<u32>,
    pub worker_host: Option<String>,
    pub workspace_refresh_policy: ExistingWorkspaceRefreshPolicy,
    pub workspace_status_context: Option<String>,
}

/// What one tick did.
#[derive(Debug, Clone)]
pub struct TickResult {
    pub dispatched_issue_ids: Vec<String>,
    pub dispatched_issues: Vec<DispatchedIssue>,
    pub dispatch_skipped: bool,
}

/// How a worker ended.
#[derive(Debug, Clone, PartialEq, Eq)]
pub enum WorkerCompletion {
    Completed { schedule_continuation: bool },
    Failed { error: String },
}

/// Token usage of the turns of a session; `rate_limits` is the JSON text of
/// the latest rate-limit report.
#[derive(Debug, Clone, PartialEq, Eq)]
pub struct TurnMetrics {
    pub input_tokens: u64,
    pub output_tokens: u64,
    pub total_tokens: u64,
    pub rate_limits: Option<String>,
}

/// Add a turn's usage: the counters add up, saturating, and a new
/// rate-limit report replaces the previous one; the first turn starts the
/// metrics.
pub fn accumulate_turn_metrics(
    metrics: &mut Option<TurnMetrics>,
    input_tokens: u64,
    output_tokens: u64,
    total_tokens: u64,
    rate_limits: Option<String>,
)
    ensures
        match *old(metrics) {
            None => *final(metrics) == Some(
                TurnMetrics { input_tokens, output_tokens, total_tokens, rate_limits },
            ),
            Some(m) => *final(metrics) matches Some(n) && n.input_tokens == sat_add(
                m.input_tokens,
                input_tokens,
            ) && n.output_tokens == sat_add(m.output_tokens, output_tokens) && n.total_tokens
                == sat_add(m.total_tokens, total_tokens) && n.rate_limits == (if rate_limits is Some {
                rate_limits
            } else {
                m.rate_limits
            }),
        },
{
    match metrics {
        Some(total) => {
            total.input_tokens = saturating_add_u64(total.input_tokens, input_tokens);
            total.output_tokens = saturating_add_u64(total.output_tokens, output_tokens);
            total.total_tokens = saturating_add_u64(total.total_tokens, total_tokens);
            if rate_limits.is_some() {
                total.rate_limits = rate_limits;
            }
        },
        None => {
            *metrics = Some(TurnMetrics { input_tokens, output_tokens, total_tokens, rate_limits });
        },
    }
}

/// An elapsed time in seconds as `1h 2m 3s`, `2m 3s` or `3s`; negative
/// times count as zero.
pub open spec fn elapsed_text(seconds: i64) -> Seq<char> {
    let total: int = if seconds > 0 {
        seconds as int
    } else {
        0
    };
    let (h, m, s) = (total / 3600, (total % 3600) / 60, total % 60);
    if h > 0 {
        decimal(h as nat) + "h "@ + decimal(m as nat) + "m "@ + decimal(s as nat) + "s"@
    } else if m > 0 {
        decimal(m as nat) + "m "@ + decimal(s as nat) + "s"@
    } else {
        decimal(s as nat) + "s"@
    }
}

pub fn format_elapsed_duration(seconds: i64) -> (res: String)
    ensures
        res@ == elapsed_text(seconds),
{
    let total: u64 = if seconds > 0 {
        seconds as u64
    } else {
        0
    };
    let hours = total / 3600;
    let minutes = (total % 3600) / 60;
    let secs = total % 60;
    let mut out = String::new();
    if hours > 0 {
        append_decimal(&mut out, hours);
        out.append("h ");
        append_decimal(&mut out, minutes);
        out.append("m ");
        append_decimal(&mut out, secs);
        out.append("s");
    } else if minutes > 0 {
        append_decimal(&mut out, minutes);
        out.append("m ");
        append_decimal(&mut out, secs);
        out.append("s");
    } else {
        append_decimal(&mut out, secs);
        out.append("s");
    }
    out
}

/// The execution summary left on an issue when it reaches a terminal state;
/// `duration_seconds` is how long it ran.
#[derive(Debug, Clone)]
pub struct CompletionCommentBuilder<'a> {
    pub issue_identifier: &'a str,
    pub terminal_state: &'a str,
    pub turn_count: u32,
    pub total_tokens: u64,
    pub duration_seconds: i64,
    pub worker_host: Option<&'a str>,
}

impl<'a> CompletionCommentBuilder<'a> {
    pub fn new(
        issue_identifier: &'a str,
        terminal_state: &'a str,
        turn_count: u32,
        total_tokens: u64,
        duration_seconds: i64,
        worker_host: Option<&'a str>,
    ) -> (res: Self)
        ensures
            res.issue_identifier == issue_identifier,
            res.terminal_state == terminal_state,
            res.turn_count == turn_count,
            res.total_tokens == total_tokens,
            res.duration_seconds == duration_seconds,
            res.worker_host == worker_host,
    {
        CompletionCommentBuilder {
            issue_identifier,
            terminal_state,
            turn_count,
            total_tokens,
            duration_seconds,
            worker_host,
        }
    }

    pub fn build(&self) -> (res: String)
        ensures
            res@ == "## Symphony Execution Summary\n\n**Issue:** "@ + self.issue_identifier@
                + "\n**Status:** "@ + self.terminal_state@ + "\n**Turns:** "@ + decimal(
                self.turn_count as nat,
            ) + "\n**Tokens:** "@ + decimal(self.total_tokens as nat) + "\n**Duration:** "@
                + elapsed_text(self.duration_seconds) + "\n**Worker:** "@ + match self.worker_host {
                Some(h) => h@,
                None => "local"@,
            },
    {
        let mut out = "## Symphony Execution Summary\n\n**Issue:** ".to_owned();
        out.append(self.issue_identifier);
        out.append("\n**Status:** ");
        out.append(self.terminal_state);
        out.append("\n**Turns:** ");
        append_decimal(&mut out, self.turn_count as u64);
        out.append("\n**Tokens:** ");
        append_decimal(&mut out, self.total_tokens);
        out.append("\n**Duration:** ");
        let d = format_elapsed_duration(self.duration_seconds);
        out.append(d.as_str());
        out.append("\n**Worker:** ");
        match self.worker_host {
            Some(h) => out.append(h),
            None => out.append("local"),
        }
        out
    }
}

/// The parent directory `Path::parent` gives for a path text, if any.
pub uninterp spec fn path_parent(path: Seq<char>) -> Option<Seq<char>>;

/// `std::path::Path::parent`, its result read back as text: the contract
/// names it as a function of the path text; path syntax is not restated.
#[verifier::external_body]
fn parent_of(path: &str) -> (res: Option<String>)
    ensures
        match res {
            Some(p) => path_parent(path@) == Some(p@),
            None => path_parent(path@) is None,
        },
{
    Path::new(path).parent().map(|p| p.to_string_lossy().into_owned())
}

/// The directory of the workflow file: its parent, or `.` when it has none
/// or the parent is empty (a workflow file named without a directory).
pub fn workflow_dir_from_path(workflow_path: &str) -> (res: String)
    ensures
        res@ == match path_parent(workflow_path@) {
            Some(p) => if p.len() > 0 {
                p
            } else {
                "."@
            },
            None => "."@,
        },
{
    match parent_of(workflow_path) {
        Some(p) => {
            if p.unicode_len() > 0 {
                p
            } else {
                ".".to_owned()
            }
        },
        None => ".".to_owned(),
    }
}

/// The tracker operations the orchestrator loop needs.
pub trait OrchestratorPort {
    fn startup_terminal_issues(&mut self, terminal_states: &[String]) -> Result<
        Vec<Issue>,
        SymphonyError,
    >;

    fn reconcile_running_issues(&mut self, running_issue_ids: &[String]) -> Result<
        Vec<Issue>,
        SymphonyError,
    >;

    fn fetch_candidate_issues(&mut self) -> Result<Vec<Issue>, SymphonyError>;

    fn refresh_issue(&mut self, issue_id: &str) -> Result<Option<Issue>, SymphonyError>;

    fn create_issue_comment(&mut self, issue_id: &str, body: &str) -> Result<(), SymphonyError>;

    fn update_issue_state(&mut self, issue_id: &str, state_name: &str) -> Result<
        (),
        SymphonyError,
    >;
}

/// The stream, severity and name a runtime event is published with.
pub open spec fn runtime_event_class_spec(e: RuntimeEvent) -> (EventKind, EventSeverity, Seq<char>) {
    match e {
        RuntimeEvent::StartupCleanup => (EventKind::Runtime, EventSeverity::Info, "startup_cleanup"@),
        RuntimeEvent::Reconcile => (EventKind::Runtime, EventSeverity::Debug, "reconcile"@),
        RuntimeEvent::Validate => (EventKind::Runtime, EventSeverity::Debug, "validate"@),
        RuntimeEvent::Dispatch => (EventKind::Runtime, EventSeverity::Info, "dispatch"@),
        RuntimeEvent::ValidationSkippedDispatch => (
            EventKind::Runtime,
            EventSeverity::Warn,
            "validation_skipped_dispatch"@,
        ),
        RuntimeEvent::RetryScheduled { .. } => (
            EventKind::Runtime,
            EventSeverity::Info,
            "retry_scheduled"@,
        ),
        RuntimeEvent::RetryIgnoredStale { .. } => (
            EventKind::Runtime,
            EventSeverity::Debug,
            "retry_ignored_stale"@,
        ),
        RuntimeEvent::WorkerCompleted { .. } => (
            EventKind::Worker,
            EventSeverity::Info,
            "worker_completed"@,
        ),
        RuntimeEvent::WorkerFailed { .. } => (EventKind::Worker, EventSeverity::Error, "worker_failed"@),
        RuntimeEvent::WorkspacePrepareFailed { .. } => (
            EventKind::Runtime,
            EventSeverity::Error,
            "workspace_prepare_failed"@,
        ),
        RuntimeEvent::WorkerStalled { .. } => (EventKind::Worker, EventSeverity::Warn, "worker_stalled"@),
        RuntimeEvent::SteerReceived { .. } => (EventKind::Runtime, EventSeverity::Info, "steer_received"@),
        RuntimeEvent::SteerDelivered { .. } => (
            EventKind::Runtime,
            EventSeverity::Info,
            "steer_delivered"@,
        ),
        RuntimeEvent::SteerFailed { .. } => (EventKind::Runtime, EventSeverity::Warn, "steer_failed"@),
        RuntimeEvent::RefreshRequested => (
            EventKind::Runtime,
            EventSeverity::Info,
            "refresh_requested"@,
        ),
        RuntimeEvent::RefreshCoalesced => (
            EventKind::Runtime,
            EventSeverity::Debug,
            "refresh_coalesced"@,
        ),
    }
}

pub fn runtime_event_class(event: &RuntimeEvent) -> (res: (EventKind, EventSeverity, &'static str))
    ensures
        (res.0, res.1, res.2@) == runtime_event_class_spec(*event),
{
    match event {
        RuntimeEvent::StartupCleanup => (EventKind::Runtime, EventSeverity::Info, "startup_cleanup"),
        RuntimeEvent::Reconcile => (EventKind::Runtime, EventSeverity::Debug, "reconcile"),
        RuntimeEvent::Validate => (EventKind::Runtime, EventSeverity::Debug, "validate"),
        RuntimeEvent::Dispatch => (EventKind::Runtime, EventSeverity::Info, "dispatch"),
        RuntimeEvent::ValidationSkippedDispatch => (
            EventKind::Runtime,
            EventSeverity::Warn,
            "validation_skipped_dispatch",
        ),
        RuntimeEvent::RetryScheduled { .. } => (
            EventKind::Runtime,
            EventSeverity::Info,
            "retry_scheduled",
        ),
        RuntimeEvent::RetryIgnoredStale { .. } => (
            EventKind::Runtime,
            EventSeverity::Debug,
            "retry_ignored_stale",
        ),
        RuntimeEvent::WorkerCompleted { .. } => (
            EventKind::Worker,
            EventSeverity::Info,
            "worker_completed",
        ),
        RuntimeEvent::WorkerFailed { .. } => (EventKind::Worker, EventSeverity::Error, "worker_failed"),
        RuntimeEvent::WorkspacePrepareFailed { .. } => (
            EventKind::Runtime,
            EventSeverity::Error,
            "workspace_prepare_failed",
        ),
        RuntimeEvent::WorkerStalled { .. } => (EventKind::Worker, EventSeverity::Warn, "worker_stalled"),
        RuntimeEvent::SteerReceived { .. } => (EventKind::Runtime, EventSeverity::Info, "steer_received"),
        RuntimeEvent::SteerDelivered { .. } => (
            EventKind::Runtime,
            EventSeverity::Info,
            "steer_delivered",
        ),
        RuntimeEvent::SteerFailed { .. } => (EventKind::Runtime, EventSeverity::Warn, "steer_failed"),
        RuntimeEvent::RefreshRequested => (
            EventKind::Runtime,
            EventSeverity::Info,
            "refresh_requested",
        ),
        RuntimeEvent::RefreshCoalesced => (
            EventKind::Runtime,
            EventSeverity::Debug,
            "refresh_coalesced",
        ),
    }
}

/// The error text a runtime event publishes: a worker failure cut to 160
/// characters, a workspace failure to 240, a steering failure as it is.
pub fn runtime_event_error(event: &RuntimeEvent) -> (res: Option<String>)
    ensures
        match *event {
            RuntimeEvent::WorkerFailed { error, .. } => res matches Some(e) && e@ == truncate_spec(
                error@,
                160,
            ),
            RuntimeEvent::WorkspacePrepareFailed { error, .. } => res matches Some(e) && e@
                == truncate_spec(error@, 240),
            RuntimeEvent::SteerFailed { error, .. } => res matches Some(e) && e@ == error@,
            _ => res is None,
        },
{
    match event {
        RuntimeEvent::WorkerFailed { error, .. } => Some(truncate_for_display(error.as_str(), 160)),
        RuntimeEvent::WorkspacePrepareFailed { error, .. } => Some(
            truncate_for_display(error.as_str(), 240),
        ),
        RuntimeEvent::SteerFailed { error, .. } => Some(error.clone()),
        _ => None,
    }
}

/// The name of a retry kind as events carry it.
pub fn retry_kind_name(kind: RetryKind) -> (res: &'static str)
    ensures
        res@ == (match kind {
            RetryKind::Continuation => "continuation"@,
            RetryKind::Failure => "failure"@,
        }),
{
    match kind {
        RetryKind::Continuation => "continuation",
        RetryKind::Failure => "failure",
    }
}

/// `"key":value` in compact JSON.
pub open spec fn kv(key: Seq<char>, value: Seq<char>) -> Seq<char> {
    quoted(key) + seq![':'] + value
}

pub open spec fn retry_kind_text(kind: RetryKind) -> Seq<char> {
    match kind {
        RetryKind::Continuation => "continuation"@,
        RetryKind::Failure => "failure"@,
    }
}

pub open spec fn opt_string_view(o: Option<String>) -> Option<Seq<char>> {
    match o {
        Some(s) => Some(s@),
        None => None,
    }
}

/// The payload of a scheduled retry.
pub open spec fn retry_scheduled_text(
    issue_id: Seq<char>,
    attempt: u32,
    due_at_ms: i64,
    token: Seq<char>,
    retry_kind: RetryKind,
) -> Seq<char> {
    let comma = seq![','];
    seq!['{'] + kv("attempt"@, decimal(attempt as nat)) + comma + kv(
        "due_at_ms"@,
        signed_decimal(due_at_ms as int),
    ) + comma + kv("issue_id"@, quoted(issue_id)) + comma + kv(
        "retry_kind"@,
        quoted(retry_kind_text(retry_kind)),
    ) + comma + kv("token"@, quoted(token)) + seq!['}']
}

/// The payload a runtime event is published with, as compact JSON with its
/// keys in order: the ids, attempt, times and token of a retry; the ids and
/// session of a worker, with its cut error or stall time; the identifier
/// and preview or error of a steering event; nothing for the others.
pub open spec fn runtime_event_payload_text(e: RuntimeEvent) -> Seq<char> {
    let comma = seq![','];
    match e {
        RuntimeEvent::RetryScheduled { issue_id, attempt, due_at_ms, token, retry_kind } =>
            retry_scheduled_text(issue_id@, attempt, due_at_ms, token@, retry_kind),
        RuntimeEvent::RetryIgnoredStale { issue_id, token } => seq!['{'] + kv(
            "issue_id"@,
            quoted(issue_id@),
        ) + comma + kv("token"@, quoted(token@)) + seq!['}'],
        RuntimeEvent::WorkerCompleted { issue_id, session_id, .. } => seq!['{'] + kv(
            "issue_id"@,
            quoted(issue_id@),
        ) + comma + kv("session_id"@, opt_quoted(opt_string_view(session_id))) + seq!['}'],
        RuntimeEvent::WorkerFailed { issue_id, session_id, error, .. } => seq!['{'] + kv(
            "error"@,
            quoted(truncate_spec(error@, 160)),
        ) + comma + kv("issue_id"@, quoted(issue_id@)) + comma + kv(
            "session_id"@,
            opt_quoted(opt_string_view(session_id)),
        ) + seq!['}'],
        RuntimeEvent::WorkspacePrepareFailed { issue_id, error, .. } => seq!['{'] + kv(
            "error"@,
            quoted(truncate_spec(error@, 240)),
        ) + comma + kv("issue_id"@, quoted(issue_id@)) + seq!['}'],
        RuntimeEvent::WorkerStalled { issue_id, session_id, elapsed_ms, .. } => seq!['{'] + kv(
            "elapsed_ms"@,
            signed_decimal(elapsed_ms as int),
        ) + comma + kv("issue_id"@, quoted(issue_id@)) + comma + kv(
            "session_id"@,
            opt_quoted(opt_string_view(session_id)),
        ) + seq!['}'],
        RuntimeEvent::SteerReceived { issue_identifier, instruction_preview } => seq!['{'] + kv(
            "instruction_preview"@,
            quoted(instruction_preview@),
        ) + comma + kv("issue_identifier"@, quoted(issue_identifier@)) + seq!['}'],
        RuntimeEvent::SteerDelivered { issue_id, issue_identifier } => seq!['{'] + kv(
            "issue_id"@,
            quoted(issue_id@),
        ) + comma + kv("issue_identifier"@, quoted(issue_identifier@)) + seq!['}'],
        RuntimeEvent::SteerFailed { issue_identifier, error } => seq!['{'] + kv(
            "error"@,
            quoted(error@),
        ) + comma + kv("issue_identifier"@, quoted(issue_identifier@)) + seq!['}'],
        _ => seq!['{', '}'],
    }
}

fn opt_str(o: &Option<String>) -> (res: Option<&str>)
    ensures
        match res {
            Some(s) => opt_string_view(*o) == Some(s@),
            None => o is None,
        },
{
    match o {
        Some(s) => Some(s.as_str()),
        None => None,
    }
}

fn object(entries: Vec<(String, JsonValue)>) -> (res: JsonValue)
    ensures
        res is Object,
        json_text(res) == seq!['{'] + crate::json::entries_text(entries@) + seq!['}'],
{
    JsonValue::Object(entries)
}

fn retry_scheduled_payload(
    issue_id: &str,
    attempt: u32,
    due_at_ms: i64,
    token: &str,
    retry_kind: RetryKind,
) -> (res: JsonValue)
    ensures
        res is Object,
        json_text(res) == retry_scheduled_text(issue_id@, attempt, due_at_ms, token@, retry_kind),
{
    let ghost comma = seq![','];
    let mut entries: Vec<(String, JsonValue)> = Vec::new();
    push_entry(&mut entries, "attempt", json_u64(attempt as u64));
    let ghost t1 = kv("attempt"@, decimal(attempt as nat));
    assert(crate::json::entries_text(entries@) =~= t1);
    push_entry(&mut entries, "due_at_ms", json_i64(due_at_ms));
    let ghost t2 = t1 + comma + kv("due_at_ms"@, signed_decimal(due_at_ms as int));
    assert(crate::json::entries_text(entries@) =~= t2);
    push_entry(&mut entries, "issue_id", json_string(issue_id));
    let ghost t3 = t2 + comma + kv("issue_id"@, quoted(issue_id@));
    assert(crate::json::entries_text(entries@) =~= t3);
    let kind = retry_kind_name(retry_kind);
    push_entry(&mut entries, "retry_kind", json_string(kind));
    let ghost t4 = t3 + comma + kv("retry_kind"@, quoted(retry_kind_text(retry_kind)));
    assert(crate::json::entries_text(entries@) =~= t4);
    push_entry(&mut entries, "token", json_string(token));
    let ghost t5 = t4 + comma + kv("token"@, quoted(token@));
    assert(crate::json::entries_text(entries@) =~= t5);
    let res = object(entries);
    proof {
        assert(json_text(res) =~= retry_scheduled_text(
            issue_id@,
            attempt,
            due_at_ms,
            token@,
            retry_kind,
        ));
    }
    res
}

/// `{"<k1>":<v1>,"<k2>":<v2>}` from two values.
fn pair_payload(k1: &str, v1: JsonValue, k2: &str, v2: JsonValue) -> (res: JsonValue)
    ensures
        res is Object,
        json_text(res) == seq!['{'] + kv(k1@, json_text(v1)) + seq![','] + kv(k2@, json_text(v2))
            + seq!['}'],
{
    let ghost t1 = json_text(v1);
    let ghost t2 = json_text(v2);
    let mut entries: Vec<(String, JsonValue)> = Vec::new();
    push_entry(&mut entries, k1, v1);
    push_entry(&mut entries, k2, v2);
    let res = object(entries);
    proof {
        assert(json_text(res) =~= seq!['{'] + kv(k1@, t1) + seq![','] + kv(k2@, t2) + seq!['}']);
    }
    res
}

/// `{"<k1>":<v1>,"<k2>":<v2>,"<k3>":<v3>}` from three values.
fn triple_payload(k1: &str, v1: JsonValue, k2: &str, v2: JsonValue, k3: &str, v3: JsonValue) -> (res:
    JsonValue)
    ensures
        res is Object,
        json_text(res) == seq!['{'] + kv(k1@, json_text(v1)) + seq![','] + kv(k2@, json_text(v2))
            + seq![','] + kv(k3@, json_text(v3)) + seq!['}'],
{
    let ghost t1 = json_text(v1);
    let ghost t2 = json_text(v2);
    let ghost t3 = json_text(v3);
    let mut entries: Vec<(String, JsonValue)> = Vec::new();
    push_entry(&mut entries, k1, v1);
    push_entry(&mut entries, k2, v2);
    push_entry(&mut entries, k3, v3);
    let res = object(entries);
    proof {
        assert(json_text(res) =~= seq!['{'] + kv(k1@, t1) + seq![','] + kv(k2@, t2) + seq![',']
            + kv(k3@, t3) + seq!['}']);
    }
    res
}

/// The payload a runtime event is published with.
pub fn runtime_event_payload(event: &RuntimeEvent) -> (res: JsonValue)
    ensures
        res is Object,
        json_text(res) == runtime_event_payload_text(*event),
{
    match event {
        RuntimeEvent::RetryScheduled { issue_id, attempt, due_at_ms, token, retry_kind } => {
            let r = retry_scheduled_payload(
                issue_id.as_str(),
                *attempt,
                *due_at_ms,
                token.as_str(),
                *retry_kind,
            );
            r
        },
        RuntimeEvent::RetryIgnoredStale { issue_id, token } => pair_payload(
            "issue_id",
            json_string(issue_id.as_str()),
            "token",
            json_string(token.as_str()),
        ),
        RuntimeEvent::WorkerCompleted { issue_id, session_id, .. } => pair_payload(
            "issue_id",
            json_string(issue_id.as_str()),
            "session_id",
            json_opt_string(opt_str(session_id)),
        ),
        RuntimeEvent::WorkerFailed { issue_id, session_id, error, .. } => {
            let cut = truncate_for_display(error.as_str(), 160);
            triple_payload(
                "error",
                json_string(cut.as_str()),
                "issue_id",
                json_string(issue_id.as_str()),
                "session_id",
                json_opt_string(opt_str(session_id)),
            )
        },
        RuntimeEvent::WorkspacePrepareFailed { issue_id, error, .. } => {
            let cut = truncate_for_display(error.as_str(), 240);
            pair_payload("error", json_string(cut.as_str()), "issue_id", json_string(issue_id.as_str()))
        },
        RuntimeEvent::WorkerStalled { issue_id, session_id, elapsed_ms, .. } => triple_payload(
            "elapsed_ms",
            json_i64(*elapsed_ms),
            "issue_id",
            json_string(issue_id.as_str()),
            "session_id",
            json_opt_string(opt_str(session_id)),
        ),
        RuntimeEvent::SteerReceived { issue_identifier, instruction_preview } => pair_payload(
            "instruction_preview",
            json_string(instruction_preview.as_str()),
            "issue_identifier",
            json_string(issue_identifier.as_str()),
        ),
        RuntimeEvent::SteerDelivered { issue_id, issue_identifier } => pair_payload(
            "issue_id",
            json_string(issue_id.as_str()),
            "issue_identifier",
            json_string(issue_identifier.as_str()),
        ),
        RuntimeEvent::SteerFailed { issue_identifier, error } => pair_payload(
            "error",
            json_string(error.as_str()),
            "issue_identifier",
            json_string(issue_identifier.as_str()),
        ),
        _ => {
            let res = object(Vec::new());
            proof {
                assert(json_text(res) =~= seq!['{', '}']);
            }
            res
        },
    }
}

} // verus!
