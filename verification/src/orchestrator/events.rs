//! Agent events as the orchestrator sees them: their names, kinds and
//! severities, the tool activity they report, and the short texts shown
//! for rate limits.

use vstd::prelude::*;


use crate::json::{deref_json, field_string, parse_json, parsed_json, str_field, JsonValue};
use crate::orchestrator::escalation::EscalationRequest;
use crate::text::{
    is_whitespace_char, is_ws, normalize_whitespace, normalize_ws_spec, push_char, starts_with_seq,
    starts_with_str, trim, trim_seq, trim_start, trim_start_seq,
};

verus! {

/// An event of an agent session; times are Unix milliseconds.
#[derive(Debug)]
pub enum AgentEvent {
    SessionStarted { timestamp_ms: i64, session_id: String },
    StartupFailed { timestamp_ms: i64, error: String },
    TurnCompleted {
        timestamp_ms: i64,
        message: Option<String>,
        input_tokens: u64,
        output_tokens: u64,
        total_tokens: u64,
        rate_limits: Option<String>,
    },
    TurnFailed { timestamp_ms: i64, error: String },
    TurnCancelled { timestamp_ms: i64 },
    TurnEndedWithError { timestamp_ms: i64, error: String },
    TurnInputRequired { timestamp_ms: i64, prompt: Option<String> },
    ApprovalAutoApproved { timestamp_ms: i64, tool_call: String },
    ApprovalRequired { timestamp_ms: i64, method: String },
    ToolCallCompleted { timestamp_ms: i64, tool_name: String },
    ToolCallFailed { timestamp_ms: i64, tool_name: Option<String> },
    ToolInputAutoAnswered { timestamp_ms: i64 },
    UnsupportedToolCall { timestamp_ms: i64, tool_name: String },
    EscalationCreated {
        timestamp_ms: i64,
        issue_id: String,
        issue_identifier: String,
        request: EscalationRequest,
    },
    EscalationResponded {
        timestamp_ms: i64,
        issue_id: String,
        issue_identifier: String,
        request_id: String,
        responder_id: Option<String>,
        latency_ms: u64,
    },
    EscalationTimedOut {
        timestamp_ms: i64,
        issue_id: String,
        issue_identifier: String,
        request_id: String,
        timeout_ms: u64,
    },
    EscalationCancelled {
        timestamp_ms: i64,
        issue_id: String,
        issue_identifier: String,
        request_id: String,
        reason: String,
    },
    Notification { timestamp_ms: i64, message: String },
    /// A message of the agent's protocol that no other event covers.
    OtherMessage { timestamp_ms: i64, raw: JsonValue },
    /// A line that could not be read as a protocol message.
    Malformed { timestamp_ms: i64, parse_error: String, raw_text: String },
}

pub open spec fn event_time(e: AgentEvent) -> i64 {
    match e {
        AgentEvent::SessionStarted { timestamp_ms, .. } => timestamp_ms,
        AgentEvent::StartupFailed { timestamp_ms, .. } => timestamp_ms,
        AgentEvent::TurnCompleted { timestamp_ms, .. } => timestamp_ms,
        AgentEvent::TurnFailed { timestamp_ms, .. } => timestamp_ms,
        AgentEvent::TurnCancelled { timestamp_ms } => timestamp_ms,
        AgentEvent::TurnEndedWithError { timestamp_ms, .. } => timestamp_ms,
        AgentEvent::TurnInputRequired { timestamp_ms, .. } => timestamp_ms,
        AgentEvent::ApprovalAutoApproved { timestamp_ms, .. } => timestamp_ms,
        AgentEvent::ApprovalRequired { timestamp_ms, .. } => timestamp_ms,
        AgentEvent::ToolCallCompleted { timestamp_ms, .. } => timestamp_ms,
        AgentEvent::ToolCallFailed { timestamp_ms, .. } => timestamp_ms,
        AgentEvent::ToolInputAutoAnswered { timestamp_ms } => timestamp_ms,
        AgentEvent::UnsupportedToolCall { timestamp_ms, .. } => timestamp_ms,
        AgentEvent::EscalationCreated { timestamp_ms, .. } => timestamp_ms,
        AgentEvent::EscalationResponded { timestamp_ms, .. } => timestamp_ms,
        AgentEvent::EscalationTimedOut { timestamp_ms, .. } => timestamp_ms,
        AgentEvent::EscalationCancelled { timestamp_ms, .. } => timestamp_ms,
        AgentEvent::Notification { timestamp_ms, .. } => timestamp_ms,
        AgentEvent::OtherMessage { timestamp_ms, .. } => timestamp_ms,
        AgentEvent::Malformed { timestamp_ms, .. } => timestamp_ms,
    }
}

pub fn event_timestamp_ms(event: &AgentEvent) -> (res: i64)
    ensures
        res == event_time(*event),
{
    match event {
        AgentEvent::SessionStarted { timestamp_ms, .. } => *timestamp_ms,
        AgentEvent::StartupFailed { timestamp_ms, .. } => *timestamp_ms,
        AgentEvent::TurnCompleted { timestamp_ms, .. } => *timestamp_ms,
        AgentEvent::TurnFailed { timestamp_ms, .. } => *timestamp_ms,
        AgentEvent::TurnCancelled { timestamp_ms } => *timestamp_ms,
        AgentEvent::TurnEndedWithError { timestamp_ms, .. } => *timestamp_ms,
        AgentEvent::TurnInputRequired { timestamp_ms, .. } => *timestamp_ms,
        AgentEvent::ApprovalAutoApproved { timestamp_ms, .. } => *timestamp_ms,
        AgentEvent::ApprovalRequired { timestamp_ms, .. } => *timestamp_ms,
        AgentEvent::ToolCallCompleted { timestamp_ms, .. } => *timestamp_ms,
        AgentEvent::ToolCallFailed { timestamp_ms, .. } => *timestamp_ms,
        AgentEvent::ToolInputAutoAnswered { timestamp_ms } => *timestamp_ms,
        AgentEvent::UnsupportedToolCall { timestamp_ms, .. } => *timestamp_ms,
        AgentEvent::EscalationCreated { timestamp_ms, .. } => *timestamp_ms,
        AgentEvent::EscalationResponded { timestamp_ms, .. } => *timestamp_ms,
        AgentEvent::EscalationTimedOut { timestamp_ms, .. } => *timestamp_ms,
        AgentEvent::EscalationCancelled { timestamp_ms, .. } => *timestamp_ms,
        AgentEvent::Notification { timestamp_ms, .. } => *timestamp_ms,
        AgentEvent::OtherMessage { timestamp_ms, .. } => *timestamp_ms,
        AgentEvent::Malformed { timestamp_ms, .. } => *timestamp_ms,
    }
}

/// Only a session start carries a session id.
pub fn event_session_id(event: &AgentEvent) -> (res: Option<&str>)
    ensures
        match *event {
            AgentEvent::SessionStarted { session_id, .. } => res matches Some(s) && s@
                == session_id@,
            _ => res is None,
        },
{
    match event {
        AgentEvent::SessionStarted { session_id, .. } => Some(session_id.as_str()),
        _ => None,
    }
}

/// The wire name of an event.
pub open spec fn agent_event_name(e: AgentEvent) -> Seq<char> {
    match e {
        AgentEvent::SessionStarted { .. } => "session_started"@,
        AgentEvent::StartupFailed { .. } => "startup_failed"@,
        AgentEvent::TurnCompleted { .. } => "turn_completed"@,
        AgentEvent::TurnFailed { .. } => "turn_failed"@,
        AgentEvent::TurnCancelled { .. } => "turn_cancelled"@,
        AgentEvent::TurnEndedWithError { .. } => "turn_ended_with_error"@,
        AgentEvent::TurnInputRequired { .. } => "turn_input_required"@,
        AgentEvent::ApprovalAutoApproved { .. } => "approval_auto_approved"@,
        AgentEvent::ApprovalRequired { .. } => "approval_required"@,
        AgentEvent::ToolCallCompleted { .. } => "tool_call_completed"@,
        AgentEvent::ToolCallFailed { .. } => "tool_call_failed"@,
        AgentEvent::ToolInputAutoAnswered { .. } => "tool_input_auto_answered"@,
        AgentEvent::UnsupportedToolCall { .. } => "unsupported_tool_call"@,
        AgentEvent::EscalationCreated { .. } => "escalation_created"@,
        AgentEvent::EscalationResponded { .. } => "escalation_responded"@,
        AgentEvent::EscalationTimedOut { .. } => "escalation_timed_out"@,
        AgentEvent::EscalationCancelled { .. } => "escalation_cancelled"@,
        AgentEvent::Notification { .. } => "notification"@,
        AgentEvent::OtherMessage { .. } => "other_message"@,
        AgentEvent::Malformed { .. } => "malformed"@,
    }
}

pub fn event_name(event: &AgentEvent) -> (res: &'static str)
    ensures
        res@ == agent_event_name(*event),
{
    match event {
        AgentEvent::SessionStarted { .. } => "session_started",
        AgentEvent::StartupFailed { .. } => "startup_failed",
        AgentEvent::TurnCompleted { .. } => "turn_completed",
        AgentEvent::TurnFailed { .. } => "turn_failed",
        AgentEvent::TurnCancelled { .. } => "turn_cancelled",
        AgentEvent::TurnEndedWithError { .. } => "turn_ended_with_error",
        AgentEvent::TurnInputRequired { .. } => "turn_input_required",
        AgentEvent::ApprovalAutoApproved { .. } => "approval_auto_approved",
        AgentEvent::ApprovalRequired { .. } => "approval_required",
        AgentEvent::ToolCallCompleted { .. } => "tool_call_completed",
        AgentEvent::ToolCallFailed { .. } => "tool_call_failed",
        AgentEvent::ToolInputAutoAnswered { .. } => "tool_input_auto_answered",
        AgentEvent::UnsupportedToolCall { .. } => "unsupported_tool_call",
        AgentEvent::EscalationCreated { .. } => "escalation_created",
        AgentEvent::EscalationResponded { .. } => "escalation_responded",
        AgentEvent::EscalationTimedOut { .. } => "escalation_timed_out",
        AgentEvent::EscalationCancelled { .. } => "escalation_cancelled",
        AgentEvent::Notification { .. } => "notification",
        AgentEvent::OtherMessage { .. } => "other_message",
        AgentEvent::Malformed { .. } => "malformed",
    }
}

/// The stream an event is published on.
#[derive(Debug, Clone, Copy, PartialEq, Eq, Structural)]
pub enum EventKind {
    Runtime,
    Worker,
    Tool,
    EscalationCreated,
    EscalationResponded,
    EscalationTimedOut,
    EscalationCancelled,
}

#[derive(Debug, Clone, Copy, PartialEq, Eq, Structural)]
pub enum EventSeverity {
    Debug,
    Info,
    Warn,
    Error,
}

/// The tool events of a session: a tool starting (with its arguments, in
/// short), or the tool in flight ending.
#[derive(Debug, Clone, PartialEq, Eq)]
pub enum ToolActivity {
    Started { name: String, args_preview: Option<String> },
    Ended,
    Idle,
}

/// A `tool_start:`, `tool_end:` or `tool_error:` notification, taken apart.
#[derive(Debug, Clone, PartialEq, Eq)]
pub struct ParsedToolNotification {
    pub event_name: &'static str,
    pub summary: Option<String>,
    pub tool_name: Option<String>,
    pub args_preview: Option<String>,
}

pub const TOOL_ARGS_PREVIEW_MAX_LEN: usize = 120;

/// `s` cut to its first `max` characters, with `…` appended when it was
/// longer.
pub open spec fn truncate_spec(s: Seq<char>, max: nat) -> Seq<char> {
    if s.len() <= max {
        s
    } else {
        s.take(max as int).push('…')
    }
}

pub fn truncate_for_display(s: &str, max: usize) -> (res: String)
    ensures
        res@ == truncate_spec(s@, max as nat),
{
    let n = s.unicode_len();
    if n <= max {
        return s.to_owned();
    }
    let mut out = s.substring_char(0, max).to_owned();
    push_char(&mut out, '…');
    out
}

/// `char::is_control`: the Unicode control characters, `U+0000` to
/// `U+001F` and `U+007F` to `U+009F`.
pub open spec fn is_control(c: char) -> bool {
    (c as u32) <= 0x1f || (0x7f <= (c as u32) && (c as u32) <= 0x9f)
}

pub open spec fn strip_controls(s: Seq<char>) -> Seq<char>
    decreases s.len(),
{
    if s.len() == 0 {
        Seq::empty()
    } else if is_control(s.last()) {
        strip_controls(s.drop_last())
    } else {
        strip_controls(s.drop_last()).push(s.last())
    }
}

fn strip_control_chars(s: &str) -> (res: String)
    ensures
        res@ == strip_controls(s@),
{
    let n = s.unicode_len();
    let mut out = String::new();
    let mut i: usize = 0;
    while i < n
        invariant
            n == s@.len(),
            i <= n,
            out@ == strip_controls(s@.take(i as int)),
        decreases n - i,
    {
        let c = s.get_char(i);
        proof {
            assert(s@.take(i + 1).drop_last() =~= s@.take(i as int));
        }
        let v: u32 = c as u32;
        if !(v <= 0x1f || (0x7f <= v && v <= 0x9f)) {
            push_char(&mut out, c);
        }
        i = i + 1;
    }
    assert(s@.take(n as int) =~= s@);
    out
}

pub open spec fn opt_view(o: Option<String>) -> Option<Seq<char>> {
    match o {
        Some(s) => Some(s@),
        None => None,
    }
}

/// The keys joined with `, `.
pub open spec fn join_keys(keys: Seq<Seq<char>>) -> Seq<char>
    decreases keys.len(),
{
    if keys.len() == 0 {
        Seq::empty()
    } else if keys.len() == 1 {
        keys[0]
    } else {
        join_keys(keys.drop_last()) + ", "@ + keys.last()
    }
}

/// The keys of an object's entries, in order.
pub open spec fn entry_keys(entries: Seq<(String, JsonValue)>) -> Seq<Seq<char>> {
    entries.map_values(|e: (String, JsonValue)| e.0@)
}

/// The preview of a tool's arguments, given what reading them as JSON gave
/// (`None` when they are not JSON): text that is not JSON without its
/// control characters; JSON that is not an object as it is; an object's
/// `command`, `path`, `url` or `query` (the first that holds a string),
/// else its keys joined with `, `, else `{}`.
pub open spec fn tool_args_preview_of(text: Seq<char>, parsed: Option<JsonValue>) -> Seq<char> {
    match parsed {
        None => strip_controls(text),
        Some(v) => match v {
            JsonValue::Object(entries) => if str_field(v, "command"@) is Some {
                str_field(v, "command"@).unwrap()
            } else if str_field(v, "path"@) is Some {
                str_field(v, "path"@).unwrap()
            } else if str_field(v, "url"@) is Some {
                str_field(v, "url"@).unwrap()
            } else if str_field(v, "query"@) is Some {
                str_field(v, "query"@).unwrap()
            } else if entries@.len() == 0 {
                "{}"@
            } else {
                join_keys(entry_keys(entries@))
            },
            _ => text,
        },
    }
}

/// The preview of a tool's argument text, read as JSON.
pub open spec fn tool_args_preview_spec(text: Seq<char>) -> Seq<char> {
    tool_args_preview_of(text, parsed_json(text))
}

fn join_entry_keys(entries: &Vec<(String, JsonValue)>) -> (res: String)
    requires
        entries@.len() > 0,
    ensures
        res@ == join_keys(entry_keys(entries@)),
{
    let ghost kv = entry_keys(entries@);
    let mut out = entries[0].0.clone();
    let mut i: usize = 1;
    proof {
        assert(kv.take(1) =~= seq![kv[0]]);
        assert(join_keys(kv.take(1)) == kv[0]) by {
            assert(kv.take(1).len() == 1);
        }
    }
    while i < entries.len()
        invariant
            1 <= i <= entries@.len(),
            kv == entry_keys(entries@),
            out@ == join_keys(kv.take(i as int)),
        decreases entries@.len() - i,
    {
        proof {
            assert(kv.take(i + 1).drop_last() =~= kv.take(i as int));
            assert(kv.take(i + 1).last() == entries@[i as int].0@);
        }
        out.append(", ");
        out.append(entries[i].0.as_str());
        i = i + 1;
    }
    assert(kv.take(entries@.len() as int) =~= kv);
    out
}

/// The preview of a tool's arguments, given the argument text and what
/// reading it as JSON gave.
pub fn tool_args_preview_from(args_json: &str, parsed: Option<&JsonValue>) -> (res: String)
    ensures
        res@ == tool_args_preview_of(args_json@, deref_json(parsed)),
{
    let v = match parsed {
        None => {
            return strip_control_chars(args_json);
        },
        Some(v) => v,
    };
    match v {
        JsonValue::Object(entries) => {
            match field_string(v, "command") {
                Some(c) => {
                    return c;
                },
                None => {},
            }
            match field_string(v, "path") {
                Some(p) => {
                    return p;
                },
                None => {},
            }
            match field_string(v, "url") {
                Some(u) => {
                    return u;
                },
                None => {},
            }
            match field_string(v, "query") {
                Some(q) => {
                    return q;
                },
                None => {},
            }
            if entries.len() == 0 {
                "{}".to_owned()
            } else {
                join_entry_keys(entries)
            }
        },
        _ => args_json.to_owned(),
    }
}

/// The preview of a tool's argument text, which is read as JSON.
pub fn build_tool_args_preview(args_json: &str) -> (res: String)
    ensures
        res@ == tool_args_preview_spec(args_json@),
{
    let parsed = parse_json(args_json);
    match parsed {
        Some(v) => tool_args_preview_from(args_json, Some(&v)),
        None => tool_args_preview_from(args_json, None),
    }
}

/// The text up to the first white space, and what follows that white space
/// character, if there is one (`splitn(2, char::is_whitespace)`).
pub open spec fn split_first_ws(s: Seq<char>) -> (Seq<char>, Option<Seq<char>>)
    decreases s.len(),
{
    if s.len() == 0 {
        (Seq::empty(), None)
    } else if is_ws(s[0]) {
        (Seq::empty(), Some(s.drop_first()))
    } else {
        let (head, tail) = split_first_ws(s.drop_first());
        (seq![s[0]] + head, tail)
    }
}

fn split_first_whitespace(s: &str) -> (res: (String, Option<String>))
    ensures
        res.0@ == split_first_ws(s@).0,
        opt_view(res.1) == split_first_ws(s@).1,
{
    let n = s.unicode_len();
    let mut i: usize = 0;
    assert(s@.subrange(0, n as int) =~= s@);
    while i < n
        invariant
            n == s@.len(),
            i <= n,
            forall|k: int| 0 <= k < i ==> !is_ws(#[trigger] s@[k]),
            split_first_ws(s@) == (
                s@.take(i as int) + split_first_ws(s@.subrange(i as int, n as int)).0,
                split_first_ws(s@.subrange(i as int, n as int)).1,
            ),
        decreases n - i,
    {
        let c = s.get_char(i);
        let ghost sub = s@.subrange(i as int, n as int);
        proof {
            assert(sub[0] == c);
            assert(sub.drop_first() =~= s@.subrange(i + 1, n as int));
        }
        if is_whitespace_char(c) {
            let head = s.substring_char(0, i).to_owned();
            let tail = s.substring_char(i + 1, n).to_owned();
            proof {
                assert(s@.take(i as int) + Seq::<char>::empty() =~= s@.take(i as int));
            }
            return (head, Some(tail));
        }
        proof {
            assert(s@.take(i + 1) =~= s@.take(i as int) + seq![c]);
            assert(s@.take(i as int) + (seq![c] + split_first_ws(sub.drop_first()).0) =~= s@.take(
                i + 1,
            ) + split_first_ws(sub.drop_first()).0);
        }
        i = i + 1;
    }
    proof {
        assert(s@.take(n as int) =~= s@);
        assert(s@.take(n as int) + Seq::<char>::empty() =~= s@);
    }
    (s.to_owned(), None)
}

/// The three notification prefixes and the events they announce.
pub open spec fn notification_prefix(message: Seq<char>) -> Option<(Seq<char>, Seq<char>)> {
    if starts_with_seq(message, "tool_start:"@) {
        Some(("tool_start"@, message.subrange(11, message.len() as int)))
    } else if starts_with_seq(message, "tool_end:"@) {
        Some(("tool_end"@, message.subrange(9, message.len() as int)))
    } else if starts_with_seq(message, "tool_error:"@) {
        Some(("tool_error"@, message.subrange(11, message.len() as int)))
    } else {
        None
    }
}

/// A text, or nothing when it is empty.
pub open spec fn non_empty_text(s: Seq<char>) -> Option<Seq<char>> {
    if s.len() > 0 {
        Some(s)
    } else {
        None
    }
}

/// The preview of what follows a started tool's name: the trimmed rest,
/// previewed and cut to 120 characters, when there is any.
pub open spec fn start_args_preview(tail: Option<Seq<char>>) -> Option<Seq<char>> {
    match tail {
        Some(t) => if trim_seq(t).len() > 0 {
            Some(truncate_spec(tool_args_preview_spec(trim_seq(t)), TOOL_ARGS_PREVIEW_MAX_LEN as nat))
        } else {
            None
        },
        None => None,
    }
}

/// The tool a `tool_start:` notification starts, with its argument
/// preview: the first word of the trimmed remainder, when there is one.
pub open spec fn started_tool(message: Seq<char>) -> Option<(Seq<char>, Option<Seq<char>>)> {
    match notification_prefix(message) {
        Some((name, rest0)) => if name == "tool_start"@ {
            let (head, tail) = split_first_ws(trim_start_seq(rest0));
            match non_empty_text(trim_seq(head)) {
                Some(n) => Some((n, start_args_preview(tail))),
                None => None,
            }
        } else {
            None
        },
        None => None,
    }
}

/// Whether a notification ends the tool in flight: a `tool_end:` or a
/// `tool_error:`.
pub open spec fn ends_tool_notification(message: Seq<char>) -> bool {
    notification_prefix(message) matches Some((name, _)) && (name == "tool_end"@ || name
        == "tool_error"@)
}

/// The tool in flight, by name and argument preview, after an event:
/// turn and tool-call outcomes and ending notifications clear it, a start
/// notification with a tool name replaces it, and everything else keeps it.
pub open spec fn tool_after(e: AgentEvent, current: (Option<Seq<char>>, Option<Seq<char>>)) -> (
    Option<Seq<char>>,
    Option<Seq<char>>,
) {
    match e {
        AgentEvent::ToolCallCompleted { .. } | AgentEvent::ToolCallFailed { .. }
        | AgentEvent::UnsupportedToolCall { .. } | AgentEvent::TurnCompleted { .. }
        | AgentEvent::TurnFailed { .. } | AgentEvent::TurnCancelled { .. }
        | AgentEvent::TurnEndedWithError { .. } => (None, None),
        AgentEvent::Notification { message, .. } => if ends_tool_notification(message@) {
            (None, None)
        } else {
            match started_tool(message@) {
                Some((n, a)) => (Some(n), a),
                None => current,
            }
        },
        _ => current,
    }
}

/// The parsed form of a notification: its event; its whitespace-normalized
/// remainder as the summary; for a start, the first word as the tool name
/// and the trimmed rest, previewed and cut to 120 characters, as the
/// arguments; for an end or error, the summary as the tool name.
pub open spec fn parsed_notification_matches(p: ParsedToolNotification, message: Seq<char>) -> bool {
    match notification_prefix(message) {
        None => false,
        Some((name, rest0)) => {
            let rest = trim_start_seq(rest0);
            let summary = non_empty_text(normalize_ws_spec(rest));
            &&& p.event_name@ == name
            &&& opt_view(p.summary) == summary
            &&& if name == "tool_start"@ {
                let (head, tail) = split_first_ws(rest);
                &&& opt_view(p.tool_name) == non_empty_text(trim_seq(head))
                &&& opt_view(p.args_preview) == start_args_preview(tail)
            } else {
                &&& opt_view(p.tool_name) == summary
                &&& p.args_preview is None
            }
        },
    }
}

fn some_if_non_empty(s: String) -> (res: Option<String>)
    ensures
        opt_view(res) == non_empty_text(s@),
{
    if s.unicode_len() > 0 {
        Some(s)
    } else {
        None
    }
}

pub fn parse_tool_notification(message: &str) -> (res: Option<ParsedToolNotification>)
    ensures
        match res {
            Some(p) => parsed_notification_matches(p, message@),
            None => notification_prefix(message@) is None,
        },
{
    proof {
        reveal_strlit("tool_start:");
        reveal_strlit("tool_end:");
        reveal_strlit("tool_error:");
        reveal_strlit("tool_start");
        reveal_strlit("tool_end");
        reveal_strlit("tool_error");
        assert("tool_end"@.len() != "tool_start"@.len());
        assert("tool_error"@[5] != "tool_start"@[5]);
    }
    let n = message.unicode_len();
    let (event_name, rest0): (&'static str, String) = if starts_with_str(message, "tool_start:") {
        ("tool_start", message.substring_char(11, n).to_owned())
    } else if starts_with_str(message, "tool_end:") {
        ("tool_end", message.substring_char(9, n).to_owned())
    } else if starts_with_str(message, "tool_error:") {
        ("tool_error", message.substring_char(11, n).to_owned())
    } else {
        return None;
    };
    let rest = trim_start(rest0.as_str());
    let normalized = normalize_whitespace(rest.as_str());
    let summary = some_if_non_empty(normalized);
    if starts_with_str(message, "tool_start:") {
        let (head, tail) = split_first_whitespace(rest.as_str());
        let name = trim(head.as_str());
        let tool_name = some_if_non_empty(name);
        let args_preview = match tail {
            Some(t) => {
                let tt = trim(t.as_str());
                if tt.unicode_len() > 0 {
                    let preview = build_tool_args_preview(tt.as_str());
                    Some(truncate_for_display(preview.as_str(), TOOL_ARGS_PREVIEW_MAX_LEN))
                } else {
                    None
                }
            },
            None => None,
        };
        return Some(ParsedToolNotification { event_name, summary, tool_name, args_preview });
    }
    let tool_name = match &summary {
        Some(s) => Some(s.clone()),
        None => None,
    };
    Some(ParsedToolNotification { event_name, summary, tool_name, args_preview: None })
}

/// A start with a tool name starts that tool; an end or error ends the
/// tool in flight; anything else is no tool activity.
pub fn tool_activity_from_notification(notification: ParsedToolNotification) -> (res: ToolActivity)
    ensures
        notification.event_name@ == "tool_start"@ ==> match notification.tool_name {
            Some(n) => res == ToolActivity::Started {
                name: n,
                args_preview: notification.args_preview,
            },
            None => res == ToolActivity::Idle,
        },
        (notification.event_name@ == "tool_end"@ || notification.event_name@ == "tool_error"@)
            ==> res == ToolActivity::Ended,
        !(notification.event_name@ == "tool_start"@ || notification.event_name@ == "tool_end"@
            || notification.event_name@ == "tool_error"@) ==> res == ToolActivity::Idle,
{
    proof {
        reveal_strlit("tool_start");
        reveal_strlit("tool_end");
        reveal_strlit("tool_error");
        assert("tool_end"@.len() != "tool_start"@.len());
        assert("tool_error"@[5] != "tool_start"@[5]);
    }
    if crate::text::str_eq(notification.event_name, "tool_start") {
        match notification.tool_name {
            Some(name) => ToolActivity::Started { name, args_preview: notification.args_preview },
            None => ToolActivity::Idle,
        }
    } else if crate::text::str_eq(notification.event_name, "tool_end") || crate::text::str_eq(
        notification.event_name,
        "tool_error",
    ) {
        ToolActivity::Ended
    } else {
        ToolActivity::Idle
    }
}

/// Whether a notification parses as a tool notification, and whether as a
/// tool error.
pub open spec fn is_tool_notification(message: Seq<char>) -> bool {
    notification_prefix(message) is Some
}

pub open spec fn is_tool_error_notification(message: Seq<char>) -> bool {
    notification_prefix(message) matches Some((name, _)) && name == "tool_error"@
}

/// The stream of an event: tool calls, tool notifications and tool inputs
/// go to the tool stream, escalations to their own, the rest to the worker
/// stream.
pub open spec fn event_kind_spec(e: AgentEvent) -> EventKind {
    match e {
        AgentEvent::ToolCallCompleted { .. } => EventKind::Tool,
        AgentEvent::ToolCallFailed { .. } => EventKind::Tool,
        AgentEvent::UnsupportedToolCall { .. } => EventKind::Tool,
        AgentEvent::ToolInputAutoAnswered { .. } => EventKind::Tool,
        AgentEvent::EscalationCreated { .. } => EventKind::EscalationCreated,
        AgentEvent::EscalationResponded { .. } => EventKind::EscalationResponded,
        AgentEvent::EscalationTimedOut { .. } => EventKind::EscalationTimedOut,
        AgentEvent::EscalationCancelled { .. } => EventKind::EscalationCancelled,
        AgentEvent::Notification { message, .. } => if is_tool_notification(message@) {
            EventKind::Tool
        } else {
            EventKind::Worker
        },
        _ => EventKind::Worker,
    }
}

pub fn event_kind_for_agent_event(event: &AgentEvent) -> (res: EventKind)
    ensures
        res == event_kind_spec(*event),
{
    match event {
        AgentEvent::ToolCallCompleted { .. } => EventKind::Tool,
        AgentEvent::ToolCallFailed { .. } => EventKind::Tool,
        AgentEvent::UnsupportedToolCall { .. } => EventKind::Tool,
        AgentEvent::ToolInputAutoAnswered { .. } => EventKind::Tool,
        AgentEvent::EscalationCreated { .. } => EventKind::EscalationCreated,
        AgentEvent::EscalationResponded { .. } => EventKind::EscalationResponded,
        AgentEvent::EscalationTimedOut { .. } => EventKind::EscalationTimedOut,
        AgentEvent::EscalationCancelled { .. } => EventKind::EscalationCancelled,
        AgentEvent::Notification { message, .. } => {
            if parse_tool_notification(message.as_str()).is_some() {
                EventKind::Tool
            } else {
                EventKind::Worker
            }
        },
        _ => EventKind::Worker,
    }
}

/// Failures, malformed events and tool-error notifications are errors;
/// cancellations, unsupported tools and expired or cancelled escalations
/// are warnings; other messages are debug; the rest is information.
pub open spec fn event_severity_spec(e: AgentEvent) -> EventSeverity {
    match e {
        AgentEvent::StartupFailed { .. } => EventSeverity::Error,
        AgentEvent::TurnFailed { .. } => EventSeverity::Error,
        AgentEvent::TurnEndedWithError { .. } => EventSeverity::Error,
        AgentEvent::ToolCallFailed { .. } => EventSeverity::Error,
        AgentEvent::Malformed { .. } => EventSeverity::Error,
        AgentEvent::Notification { message, .. } => if is_tool_error_notification(message@) {
            EventSeverity::Error
        } else {
            EventSeverity::Info
        },
        AgentEvent::TurnCancelled { .. } => EventSeverity::Warn,
        AgentEvent::UnsupportedToolCall { .. } => EventSeverity::Warn,
        AgentEvent::EscalationTimedOut { .. } => EventSeverity::Warn,
        AgentEvent::EscalationCancelled { .. } => EventSeverity::Warn,
        AgentEvent::OtherMessage { .. } => EventSeverity::Debug,
        _ => EventSeverity::Info,
    }
}

pub fn event_severity_for_agent_event(event: &AgentEvent) -> (res: EventSeverity)
    ensures
        res == event_severity_spec(*event),
{
    match event {
        AgentEvent::StartupFailed { .. } => EventSeverity::Error,
        AgentEvent::TurnFailed { .. } => EventSeverity::Error,
        AgentEvent::TurnEndedWithError { .. } => EventSeverity::Error,
        AgentEvent::ToolCallFailed { .. } => EventSeverity::Error,
        AgentEvent::Malformed { .. } => EventSeverity::Error,
        AgentEvent::Notification { message, .. } => {
            match parse_tool_notification(message.as_str()) {
                Some(p) => {
                    if crate::text::str_eq(p.event_name, "tool_error") {
                        EventSeverity::Error
                    } else {
                        EventSeverity::Info
                    }
                },
                None => EventSeverity::Info,
            }
        },
        AgentEvent::TurnCancelled { .. } => EventSeverity::Warn,
        AgentEvent::UnsupportedToolCall { .. } => EventSeverity::Warn,
        AgentEvent::EscalationTimedOut { .. } => EventSeverity::Warn,
        AgentEvent::EscalationCancelled { .. } => EventSeverity::Warn,
        AgentEvent::OtherMessage { .. } => EventSeverity::Debug,
        _ => EventSeverity::Info,
    }
}

/// The tool activity an event reports: turn and tool-call outcomes end the
/// tool in flight; tool notifications report what they announce.
pub fn extract_tool_activity(event: &AgentEvent) -> (res: ToolActivity)
    ensures
        match *event {
            AgentEvent::ToolCallCompleted { .. } | AgentEvent::ToolCallFailed { .. }
            | AgentEvent::UnsupportedToolCall { .. } | AgentEvent::TurnCompleted { .. }
            | AgentEvent::TurnFailed { .. } | AgentEvent::TurnCancelled { .. }
            | AgentEvent::TurnEndedWithError { .. } => res == ToolActivity::Ended,
            AgentEvent::Notification { message, .. } => if ends_tool_notification(message@) {
                res == ToolActivity::Ended
            } else {
                match started_tool(message@) {
                    Some((n, a)) => res matches ToolActivity::Started { name, args_preview }
                        && name@ == n && opt_view(args_preview) == a,
                    None => res == ToolActivity::Idle,
                }
            },
            _ => res == ToolActivity::Idle,
        },
{
    match event {
        AgentEvent::ToolCallCompleted { .. } | AgentEvent::ToolCallFailed { .. }
        | AgentEvent::UnsupportedToolCall { .. } | AgentEvent::TurnCompleted { .. }
        | AgentEvent::TurnFailed { .. } | AgentEvent::TurnCancelled { .. }
        | AgentEvent::TurnEndedWithError { .. } => ToolActivity::Ended,
        AgentEvent::Notification { message, .. } => {
            match parse_tool_notification(message.as_str()) {
                Some(p) => tool_activity_from_notification(p),
                None => ToolActivity::Idle,
            }
        },
        _ => ToolActivity::Idle,
    }
}

} // verus!
