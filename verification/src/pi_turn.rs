//! One prompt turn of a Pi agent session, line by line: what each line of
//! the agent's output protocol adds to the turn (an event, the latest
//! output text) and whether the turn goes on, ends, fails or waits on an
//! operator.

use vstd::prelude::*;

use crate::json::{get_field, json_get, json_str, json_text, to_json_text, JsonValue};
use crate::orchestrator::events::{opt_view, AgentEvent};
use crate::pi_agent::{auto_respond_method, is_auto_respond_method};
use crate::text::{append_decimal, decimal, eq_ignore_ascii_case, eq_ignore_case, str_eq};

verus! {

/// A line of the Pi agent's output protocol, as the turn reads it. For the
/// end of a message, `stop` is its stop reason and error message as the
/// protocol reports them.
#[derive(Debug)]
pub enum PiOutputLine {
    AgentEnd,
    Response { command: String, success: bool, error: Option<String> },
    ToolExecutionStart { tool_name: Option<String>, args: JsonValue },
    ToolExecutionEnd { tool_name: Option<String>, is_error: bool },
    AutoCompactionStart { reason: Option<String> },
    AutoCompactionEnd { aborted: bool },
    AutoRetryStart { attempt: u64, error_message: Option<String> },
    AutoRetryEnd { success: bool },
    ExtensionError { error: Option<String> },
    ExtensionUIRequest { id: String, method: String, extra: JsonValue },
    MessageUpdate { message: JsonValue },
    MessageEnd { message: JsonValue, stop: Option<(String, Option<String>)> },
    /// Any line the turn does not act on.
    Other,
}

/// What the turn does after a line.
#[derive(Debug)]
pub enum PiTurnControl {
    /// Read the next line.
    Continue,
    /// The agent ended the turn.
    EndTurn,
    /// The prompt failed with this error; the turn ends with it.
    Fail(String),
    /// An interface request waits on an operator's answer.
    Escalate { id: String, method: String, extra: JsonValue },
}

/// What a line adds to the turn: an event to record, a newer output text,
/// and what the turn does next.
#[derive(Debug)]
pub struct PiLineOutcome {
    pub event: Option<AgentEvent>,
    pub output_text: Option<String>,
    pub control: PiTurnControl,
}

/// The text of a message: the `text` of the first item of its `content`
/// that is of type `text` and has one.
pub open spec fn message_text(message: JsonValue) -> Option<Seq<char>> {
    match json_get(message, "content"@) {
        Some(JsonValue::Array(items)) => first_text_item(items@),
        _ => None,
    }
}

pub open spec fn is_text_item(item: JsonValue) -> bool {
    match json_get(item, "type"@) {
        Some(t) => json_str(t) == Some("text"@),
        None => false,
    }
}

pub open spec fn first_text_item(items: Seq<JsonValue>) -> Option<Seq<char>>
    decreases items.len(),
{
    if items.len() == 0 {
        None
    } else {
        let here = if is_text_item(items[0]) {
            match json_get(items[0], "text"@) {
                Some(t) => json_str(t),
                None => None,
            }
        } else {
            None
        };
        match here {
            Some(t) => Some(t),
            None => first_text_item(items.drop_first()),
        }
    }
}

fn str_value(v: Option<&JsonValue>) -> (res: Option<&str>)
    ensures
        match res {
            Some(s) => v matches Some(x) && json_str(*x) == Some(s@),
            None => v matches Some(x) ==> json_str(*x) is None,
        },
{
    match v {
        Some(JsonValue::Str(s)) => Some(s.as_str()),
        _ => None,
    }
}

/// The text of a message, if it has one.
pub fn maybe_extract_text(message: &JsonValue) -> (res: Option<String>)
    ensures
        opt_view(res) == message_text(*message),
{
    proof {
        reveal_strlit("text");
    }
    let items = match get_field(message, "content") {
        Some(JsonValue::Array(items)) => items,
        _ => {
            return None;
        },
    };
    let mut i: usize = 0;
    proof {
        assert(items@.subrange(0, items@.len() as int) =~= items@);
    }
    while i < items.len()
        invariant
            i <= items@.len(),
            message_text(*message) == first_text_item(items@.subrange(i as int, items@.len() as int)),
        decreases items@.len() - i,
    {
        proof {
            let rest = items@.subrange(i as int, items@.len() as int);
            assert(rest[0] == items@[i as int]);
            assert(rest.drop_first() =~= items@.subrange(i + 1, items@.len() as int));
        }
        let item = &items[i];
        let is_text = match str_value(get_field(item, "type")) {
            Some(t) => str_eq(t, "text"),
            None => false,
        };
        if is_text {
            match str_value(get_field(item, "text")) {
                Some(t) => {
                    return Some(t.to_owned());
                },
                None => {},
            }
        }
        i = i + 1;
    }
    None
}

pub open spec fn name_or_unknown(o: Option<String>) -> Seq<char> {
    match o {
        Some(n) => n@,
        None => "unknown"@,
    }
}

pub open spec fn bool_text(b: bool) -> Seq<char> {
    if b {
        "true"@
    } else {
        "false"@
    }
}

/// The notification a line is recorded as, if any.
pub open spec fn line_notification(line: PiOutputLine) -> Option<Seq<char>> {
    match line {
        PiOutputLine::ToolExecutionStart { tool_name, args } => Some(
            "tool_start: "@ + name_or_unknown(tool_name) + " "@ + json_text(args),
        ),
        PiOutputLine::ToolExecutionEnd { tool_name, is_error } => Some(
            if is_error {
                "tool_error: "@
            } else {
                "tool_end: "@
            } + name_or_unknown(tool_name),
        ),
        PiOutputLine::AutoCompactionStart { reason } => Some(
            "auto_compaction_start: "@ + name_or_unknown(reason),
        ),
        PiOutputLine::AutoCompactionEnd { aborted } => Some(
            "auto_compaction_end: aborted="@ + bool_text(aborted),
        ),
        PiOutputLine::AutoRetryStart { attempt, error_message } => Some(
            "auto_retry_start: attempt="@ + decimal(attempt as nat) + " error="@ + match error_message {
                Some(m) => m@,
                None => Seq::empty(),
            },
        ),
        PiOutputLine::AutoRetryEnd { success } => Some("auto_retry_end: success="@ + bool_text(success)),
        PiOutputLine::ExtensionError { error } => match error {
            Some(e) => Some("extension_error: "@ + e@),
            None => None,
        },
        _ => None,
    }
}

/// The error a message's end reports: when its stop reason is `error`
/// (ignoring ASCII case), its error message, else a text naming the reason.
pub open spec fn stop_error(stop: Option<(String, Option<String>)>) -> Option<Seq<char>> {
    match stop {
        Some((reason, message)) => if eq_ignore_case(reason@, "error"@) {
            Some(
                match message {
                    Some(m) => m@,
                    None => "pi-agent reported stopReason='"@ + reason@ + "'"@,
                },
            )
        } else {
            None
        },
        None => None,
    }
}

/// What a line does to the turn. The agent's end ends it; a failed prompt
/// response fails it (with its error, else `prompt command failed`) and is
/// recorded as a failed turn; tool, compaction, retry and extension-error
/// lines are recorded as notifications; an interface request that needs an
/// answer waits on an operator; a message update or end gives the latest
/// output text, and an end that stopped on an error is recorded as a turn
/// that ended with that error while the turn goes on (the agent retries);
/// every other line is passed over.
pub open spec fn pi_line_ok(line: PiOutputLine, now_ms: i64, o: PiLineOutcome) -> bool {
    match line {
        PiOutputLine::AgentEnd => o.event is None && o.output_text is None && o.control is EndTurn,
        PiOutputLine::Response { command, success, error } => if command@ == "prompt"@ && !success {
            let e = match error {
                Some(x) => x@,
                None => "prompt command failed"@,
            };
            &&& o.output_text is None
            &&& o.control matches PiTurnControl::Fail(m) && m@ == e
            &&& o.event matches Some(AgentEvent::TurnFailed { timestamp_ms, error: x }) && timestamp_ms
                == now_ms && x@ == e
        } else {
            o.event is None && o.output_text is None && o.control is Continue
        },
        PiOutputLine::ExtensionUIRequest { id, method, extra } => {
            &&& o.event is None
            &&& o.output_text is None
            &&& if auto_respond_method(method@) {
                o.control is Continue
            } else {
                o.control matches PiTurnControl::Escalate { id: i, method: m, extra: x } && i@ == id@
                    && m@ == method@ && x == extra
            }
        },
        PiOutputLine::MessageUpdate { message } => {
            &&& o.event is None
            &&& opt_view(o.output_text) == message_text(message)
            &&& o.control is Continue
        },
        PiOutputLine::MessageEnd { message, stop } => {
            &&& opt_view(o.output_text) == message_text(message)
            &&& o.control is Continue
            &&& match stop_error(stop) {
                Some(e) => o.event matches Some(AgentEvent::TurnEndedWithError { timestamp_ms, error })
                    && timestamp_ms == now_ms && error@ == e,
                None => o.event is None,
            }
        },
        _ => {
            &&& o.output_text is None
            &&& o.control is Continue
            &&& match line_notification(line) {
                Some(m) => o.event matches Some(AgentEvent::Notification { timestamp_ms, message })
                    && timestamp_ms == now_ms && message@ == m,
                None => o.event is None,
            }
        },
    }
}

fn name_text(o: Option<String>) -> (res: String)
    ensures
        res@ == name_or_unknown(o),
{
    match o {
        Some(n) => n,
        None => "unknown".to_owned(),
    }
}

fn append_bool(out: &mut String, b: bool)
    ensures
        final(out)@ == old(out)@ + bool_text(b),
{
    if b {
        out.append("true");
    } else {
        out.append("false");
    }
}

fn notification(now_ms: i64, message: String) -> (res: PiLineOutcome)
    ensures
        res.output_text is None,
        res.control is Continue,
        res.event matches Some(AgentEvent::Notification { timestamp_ms, message: m }) && timestamp_ms
            == now_ms && m@ == message@,
{
    PiLineOutcome {
        event: Some(AgentEvent::Notification { timestamp_ms: now_ms, message }),
        output_text: None,
        control: PiTurnControl::Continue,
    }
}

fn passed_over() -> (res: PiLineOutcome)
    ensures
        res.event is None && res.output_text is None && res.control is Continue,
{
    PiLineOutcome { event: None, output_text: None, control: PiTurnControl::Continue }
}

fn message_end_outcome(message: &JsonValue, stop: Option<(String, Option<String>)>, now_ms: i64) -> (res:
    PiLineOutcome)
    ensures
        opt_view(res.output_text) == message_text(*message),
        res.control is Continue,
        match stop_error(stop) {
            Some(e) => res.event matches Some(AgentEvent::TurnEndedWithError { timestamp_ms, error })
                && timestamp_ms == now_ms && error@ == e,
            None => res.event is None,
        },
{
    let output_text = maybe_extract_text(message);
    let event = match stop {
        Some((reason, msg)) => {
            if eq_ignore_ascii_case(reason.as_str(), "error") {
                let error = match msg {
                    Some(m) => m,
                    None => {
                        let mut t = "pi-agent reported stopReason='".to_owned();
                        t.append(reason.as_str());
                        t.append("'");
                        t
                    },
                };
                Some(AgentEvent::TurnEndedWithError { timestamp_ms: now_ms, error })
            } else {
                None
            }
        },
        None => None,
    };
    PiLineOutcome { event, output_text, control: PiTurnControl::Continue }
}

/// Read one line of a turn; `now_ms` stamps the event it records.
pub fn pi_turn_line(line: PiOutputLine, now_ms: i64) -> (res: PiLineOutcome)
    ensures
        pi_line_ok(line, now_ms, res),
{
    proof {
        reveal_strlit("prompt");
    }
    match line {
        PiOutputLine::AgentEnd => PiLineOutcome {
            event: None,
            output_text: None,
            control: PiTurnControl::EndTurn,
        },
        PiOutputLine::Response { command, success, error } => {
            if str_eq(command.as_str(), "prompt") && !success {
                let e = match error {
                    Some(x) => x,
                    None => "prompt command failed".to_owned(),
                };
                let event = AgentEvent::TurnFailed { timestamp_ms: now_ms, error: e.clone() };
                PiLineOutcome { event: Some(event), output_text: None, control: PiTurnControl::Fail(e) }
            } else {
                passed_over()
            }
        },
        PiOutputLine::ToolExecutionStart { tool_name, args } => {
            let mut m = "tool_start: ".to_owned();
            let name = name_text(tool_name);
            m.append(name.as_str());
            m.append(" ");
            let payload = to_json_text(&args);
            m.append(payload.as_str());
            notification(now_ms, m)
        },
        PiOutputLine::ToolExecutionEnd { tool_name, is_error } => {
            let mut m = if is_error {
                "tool_error: ".to_owned()
            } else {
                "tool_end: ".to_owned()
            };
            let name = name_text(tool_name);
            m.append(name.as_str());
            notification(now_ms, m)
        },
        PiOutputLine::AutoCompactionStart { reason } => {
            let mut m = "auto_compaction_start: ".to_owned();
            let r = name_text(reason);
            m.append(r.as_str());
            notification(now_ms, m)
        },
        PiOutputLine::AutoCompactionEnd { aborted } => {
            let mut m = "auto_compaction_end: aborted=".to_owned();
            append_bool(&mut m, aborted);
            notification(now_ms, m)
        },
        PiOutputLine::AutoRetryStart { attempt, error_message } => {
            let mut m = "auto_retry_start: attempt=".to_owned();
            append_decimal(&mut m, attempt);
            m.append(" error=");
            match error_message {
                Some(e) => m.append(e.as_str()),
                None => {},
            }
            notification(now_ms, m)
        },
        PiOutputLine::AutoRetryEnd { success } => {
            let mut m = "auto_retry_end: success=".to_owned();
            append_bool(&mut m, success);
            notification(now_ms, m)
        },
        PiOutputLine::ExtensionError { error } => match error {
            Some(e) => {
                let mut m = "extension_error: ".to_owned();
                m.append(e.as_str());
                notification(now_ms, m)
            },
            None => passed_over(),
        },
        PiOutputLine::ExtensionUIRequest { id, method, extra } => {
            if is_auto_respond_method(method.as_str()) {
                passed_over()
            } else {
                PiLineOutcome {
                    event: None,
                    output_text: None,
                    control: PiTurnControl::Escalate { id, method, extra },
                }
            }
        },
        PiOutputLine::MessageUpdate { message } => PiLineOutcome {
            event: None,
            output_text: maybe_extract_text(&message),
            control: PiTurnControl::Continue,
        },
        PiOutputLine::MessageEnd { message, stop } => message_end_outcome(&message, stop, now_ms),
        PiOutputLine::Other => passed_over(),
    }
}

} // verus!
