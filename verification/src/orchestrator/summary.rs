//! The one-line summaries shown for agent events: the event's name and a
//! short message, token counts read out of protocol notifications, and the
//! error preview a failing event carries.

use vstd::prelude::*;

use crate::json::{
    deref_json, find_preferred_text, get_field, integer_like, integer_like_spec, json_at_path,
    json_get, json_str, json_text, parse_json, parsed_json, preferred_text, to_json_text,
    value_at_path, JsonValue, MAX_TEXT_SEARCH_DEPTH,
};
use crate::orchestrator::events::{
    agent_event_name, event_name, non_empty_text, notification_prefix, opt_view,
    parse_tool_notification, truncate_for_display, truncate_spec, AgentEvent,
};
use crate::text::{
    append_decimal, contains_seq, contains_str, decimal, join_seqs, normalize_whitespace,
    normalize_ws_spec, str_eq, trim_start_seq,
};

verus! {

/// The first unsigned integer found at one of the paths, in order.
pub open spec fn first_u64_spec(v: JsonValue, paths: Seq<Seq<Seq<char>>>) -> Option<nat>
    decreases paths.len(),
{
    if paths.len() == 0 {
        None
    } else {
        let here = match json_at_path(v, paths[0]) {
            Some(x) => integer_like_spec(x),
            None => None,
        };
        match here {
            Some(n) => Some(n),
            None => first_u64_spec(v, paths.drop_first()),
        }
    }
}

pub open spec fn path_views(paths: Seq<&[&str]>) -> Seq<Seq<Seq<char>>> {
    paths.map_values(|p: &[&str]| p@.map_values(|s: &str| s@))
}

/// The first unsigned integer found at one of the paths.
pub fn first_u64_at_paths(v: &JsonValue, paths: &[&[&str]]) -> (res: Option<u64>)
    ensures
        match res {
            Some(n) => first_u64_spec(*v, path_views(paths@)) == Some(n as nat),
            None => first_u64_spec(*v, path_views(paths@)) is None,
        },
{
    let ghost all = path_views(paths@);
    let mut i: usize = 0;
    proof {
        assert(all.subrange(0, all.len() as int) =~= all);
    }
    while i < paths.len()
        invariant
            i <= paths@.len(),
            all == path_views(paths@),
            first_u64_spec(*v, all) == first_u64_spec(*v, all.subrange(i as int, all.len() as int)),
        decreases paths@.len() - i,
    {
        let ghost rest = all.subrange(i as int, all.len() as int);
        proof {
            assert(rest[0] == paths@[i as int]@.map_values(|s: &str| s@));
            assert(rest.drop_first() =~= all.subrange(i + 1, all.len() as int));
        }
        match value_at_path(v, paths[i]) {
            Some(x) => match integer_like(x) {
                Some(n) => {
                    return Some(n);
                },
                None => {},
            },
            None => {},
        }
        i = i + 1;
    }
    None
}

/// Where a token counter is looked for, under its snake-case and camel-case
/// names.
pub open spec fn token_paths(snake: Seq<char>, camel: Seq<char>) -> Seq<Seq<Seq<char>>> {
    seq![
        seq!["params"@, "tokenUsage"@, "total"@, snake],
        seq!["params"@, "tokenUsage"@, "total"@, camel],
        seq!["params"@, "msg"@, "payload"@, "info"@, "total_token_usage"@, snake],
    ]
}

fn token_counter(v: &JsonValue, snake: &str, camel: &str) -> (res: Option<u64>)
    ensures
        match res {
            Some(n) => first_u64_spec(*v, token_paths(snake@, camel@)) == Some(n as nat),
            None => first_u64_spec(*v, token_paths(snake@, camel@)) is None,
        },
{
    let a: [&str; 4] = ["params", "tokenUsage", "total", snake];
    let b: [&str; 4] = ["params", "tokenUsage", "total", camel];
    let c: [&str; 6] = ["params", "msg", "payload", "info", "total_token_usage", snake];
    let paths: [&[&str]; 3] = [a.as_slice(), b.as_slice(), c.as_slice()];
    proof {
        assert(path_views(paths@) =~= token_paths(snake@, camel@)) by {
            assert(paths@[0]@.map_values(|s: &str| s@) =~= token_paths(snake@, camel@)[0]);
            assert(paths@[1]@.map_values(|s: &str| s@) =~= token_paths(snake@, camel@)[1]);
            assert(paths@[2]@.map_values(|s: &str| s@) =~= token_paths(snake@, camel@)[2]);
        }
    }
    first_u64_at_paths(v, paths.as_slice())
}

/// A counter shown as `label` and its value, when it was found.
pub open spec fn token_piece(label: Seq<char>, n: Option<nat>) -> Seq<Seq<char>> {
    match n {
        Some(x) => seq![label + decimal(x)],
        None => Seq::empty(),
    }
}

/// `tokens in I / out O / total T` with the counters that were found.
pub open spec fn token_summary(payload: JsonValue) -> Option<Seq<char>> {
    let pieces = token_piece(
        "in "@,
        first_u64_spec(payload, token_paths("input_tokens"@, "inputTokens"@)),
    ) + token_piece("out "@, first_u64_spec(payload, token_paths("output_tokens"@, "outputTokens"@)))
        + token_piece(
        "total "@,
        first_u64_spec(payload, token_paths("total_tokens"@, "totalTokens"@)),
    );
    if pieces.len() > 0 {
        Some("tokens "@ + join_seqs(pieces, " / "@))
    } else {
        None
    }
}

/// The readable text of a message: from its `params` first, else from the
/// whole message.
pub open spec fn params_or_whole_text(v: JsonValue) -> Option<Seq<char>> {
    let from_params = match json_get(v, "params"@) {
        Some(p) => preferred_text(p, MAX_TEXT_SEARCH_DEPTH as nat),
        None => None,
    };
    match from_params {
        Some(t) => Some(t),
        None => preferred_text(v, MAX_TEXT_SEARCH_DEPTH as nat),
    }
}

/// The summary of a notification's payload: its token counters for a
/// token-count notification that has any, else its readable text.
pub open spec fn payload_summary_spec(name: Seq<char>, payload: JsonValue) -> Option<Seq<char>> {
    let tokens = if contains_seq(name, "token_count"@) {
        token_summary(payload)
    } else {
        None
    };
    match tokens {
        Some(t) => Some(t),
        None => params_or_whole_text(payload),
    }
}

/// A message's `method` when it is a string, else the fallback name.
pub open spec fn method_or(v: JsonValue, fallback: Seq<char>) -> Seq<char> {
    match json_get(v, "method"@) {
        Some(m) => match json_str(m) {
            Some(s) => s,
            None => fallback,
        },
        None => fallback,
    }
}

fn push_piece(pieces: &mut Vec<String>, label: &str, n: Option<u64>)
    ensures
        final(pieces)@.map_values(|s: String| s@) == old(pieces)@.map_values(|s: String| s@)
            + token_piece(
            label@,
            match n {
                Some(x) => Some(x as nat),
                None => None,
            },
        ),
{
    match n {
        Some(x) => {
            let mut s = label.to_owned();
            append_decimal(&mut s, x);
            let ghost before = pieces@.map_values(|s: String| s@);
            pieces.push(s);
            proof {
                assert(pieces@.map_values(|s: String| s@) =~= before + token_piece(
                    label@,
                    Some(x as nat),
                ));
            }
        },
        None => {
            proof {
                assert(pieces@.map_values(|s: String| s@) =~= pieces@.map_values(|s: String| s@)
                    + Seq::<Seq<char>>::empty());
            }
        },
    }
}

fn join_pieces(pieces: &Vec<String>, sep: &str) -> (res: String)
    ensures
        res@ == join_seqs(pieces@.map_values(|s: String| s@), sep@),
{
    let ghost views = pieces@.map_values(|s: String| s@);
    let n = pieces.len();
    if n == 0 {
        return String::new();
    }
    let mut out = pieces[n - 1].clone();
    let mut i: usize = n - 1;
    proof {
        assert(views.subrange(n - 1, n as int) =~= seq![views[n - 1]]);
    }
    while i > 0
        invariant
            0 <= i < n,
            n == pieces@.len(),
            views == pieces@.map_values(|s: String| s@),
            out@ == join_seqs(views.subrange(i as int, n as int), sep@),
        decreases i,
    {
        let mut next = pieces[i - 1].clone();
        next.append(sep);
        next.append(out.as_str());
        proof {
            let tail = views.subrange(i - 1, n as int);
            assert(tail.drop_first() =~= views.subrange(i as int, n as int));
            assert(tail[0] == views[i - 1]);
        }
        out = next;
        i = i - 1;
    }
    proof {
        assert(views.subrange(0, n as int) =~= views);
    }
    out
}

fn token_count_summary(payload: &JsonValue) -> (res: Option<String>)
    ensures
        opt_view(res) == token_summary(*payload),
{
    let mut pieces: Vec<String> = Vec::new();
    push_piece(&mut pieces, "in ", token_counter(payload, "input_tokens", "inputTokens"));
    push_piece(&mut pieces, "out ", token_counter(payload, "output_tokens", "outputTokens"));
    push_piece(&mut pieces, "total ", token_counter(payload, "total_tokens", "totalTokens"));
    proof {
        assert(Seq::<Seq<char>>::empty() + token_piece(
            "in "@,
            first_u64_spec(*payload, token_paths("input_tokens"@, "inputTokens"@)),
        ) =~= token_piece(
            "in "@,
            first_u64_spec(*payload, token_paths("input_tokens"@, "inputTokens"@)),
        ));
    }
    if pieces.len() > 0 {
        let mut out = "tokens ".to_owned();
        let joined = join_pieces(&pieces, " / ");
        out.append(joined.as_str());
        Some(out)
    } else {
        None
    }
}

fn params_or_whole(v: &JsonValue) -> (res: Option<String>)
    ensures
        opt_view(res) == params_or_whole_text(*v),
{
    let from_params = match get_field(v, "params") {
        Some(p) => find_preferred_text(p),
        None => None,
    };
    match from_params {
        Some(t) => Some(t),
        None => find_preferred_text(v),
    }
}

/// The summary of a notification's payload.
pub fn summarize_notification_payload(name: &str, payload: &JsonValue) -> (res: Option<String>)
    ensures
        opt_view(res) == payload_summary_spec(name@, *payload),
{
    if contains_str(name, "token_count") {
        let tokens = token_count_summary(payload);
        if tokens.is_some() {
            return tokens;
        }
    }
    params_or_whole(payload)
}

fn method_name(v: &JsonValue, fallback: &str) -> (res: String)
    ensures
        res@ == method_or(*v, fallback@),
{
    match get_field(v, "method") {
        Some(JsonValue::Str(s)) => s.clone(),
        _ => fallback.to_owned(),
    }
}

/// The name and summary of a message no other event covers: its method
/// (or `other_message`) and its readable text.
pub open spec fn other_message_summary_spec(raw: JsonValue) -> (Seq<char>, Option<Seq<char>>) {
    (method_or(raw, "other_message"@), params_or_whole_text(raw))
}

pub fn other_message_summary(raw: &JsonValue) -> (res: (String, Option<String>))
    ensures
        (res.0@, opt_view(res.1)) == other_message_summary_spec(*raw),
{
    (method_name(raw, "other_message"), params_or_whole(raw))
}

/// The name and summary of a notification that is not a tool notification,
/// given its message parsed as JSON (`None` when it is not JSON): text that
/// is not JSON is shown normalized under `notification`; JSON shows its
/// method and payload summary, else its `params` as compact JSON.
pub open spec fn notification_summary_spec(message: Seq<char>, parsed: Option<JsonValue>) -> (
    Seq<char>,
    Option<Seq<char>>,
) {
    match parsed {
        None => ("notification"@, non_empty_text(normalize_ws_spec(message))),
        Some(p) => {
            let name = method_or(p, "notification"@);
            let summary = match payload_summary_spec(name, p) {
                Some(t) => Some(t),
                None => match json_get(p, "params"@) {
                    Some(params) => Some(normalize_ws_spec(json_text(params))),
                    None => None,
                },
            };
            (name, summary)
        },
    }
}

/// The name and message of a notification that is not a tool
/// notification, given its message and what reading it as JSON gave.
pub fn notification_event_summary_with(message: &str, parsed: Option<&JsonValue>) -> (res: (
    String,
    Option<String>,
))
    ensures
        (res.0@, opt_view(res.1)) == notification_summary_spec(message@, deref_json(parsed)),
{
    match parsed {
        None => {
            let t = normalize_whitespace(message);
            if t.unicode_len() > 0 {
                ("notification".to_owned(), Some(t))
            } else {
                ("notification".to_owned(), None)
            }
        },
        Some(p) => {
            let name = method_name(p, "notification");
            let summary = match summarize_notification_payload(name.as_str(), p) {
                Some(t) => Some(t),
                None => match get_field(p, "params") {
                    Some(params) => {
                        let text = to_json_text(params);
                        Some(normalize_whitespace(text.as_str()))
                    },
                    None => None,
                },
            };
            (name, summary)
        },
    }
}

/// An escalation's responder, or `operator` when none is named.
pub open spec fn responder_text(r: Option<String>) -> Seq<char> {
    match r {
        Some(x) => x@,
        None => "operator"@,
    }
}

/// The name of an event and its message before it is cut for display.
pub open spec fn event_message(e: AgentEvent, notification_payload: Option<JsonValue>) -> (
    Seq<char>,
    Option<Seq<char>>,
) {
    let name = agent_event_name(e);
    match e {
        AgentEvent::SessionStarted { session_id, .. } => (name, Some("session "@ + session_id@)),
        AgentEvent::StartupFailed { error, .. } => (name, Some(error@)),
        AgentEvent::TurnCompleted { message, .. } => (
            name,
            Some(
                match message {
                    Some(m) => m@,
                    None => "turn completed"@,
                },
            ),
        ),
        AgentEvent::TurnFailed { error, .. } => (name, Some(error@)),
        AgentEvent::TurnCancelled { .. } => (name, Some("turn cancelled"@)),
        AgentEvent::TurnEndedWithError { error, .. } => (name, Some(error@)),
        AgentEvent::TurnInputRequired { prompt, .. } => (
            name,
            Some(
                match prompt {
                    Some(p) => p@,
                    None => "input required"@,
                },
            ),
        ),
        AgentEvent::ApprovalAutoApproved { tool_call, .. } => (
            name,
            Some("auto-approved "@ + tool_call@),
        ),
        AgentEvent::ApprovalRequired { method, .. } => (
            name,
            Some("approval required: "@ + method@),
        ),
        AgentEvent::ToolCallCompleted { tool_name, .. } => (name, Some("completed "@ + tool_name@)),
        AgentEvent::ToolCallFailed { tool_name, .. } => (
            name,
            Some(
                match tool_name {
                    Some(t) => "tool "@ + t@ + " failed"@,
                    None => "tool call failed"@,
                },
            ),
        ),
        AgentEvent::ToolInputAutoAnswered { .. } => (name, Some("tool input auto-answered"@)),
        AgentEvent::UnsupportedToolCall { tool_name, .. } => (
            name,
            Some("unsupported tool "@ + tool_name@),
        ),
        AgentEvent::EscalationCreated { request, .. } => (
            name,
            Some(request.issue_identifier@ + " needs input: "@ + truncate_spec(request.method@, 80)),
        ),
        AgentEvent::EscalationResponded { request_id, responder_id, latency_ms, .. } => (
            name,
            Some(
                "request "@ + request_id@ + " responded by "@ + responder_text(responder_id)
                    + " in "@ + decimal(latency_ms as nat) + "ms"@,
            ),
        ),
        AgentEvent::EscalationTimedOut { request_id, timeout_ms, .. } => (
            name,
            Some("request "@ + request_id@ + " timed out after "@ + decimal(timeout_ms as nat) + "ms"@),
        ),
        AgentEvent::EscalationCancelled { request_id, reason, .. } => (
            name,
            Some("request "@ + request_id@ + " cancelled: "@ + reason@),
        ),
        AgentEvent::Notification { message, .. } => match notification_prefix(message@) {
            Some((event, rest)) => (event, non_empty_text(normalize_ws_spec(trim_start_seq(rest)))),
            None => notification_summary_spec(message@, notification_payload),
        },
        AgentEvent::OtherMessage { raw, .. } => other_message_summary_spec(raw),
        AgentEvent::Malformed { parse_error, raw_text, .. } => (
            name,
            Some("malformed event: "@ + parse_error@ + "; "@ + normalize_ws_spec(raw_text@)),
        ),
    }
}

/// A message as it is shown: cut to 160 characters, and nothing when empty.
pub open spec fn shown_message(m: Option<Seq<char>>) -> Option<Seq<char>> {
    match m {
        Some(t) => non_empty_text(truncate_spec(t, 160)),
        None => None,
    }
}

/// The name and shown message of an event.
pub open spec fn event_summary_spec(e: AgentEvent, notification_payload: Option<JsonValue>) -> (
    Seq<char>,
    Option<Seq<char>>,
) {
    (event_message(e, notification_payload).0, shown_message(event_message(e, notification_payload).1))
}

fn show(m: Option<String>) -> (res: Option<String>)
    ensures
        opt_view(res) == shown_message(opt_view(m)),
{
    match m {
        Some(t) => {
            let cut = truncate_for_display(t.as_str(), 160);
            if cut.unicode_len() > 0 {
                Some(cut)
            } else {
                None
            }
        },
        None => None,
    }
}

fn concat2(a: &str, b: &str) -> (res: String)
    ensures
        res@ == a@ + b@,
{
    let mut s = a.to_owned();
    s.append(b);
    s
}

fn concat3(a: &str, b: &str, c: &str) -> (res: String)
    ensures
        res@ == a@ + b@ + c@,
{
    let mut s = a.to_owned();
    s.append(b);
    s.append(c);
    s
}

fn escalation_message(e: &AgentEvent) -> (res: String)
    requires
        e is EscalationCreated || e is EscalationResponded || e is EscalationTimedOut
            || e is EscalationCancelled,
    ensures
        event_message(*e, None).1 == Some(res@),
{
    match e {
        AgentEvent::EscalationCreated { request, .. } => {
            let method = truncate_for_display(request.method.as_str(), 80);
            concat3(request.issue_identifier.as_str(), " needs input: ", method.as_str())
        },
        AgentEvent::EscalationResponded { request_id, responder_id, latency_ms, .. } => {
            let mut s = concat3("request ", request_id.as_str(), " responded by ");
            match responder_id {
                Some(r) => s.append(r.as_str()),
                None => s.append("operator"),
            }
            s.append(" in ");
            append_decimal(&mut s, *latency_ms);
            s.append("ms");
            s
        },
        AgentEvent::EscalationTimedOut { request_id, timeout_ms, .. } => {
            let mut s = concat3("request ", request_id.as_str(), " timed out after ");
            append_decimal(&mut s, *timeout_ms);
            s.append("ms");
            s
        },
        AgentEvent::EscalationCancelled { request_id, reason, .. } => {
            let mut s = concat3("request ", request_id.as_str(), " cancelled: ");
            s.append(reason.as_str());
            s
        },
        _ => String::new(),
    }
}

fn malformed_message(parse_error: &str, raw_text: &str) -> (res: String)
    ensures
        res@ == "malformed event: "@ + parse_error@ + "; "@ + normalize_ws_spec(raw_text@),
{
    let mut s = concat3("malformed event: ", parse_error, "; ");
    let raw = normalize_whitespace(raw_text);
    s.append(raw.as_str());
    s
}

fn event_message_exec(event: &AgentEvent, notification_payload: Option<&JsonValue>) -> (res: (
    String,
    Option<String>,
))
    ensures
        (res.0@, opt_view(res.1)) == event_message(*event, deref_json(notification_payload)),
{
    let name = event_name(event).to_owned();
    match event {
        AgentEvent::SessionStarted { session_id, .. } => (
            name,
            Some(concat2("session ", session_id.as_str())),
        ),
        AgentEvent::StartupFailed { error, .. } => (name, Some(error.clone())),
        AgentEvent::TurnCompleted { message, .. } => (
            name,
            Some(
                match message {
                    Some(m) => m.clone(),
                    None => "turn completed".to_owned(),
                },
            ),
        ),
        AgentEvent::TurnFailed { error, .. } => (name, Some(error.clone())),
        AgentEvent::TurnCancelled { .. } => (name, Some("turn cancelled".to_owned())),
        AgentEvent::TurnEndedWithError { error, .. } => (name, Some(error.clone())),
        AgentEvent::TurnInputRequired { prompt, .. } => (
            name,
            Some(
                match prompt {
                    Some(p) => p.clone(),
                    None => "input required".to_owned(),
                },
            ),
        ),
        AgentEvent::ApprovalAutoApproved { tool_call, .. } => (
            name,
            Some(concat2("auto-approved ", tool_call.as_str())),
        ),
        AgentEvent::ApprovalRequired { method, .. } => (
            name,
            Some(concat2("approval required: ", method.as_str())),
        ),
        AgentEvent::ToolCallCompleted { tool_name, .. } => (
            name,
            Some(concat2("completed ", tool_name.as_str())),
        ),
        AgentEvent::ToolCallFailed { tool_name, .. } => (
            name,
            Some(
                match tool_name {
                    Some(t) => concat3("tool ", t.as_str(), " failed"),
                    None => "tool call failed".to_owned(),
                },
            ),
        ),
        AgentEvent::ToolInputAutoAnswered { .. } => (
            name,
            Some("tool input auto-answered".to_owned()),
        ),
        AgentEvent::UnsupportedToolCall { tool_name, .. } => (
            name,
            Some(concat2("unsupported tool ", tool_name.as_str())),
        ),
        AgentEvent::EscalationCreated { .. } | AgentEvent::EscalationResponded { .. }
        | AgentEvent::EscalationTimedOut { .. } | AgentEvent::EscalationCancelled { .. } => (
            name,
            Some(escalation_message(event)),
        ),
        AgentEvent::Notification { message, .. } => match parse_tool_notification(message.as_str()) {
            Some(n) => (n.event_name.to_owned(), n.summary),
            None => notification_event_summary_with(message.as_str(), notification_payload),
        },
        AgentEvent::OtherMessage { raw, .. } => other_message_summary(raw),
        AgentEvent::Malformed { parse_error, raw_text, .. } => (
            name,
            Some(malformed_message(parse_error.as_str(), raw_text.as_str())),
        ),
    }
}

/// The name and shown message of an agent event, given what its message
/// read as JSON gave when it is a notification (`None` when it is not JSON,
/// and for every other event); a tool notification is summarized by its
/// own text.
pub fn event_summary_with(event: &AgentEvent, notification_payload: Option<&JsonValue>) -> (res: (
    String,
    Option<String>,
))
    ensures
        (res.0@, opt_view(res.1)) == event_summary_spec(*event, deref_json(notification_payload)),
{
    let (name, message) = event_message_exec(event, notification_payload);
    (name, show(message))
}

/// What a notification's message reads as, as JSON; nothing for every
/// other event.
pub open spec fn notification_json(e: AgentEvent) -> Option<JsonValue> {
    match e {
        AgentEvent::Notification { message, .. } => parsed_json(message@),
        _ => None,
    }
}

/// The name and message of a notification that is not a tool
/// notification; its message is read as JSON.
pub fn notification_event_summary(message: &str) -> (res: (String, Option<String>))
    ensures
        (res.0@, opt_view(res.1)) == notification_summary_spec(message@, parsed_json(message@)),
{
    let parsed = parse_json(message);
    match parsed {
        Some(p) => notification_event_summary_with(message, Some(&p)),
        None => notification_event_summary_with(message, None),
    }
}

/// The name and shown message of an agent event; a notification's message
/// is read as JSON.
pub fn event_summary(event: &AgentEvent) -> (res: (String, Option<String>))
    ensures
        (res.0@, opt_view(res.1)) == event_summary_spec(*event, notification_json(*event)),
{
    let parsed: Option<JsonValue> = match event {
        AgentEvent::Notification { message, .. } => parse_json(message.as_str()),
        _ => None,
    };
    match parsed {
        Some(p) => event_summary_with(event, Some(&p)),
        None => event_summary_with(event, None),
    }
}

pub open spec fn opt_str_view(o: Option<&str>) -> Option<Seq<char>> {
    match o {
        Some(s) => Some(s@),
        None => None,
    }
}

/// What a tool-error notification shows.
pub open spec fn tool_error_preview_text(
    message: Seq<char>,
    current_tool: Option<Seq<char>>,
    current_args: Option<Seq<char>>,
) -> Option<Seq<char>> {
    match notification_prefix(message) {
        Some((event, rest)) => if event == "tool_error"@ {
            let summary = non_empty_text(normalize_ws_spec(trim_start_seq(rest)));
            let tool = match summary {
                Some(t) => t,
                None => "tool"@,
            };
            match current_args {
                Some(p) => if current_tool is None || current_tool == Some(tool) || summary is None {
                    Some(tool + ": "@ + p)
                } else {
                    summary
                },
                None => summary,
            }
        } else {
            None
        },
        None => None,
    }
}

/// The error a failing event shows, before it is cut for display. A tool
/// error names its tool (or `tool`) with the arguments of the tool in
/// flight when that is the same tool, or no tool is known to be in flight,
/// or the error names none; otherwise its own text. A failed tool call
/// names its tool; failed turns and startups show their error; a malformed
/// line shows why and what it was.
pub open spec fn error_preview_text(
    e: AgentEvent,
    current_tool: Option<Seq<char>>,
    current_args: Option<Seq<char>>,
) -> Option<Seq<char>> {
    match e {
        AgentEvent::Notification { message, .. } => tool_error_preview_text(
            message@,
            current_tool,
            current_args,
        ),
        AgentEvent::ToolCallFailed { tool_name, .. } => match tool_name {
            Some(t) => Some("tool failed: "@ + t@),
            None => None,
        },
        AgentEvent::TurnFailed { error, .. } => Some(error@),
        AgentEvent::StartupFailed { error, .. } => Some(error@),
        AgentEvent::TurnEndedWithError { error, .. } => Some(error@),
        AgentEvent::Malformed { parse_error, raw_text, .. } => Some(
            "malformed event: "@ + parse_error@ + "; "@ + normalize_ws_spec(raw_text@),
        ),
        _ => None,
    }
}

fn tool_error_preview(
    message: &str,
    current_tool_name: Option<&str>,
    current_tool_args_preview: Option<&str>,
) -> (res: Option<String>)
    ensures
        opt_view(res) == tool_error_preview_text(
            message@,
            opt_str_view(current_tool_name),
            opt_str_view(current_tool_args_preview),
        ),
{
    proof {
        reveal_strlit("tool_error");
        reveal_strlit("tool_start");
        reveal_strlit("tool_end");
        assert("tool_end"@.len() != "tool_error"@.len());
        assert("tool_error"@[5] != "tool_start"@[5]);
    }
    let n = match parse_tool_notification(message) {
        Some(n) => n,
        None => {
            return None;
        },
    };
    if !str_eq(n.event_name, "tool_error") {
        return None;
    }
    let tool: String = match &n.tool_name {
        Some(t) => t.clone(),
        None => "tool".to_owned(),
    };
    let args: Option<&str> = match current_tool_args_preview {
        Some(p) => Some(p),
        None => match &n.args_preview {
            Some(p) => Some(p.as_str()),
            None => None,
        },
    };
    match args {
        Some(p) => {
            let same_tool = match current_tool_name {
                Some(t) => str_eq(t, tool.as_str()),
                None => true,
            };
            if same_tool || n.tool_name.is_none() {
                Some(concat3(tool.as_str(), ": ", p))
            } else {
                n.summary
            }
        },
        None => n.summary,
    }
}

/// The error preview of an agent event, cut to 160 characters; nothing
/// for events that carry no error or when the preview is empty.
/// `current_tool_name` and `current_tool_args_preview` are those of the
/// tool the session has in flight.
pub fn error_preview_for_agent_event(
    event: &AgentEvent,
    current_tool_name: Option<&str>,
    current_tool_args_preview: Option<&str>,
) -> (res: Option<String>)
    ensures
        opt_view(res) == shown_message(
            error_preview_text(
                *event,
                opt_str_view(current_tool_name),
                opt_str_view(current_tool_args_preview),
            ),
        ),
{
    let preview: Option<String> = match event {
        AgentEvent::Notification { message, .. } => {
            tool_error_preview(message.as_str(), current_tool_name, current_tool_args_preview)
        },
        AgentEvent::ToolCallFailed { tool_name, .. } => match tool_name {
            Some(t) => Some(concat2("tool failed: ", t.as_str())),
            None => None,
        },
        AgentEvent::TurnFailed { error, .. } | AgentEvent::StartupFailed { error, .. }
        | AgentEvent::TurnEndedWithError { error, .. } => Some(error.clone()),
        AgentEvent::Malformed { parse_error, raw_text, .. } => Some(
            malformed_message(parse_error.as_str(), raw_text.as_str()),
        ),
        _ => None,
    };
    show(preview)
}

} // verus!

verus! {

/// A shown message is never empty and never longer than 160 characters
/// and the ellipsis.
pub proof fn lemma_shown_messages_are_short(m: Option<Seq<char>>)
    ensures
        shown_message(m) matches Some(t) ==> 0 < t.len() <= 161,
{
}

} // verus!
