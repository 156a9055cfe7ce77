//! The Pi agent RPC session's rules: the command line a session starts
//! with, which interface requests are answered automatically, how event
//! texts are cut, and the retry delay a rate-limit message announces.

use vstd::prelude::*;

use crate::domain::{clone_strings, model_for_state_spec, PiAgentConfig, SymphonyError};
use crate::json::{field_string, get_field, json_get, str_field, JsonValue};
use crate::orchestrator::events::{opt_view, truncate_for_display, truncate_spec};
use crate::text::{
    contains_seq, find_str, is_digit, lower_seq, occurs_at, parse_unsigned, parse_unsigned_spec,
    starts_with_seq, starts_with_str, to_ascii_lowercase, trim, trim_seq, trim_start,
    trim_start_seq,
};

verus! {

pub const EMPTY_PI_COMMAND: &'static str = "pi_agent.command cannot be empty";

/// The model a session runs with: a non-blank override (trimmed) first,
/// else the issue state's model.
pub open spec fn selected_model(
    config: PiAgentConfig,
    issue_state: Seq<char>,
    model_override: Option<Seq<char>>,
) -> Option<Seq<char>> {
    match model_override {
        Some(m) if trim_seq(m).len() > 0 => Some(trim_seq(m)),
        _ => match model_for_state_spec(config, issue_state) {
            Some(m) => Some(m@),
            None => None,
        },
    }
}

/// The command line: the configured command, `--no-session` when sessions
/// are off, `--model` and the selected model when there is one, and
/// `--append-system-prompt` with its path when configured.
pub open spec fn command_parts_spec(
    config: PiAgentConfig,
    issue_state: Seq<char>,
    model_override: Option<Seq<char>>,
) -> Seq<Seq<char>> {
    config.command@.map_values(|s: String| s@) + (if config.no_session {
        seq!["--no-session"@]
    } else {
        Seq::empty()
    }) + match selected_model(config, issue_state, model_override) {
        Some(m) => seq!["--model"@, m],
        None => Seq::empty(),
    } + match config.append_system_prompt {
        Some(p) => seq!["--append-system-prompt"@, p@],
        None => Seq::empty(),
    }
}

fn push_part(parts: &mut Vec<String>, part: String)
    ensures
        final(parts)@.map_values(|s: String| s@) == old(parts)@.map_values(|s: String| s@).push(
            part@,
        ),
{
    let ghost before = parts@;
    parts.push(part);
    assert(parts@.map_values(|s: String| s@) =~= before.map_values(|s: String| s@).push(part@));
}

/// The command line of a Pi session, or an error when no command is
/// configured. The workspace path is not part of it: the session runs in
/// the workspace.
pub fn build_command_parts(
    config: &PiAgentConfig,
    workspace_path: &str,
    issue_state: &str,
    model_override: Option<&str>,
) -> (res: Result<Vec<String>, SymphonyError>)
    ensures
        config.command@.len() == 0 <==> res is Err,
        res matches Ok(parts) ==> parts@.map_values(|s: String| s@) == command_parts_spec(
            *config,
            issue_state@,
            match model_override {
                Some(m) => Some(m@),
                None => None,
            },
        ),
        res matches Err(e) ==> (e matches SymphonyError::InvalidWorkflowConfig(m) && m@
            == EMPTY_PI_COMMAND@),
{
    if config.command.len() == 0 {
        return Err(SymphonyError::InvalidWorkflowConfig(EMPTY_PI_COMMAND.to_owned()));
    }
    let mut parts = clone_strings(&config.command);
    let ghost base = parts@.map_values(|s: String| s@);
    if config.no_session {
        push_part(&mut parts, "--no-session".to_owned());
    }
    let chosen: Option<String> = match model_override {
        Some(m) => {
            let t = trim(m);
            if t.unicode_len() > 0 {
                Some(t)
            } else {
                config.model_for_state(issue_state)
            }
        },
        None => config.model_for_state(issue_state),
    };
    match chosen {
        Some(model) => {
            push_part(&mut parts, "--model".to_owned());
            push_part(&mut parts, model);
        },
        None => {},
    }
    match &config.append_system_prompt {
        Some(p) => {
            push_part(&mut parts, "--append-system-prompt".to_owned());
            push_part(&mut parts, p.clone());
        },
        None => {},
    }
    proof {
        let ov = match model_override {
            Some(m) => Some(m@),
            None => None,
        };
        assert(parts@.map_values(|s: String| s@) =~= command_parts_spec(*config, issue_state@, ov));
    }
    Ok(parts)
}

/// Interface requests that need no answer.
pub open spec fn auto_respond_method(method: Seq<char>) -> bool {
    method == "notify"@ || method == "setStatus"@ || method == "setWidget"@ || method
        == "setTitle"@ || method == "set_editor_text"@
}

pub fn is_auto_respond_method(method: &str) -> (res: bool)
    ensures
        res == auto_respond_method(method@),
{
    crate::text::str_eq(method, "notify") || crate::text::str_eq(method, "setStatus")
        || crate::text::str_eq(method, "setWidget") || crate::text::str_eq(method, "setTitle")
        || crate::text::str_eq(method, "set_editor_text")
}

/// The answer given to an interface request nobody answers.
#[derive(Debug, Clone, PartialEq, Eq)]
pub enum ExtensionUIResponse {
    Reject { id: String },
    Cancel { id: String },
}

/// No answer to requests that need none; a confirmation is rejected; any
/// other request is cancelled.
pub fn default_ui_fallback_response(id: String, method: &str) -> (res: Option<ExtensionUIResponse>)
    ensures
        auto_respond_method(method@) ==> res is None,
        !auto_respond_method(method@) && method@ == "confirm"@ ==> res
            == Some(ExtensionUIResponse::Reject { id }),
        !auto_respond_method(method@) && method@ != "confirm"@ ==> res
            == Some(ExtensionUIResponse::Cancel { id }),
{
    if is_auto_respond_method(method) {
        return None;
    }
    if crate::text::str_eq(method, "confirm") {
        Some(ExtensionUIResponse::Reject { id })
    } else {
        Some(ExtensionUIResponse::Cancel { id })
    }
}

pub const MAX_EVENT_CHARS: usize = 200;

/// An event message cut to 200 characters, with `…` when it was longer.
pub fn truncate_for_event(message: &str) -> (res: String)
    ensures
        res@ == truncate_spec(message@, MAX_EVENT_CHARS as nat),
{
    truncate_for_display(message, MAX_EVENT_CHARS)
}

/// The first occurrence of `p` in `s`.
pub open spec fn first_occurrence(s: Seq<char>, p: Seq<char>) -> Option<int> {
    if contains_seq(s, p) {
        Some(choose|i: int| occurs_at(s, p, i) && forall|j: int| 0 <= j < i ==> !occurs_at(s, p, j))
    } else {
        None
    }
}

/// The first ASCII digit at or after `i`.
pub open spec fn first_digit_from(s: Seq<char>, i: int) -> Option<int>
    decreases s.len() - i,
{
    if i < 0 || i >= s.len() {
        None
    } else if is_digit(s[i]) {
        Some(i)
    } else {
        first_digit_from(s, i + 1)
    }
}

/// Where the run of ASCII digits starting at `i` ends.
pub open spec fn digit_run_end(s: Seq<char>, i: int) -> int
    decreases s.len() - i,
{
    if 0 <= i < s.len() && is_digit(s[i]) {
        digit_run_end(s, i + 1)
    } else {
        i
    }
}

/// `amount * factor` when it fits a `u64`.
pub open spec fn checked_mul_spec(amount: nat, factor: nat) -> Option<nat> {
    if amount * factor <= u64::MAX {
        Some(amount * factor)
    } else {
        None
    }
}

/// The delay a message announces after `retry-after` (or `retry after`),
/// ignoring ASCII case: the first number after it, in milliseconds when
/// followed by `ms`, in minutes when followed by `m`, else in seconds; none
/// when there is no such number or it overflows.
pub open spec fn retry_after_spec(message: Seq<char>) -> Option<nat> {
    let n = lower_seq(message);
    let anchor = match first_occurrence(n, "retry-after"@) {
        Some(a) => Some(a),
        None => first_occurrence(n, "retry after"@),
    };
    match anchor {
        None => None,
        Some(a) => {
            let tail = n.subrange(a, n.len() as int);
            match first_digit_from(tail, 0) {
                None => None,
                Some(start) => {
                    let end = digit_run_end(tail, start);
                    match parse_unsigned_spec(tail.subrange(start, end), u64::MAX as nat) {
                        None => None,
                        Some(amount) => {
                            let unit = trim_start_seq(tail.subrange(end, tail.len() as int));
                            if starts_with_seq(unit, "ms"@) {
                                Some(amount)
                            } else if unit.len() > 0 && unit[0] == 'm' {
                                checked_mul_spec(amount, 60_000)
                            } else {
                                checked_mul_spec(amount, 1_000)
                            }
                        },
                    }
                },
            }
        },
    }
}

fn checked_mul(amount: u64, factor: u64) -> (res: Option<u64>)
    requires
        factor > 0,
    ensures
        match res {
            Some(v) => checked_mul_spec(amount as nat, factor as nat) == Some(v as nat),
            None => checked_mul_spec(amount as nat, factor as nat) is None,
        },
{
    if amount > u64::MAX / factor {
        proof {
            assert(amount * factor > u64::MAX) by (nonlinear_arith)
                requires
                    amount > u64::MAX / factor,
                    factor > 0,
            ;
        }
        None
    } else {
        proof {
            assert(amount * factor <= u64::MAX) by (nonlinear_arith)
                requires
                    amount <= u64::MAX / factor,
                    factor > 0,
            ;
        }
        Some(amount * factor)
    }
}

pub fn parse_retry_after_ms(message: &str) -> (res: Option<u64>)
    ensures
        match res {
            Some(v) => retry_after_spec(message@) == Some(v as nat),
            None => retry_after_spec(message@) is None,
        },
{
    let normalized = to_ascii_lowercase(message);
    let anchor = match find_str(normalized.as_str(), "retry-after") {
        Some(a) => a,
        None => match find_str(normalized.as_str(), "retry after") {
            Some(a) => a,
            None => {
                return None;
            },
        },
    };
    proof {
        let n = lower_seq(message@);
        if contains_seq(n, "retry-after"@) {
            let i = choose|i: int|
                occurs_at(n, "retry-after"@, i) && forall|j: int|
                    0 <= j < i ==> !occurs_at(n, "retry-after"@, j);
            if i < anchor {
                assert(!occurs_at(n, "retry-after"@, i));
            } else if i > anchor {
            }
        }
    }
    let len = normalized.unicode_len();
    let tail = normalized.substring_char(anchor, len).to_owned();
    let tl = tail.unicode_len();
    let mut i: usize = 0;
    while i < tl && !is_ascii_digit(tail.get_char(i))
        invariant
            tl == tail@.len(),
            i <= tl,
            first_digit_from(tail@, 0) == first_digit_from(tail@, i as int),
        decreases tl - i,
    {
        i = i + 1;
    }
    if i == tl {
        return None;
    }
    let start = i;
    let mut end = i;
    while end < tl && is_ascii_digit(tail.get_char(end))
        invariant
            tl == tail@.len(),
            start <= end <= tl,
            digit_run_end(tail@, start as int) == digit_run_end(tail@, end as int),
        decreases tl - end,
    {
        end = end + 1;
    }
    let digits = tail.substring_char(start, end);
    let amount = match parse_unsigned(digits, u64::MAX) {
        Some(a) => a,
        None => {
            return None;
        },
    };
    let rest = tail.substring_char(end, tl);
    let unit = trim_start(rest);
    if starts_with_str(unit.as_str(), "ms") {
        Some(amount)
    } else if unit.unicode_len() > 0 && unit.get_char(0) == 'm' {
        checked_mul(amount, 60_000)
    } else {
        checked_mul(amount, 1_000)
    }
}

fn is_ascii_digit(c: char) -> (res: bool)
    ensures
        res == is_digit(c),
{
    let v = c as u32;
    48 <= v && v <= 57
}

/// The session id a response's data reports: its `sessionId`, else its
/// `session_id`, else the `id` of its `session`, whichever is a string.
pub open spec fn session_id_spec(data: Option<JsonValue>) -> Option<Seq<char>> {
    match data {
        None => None,
        Some(d) => match str_field(d, "sessionId"@) {
            Some(s) => Some(s),
            None => match str_field(d, "session_id"@) {
                Some(s) => Some(s),
                None => match json_get(d, "session"@) {
                    Some(session) => str_field(session, "id"@),
                    None => None,
                },
            },
        },
    }
}

/// The session id in the data of an agent's response.
pub fn extract_session_id(data: Option<&JsonValue>) -> (res: Option<String>)
    ensures
        opt_view(res) == session_id_spec(
            match data {
                Some(d) => Some(*d),
                None => None,
            },
        ),
{
    let d = match data {
        Some(d) => d,
        None => {
            return None;
        },
    };
    match field_string(d, "sessionId") {
        Some(s) => Some(s),
        None => match field_string(d, "session_id") {
            Some(s) => Some(s),
            None => match get_field(d, "session") {
                Some(session) => field_string(session, "id"),
                None => None,
            },
        },
    }
}

} // verus!
