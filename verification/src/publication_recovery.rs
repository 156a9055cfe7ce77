//! Operator recovery of blocked publication intents: the admin address to
//! ask, and every report the recovery commands print.

use vstd::prelude::*;

use crate::json::{get_field, json_get, json_str, parse_json, parsed_json, JsonValue};
use crate::text::{
    append_decimal, contains_seq, contains_str, decimal, starts_with_seq, starts_with_str,
    str_eq, trim, trim_seq,
};

verus! {

/// Admin port assumed when neither the workflow nor `--port` names one.
pub const DEFAULT_ADMIN_PORT: u16 = 8080;

/// Substring identifying a store-open failure caused by the exclusive lock.
pub const STORE_LOCK_MARKER: &'static str = "could not acquire exclusive triage store lock";

/// Why an admin HTTP call produced no answer. Only `Unreachable` means
/// nothing is listening, so opening the store directly is worth trying.
#[derive(Debug, Clone, PartialEq, Eq)]
pub enum RecoveryHttpError {
    Unreachable(String),
    Failed(String),
}

pub open spec fn recovery_message(e: RecoveryHttpError) -> Seq<char> {
    match e {
        RecoveryHttpError::Unreachable(m) => m@,
        RecoveryHttpError::Failed(m) => m@,
    }
}

impl RecoveryHttpError {
    /// Whether falling back to the durable store is worth attempting.
    pub fn is_unreachable(&self) -> (res: bool)
        ensures
            res == (*self is Unreachable),
    {
        match self {
            RecoveryHttpError::Unreachable(_) => true,
            RecoveryHttpError::Failed(_) => false,
        }
    }

    pub fn message(&self) -> (res: &str)
        ensures
            res@ == recovery_message(*self),
    {
        match self {
            RecoveryHttpError::Unreachable(m) => m.as_str(),
            RecoveryHttpError::Failed(m) => m.as_str(),
        }
    }
}

/// Which process applied a recovery operation.
#[derive(Debug, Clone, Copy, PartialEq, Eq, Structural)]
pub enum RecoverySource {
    RunningOrchestrator,
    DirectStore,
}

/// The host a client connects to for a bind host.
pub open spec fn connect_host(host: Seq<char>) -> Seq<char> {
    let h = trim_seq(host);
    if h == Seq::<char>::empty() || h == "0.0.0.0"@ {
        "127.0.0.1"@
    } else if h == "::"@ || h == "[::]"@ || h == "0:0:0:0:0:0:0:0"@ {
        "::1"@
    } else {
        h
    }
}

/// The admin base URL for a bind `host` and `port`.
pub open spec fn admin_base_url_spec(host: Seq<char>, port: u16) -> Seq<char> {
    let h = connect_host(host);
    if contains_seq(h, ":"@) && !starts_with_seq(h, "["@) {
        "http://["@ + h + "]:"@ + decimal(port as nat)
    } else {
        "http://"@ + h + ":"@ + decimal(port as nat)
    }
}

/// Build the admin base URL the CLI should call. Wildcard bind addresses
/// are rewritten to their loopback equivalent, and bare IPv6 hosts are
/// bracketed.
pub fn admin_base_url(host: &str, port: u16) -> (res: String)
    ensures
        res@ == admin_base_url_spec(host@, port),
{
    let trimmed = trim(host);
    let t = trimmed.as_str();
    proof {
        if t@.len() == 0 {
            assert(t@ =~= Seq::<char>::empty());
        }
    }
    let h: &str = if t.is_empty() || str_eq(t, "0.0.0.0") {
        "127.0.0.1"
    } else if str_eq(t, "::") || str_eq(t, "[::]") || str_eq(t, "0:0:0:0:0:0:0:0") {
        "::1"
    } else {
        t
    };
    assert(h@ == connect_host(host@));
    let mut out: String;
    if contains_str(h, ":") && !starts_with_str(h, "[") {
        out = "http://[".to_owned();
        out.append(h);
        out.append("]:");
    } else {
        out = "http://".to_owned();
        out.append(h);
        out.append(":");
    }
    append_decimal(&mut out, port as u64);
    out
}

/// A blocked publication intent as the admin API reports it.
#[derive(Debug, Clone, PartialEq, Eq)]
pub struct BlockedPublicationHttpResponse {
    pub intent_id: String,
    pub run_id: String,
    pub kind: String,
    pub retry_count: u32,
    pub last_step: Option<String>,
    pub error_code: Option<String>,
    pub error_remediation: Option<String>,
    pub updated_at_ms: i64,
}

/// The confirmation of a reset.
#[derive(Debug, Clone, PartialEq, Eq)]
pub struct BlockedPublicationResetHttpResponse {
    pub intent_id: String,
    pub run_id: String,
    pub status: String,
    pub completed_steps: Vec<String>,
}

/// Why an intent is blocked, as far as its record says.
pub open spec fn blocked_reason(b: BlockedPublicationHttpResponse) -> Seq<char> {
    match (b.error_code, b.error_remediation) {
        (Some(code), Some(remediation)) => code@ + " — "@ + remediation@,
        (Some(code), None) => code@,
        _ => "unknown"@,
    }
}

/// The report lines of the intents, in order.
pub open spec fn blocked_lines(blocked: Seq<BlockedPublicationHttpResponse>) -> Seq<char>
    decreases blocked.len(),
{
    if blocked.len() == 0 {
        Seq::empty()
    } else {
        let b = blocked.last();
        blocked_lines(blocked.drop_last()) + "\n  "@ + b.intent_id@ + "  run="@ + b.run_id@
            + "  retries="@ + decimal(b.retry_count as nat) + "  last_step="@ + match b.last_step {
            Some(s) => s@,
            None => "none"@,
        } + "\n    "@ + blocked_reason(b)
    }
}

/// The `list-blocked` report.
pub open spec fn blocked_report(blocked: Seq<BlockedPublicationHttpResponse>) -> Seq<char> {
    if blocked.len() == 0 {
        "no blocked publication intents"@
    } else {
        decimal(blocked.len()) + " blocked publication intent(s):"@ + blocked_lines(blocked)
            + "\n\nreset one with: symphony publication reset <intent-id>"@
    }
}

fn append_reason(out: &mut String, b: &BlockedPublicationHttpResponse)
    ensures
        final(out)@ == old(out)@ + blocked_reason(*b),
{
    match (&b.error_code, &b.error_remediation) {
        (Some(code), Some(remediation)) => {
            let ghost start = out@;
            out.append(code.as_str());
            out.append(" — ");
            out.append(remediation.as_str());
            assert(out@ =~= start + blocked_reason(*b));
        },
        (Some(code), None) => out.append(code.as_str()),
        _ => out.append("unknown"),
    }
}

/// Render the `list-blocked` report.
pub fn format_blocked_publications(blocked: &[BlockedPublicationHttpResponse]) -> (res: String)
    ensures
        res@ == blocked_report(blocked@),
{
    if blocked.len() == 0 {
        return "no blocked publication intents".to_owned();
    }
    let mut out = String::new();
    append_decimal(&mut out, blocked.len() as u64);
    out.append(" blocked publication intent(s):");
    let ghost head = out@;
    assert(head =~= decimal(blocked@.len()) + " blocked publication intent(s):"@);
    let mut i: usize = 0;
    while i < blocked.len()
        invariant
            i <= blocked@.len(),
            out@ == head + blocked_lines(blocked@.subrange(0, i as int)),
        decreases blocked@.len() - i,
    {
        let b = &blocked[i];
        out.append("\n  ");
        out.append(b.intent_id.as_str());
        out.append("  run=");
        out.append(b.run_id.as_str());
        out.append("  retries=");
        append_decimal(&mut out, b.retry_count as u64);
        out.append("  last_step=");
        match &b.last_step {
            Some(s) => out.append(s.as_str()),
            None => out.append("none"),
        }
        out.append("\n    ");
        append_reason(&mut out, b);
        proof {
            let sub = blocked@.subrange(0, i + 1);
            assert(sub.drop_last() =~= blocked@.subrange(0, i as int));
            assert(sub.last() == blocked@[i as int]);
            assert(out@ =~= head + blocked_lines(sub));
        }
        i = i + 1;
    }
    out.append("\n\nreset one with: symphony publication reset <intent-id>");
    proof {
        assert(blocked@.subrange(0, blocked@.len() as int) =~= blocked@);
    }
    out
}

/// What happens next, truthfully for the process that applied a reset.
pub open spec fn reset_follow_up(source: RecoverySource) -> Seq<char> {
    match source {
        RecoverySource::RunningOrchestrator => "the running orchestrator resumes reconciliation on its next poll; fix the underlying cause first or the intent will exhaust its retries again"@,
        RecoverySource::DirectStore => "no orchestrator is running, so nothing is reconciling yet; the intent is picked up when Symphony next runs against this workflow. Fix the underlying cause first or the intent will exhaust its retries again"@,
    }
}

/// The `reset` confirmation.
pub open spec fn reset_report(r: BlockedPublicationResetHttpResponse, source: RecoverySource) -> Seq<char> {
    "reset "@ + r.intent_id@ + " to "@ + r.status@ + " (run "@ + r.run_id@ + ", "@ + decimal(
        r.completed_steps@.len(),
    ) + " completed step(s) preserved)"@ + "\n"@ + reset_follow_up(source)
}

/// Render the `reset` confirmation, truthfully for the path that applied it.
pub fn format_publication_reset(reset: &BlockedPublicationResetHttpResponse, source: RecoverySource) -> (res: String)
    ensures
        res@ == reset_report(*reset, source),
{
    let mut out = "reset ".to_owned();
    out.append(reset.intent_id.as_str());
    out.append(" to ");
    out.append(reset.status.as_str());
    out.append(" (run ");
    out.append(reset.run_id.as_str());
    out.append(", ");
    append_decimal(&mut out, reset.completed_steps.len() as u64);
    out.append(" completed step(s) preserved)");
    out.append("\n");
    match source {
        RecoverySource::RunningOrchestrator => out.append(
            "the running orchestrator resumes reconciliation on its next poll; fix the underlying cause first or the intent will exhaust its retries again",
        ),
        RecoverySource::DirectStore => out.append(
            "no orchestrator is running, so nothing is reconciling yet; the intent is picked up when Symphony next runs against this workflow. Fix the underlying cause first or the intent will exhaust its retries again",
        ),
    }
    out
}

/// Whether a store-open failure was caused by the exclusive lock.
pub fn is_store_lock_error(message: &str) -> (res: bool)
    ensures
        res == contains_seq(message@, STORE_LOCK_MARKER@),
{
    contains_str(message, STORE_LOCK_MARKER)
}

/// Explanation of a recovery attempt that failed over HTTP and against the
/// store.
pub open spec fn store_unavailable_spec(http_error: RecoveryHttpError, store_error: Seq<char>) -> Seq<char> {
    if http_error is Unreachable && contains_seq(store_error, STORE_LOCK_MARKER@) {
        "cannot recover publication intents: the running orchestrator did not answer, and the durable store is locked by another process.\n  http:  "@
            + recovery_message(http_error) + "\n  store: "@ + store_error
            + "\n\nSymphony holds that lock for as long as it runs, so it is running — it just is not reachable at the address above. Check server.host and server.port in the workflow config, or pass --port with the port Symphony was started on."@
    } else {
        recovery_message(http_error) + "\n"@ + store_error
    }
}

/// A bare lock error is baffling after an unreachable API: the lock is held
/// because Symphony runs, so the configured address is what is wrong.
pub fn store_unavailable_message(http_error: &RecoveryHttpError, store_error: &str) -> (res: String)
    ensures
        res@ == store_unavailable_spec(*http_error, store_error@),
{
    if http_error.is_unreachable() && is_store_lock_error(store_error) {
        let mut out = "cannot recover publication intents: the running orchestrator did not answer, and the durable store is locked by another process.\n  http:  ".to_owned();
        out.append(http_error.message());
        out.append("\n  store: ");
        out.append(store_error);
        out.append(
            "\n\nSymphony holds that lock for as long as it runs, so it is running — it just is not reachable at the address above. Check server.host and server.port in the workflow config, or pass --port with the port Symphony was started on.",
        );
        return out;
    }
    let mut out = http_error.message().to_owned();
    out.append("\n");
    out.append(store_error);
    out
}

/// An error and its causes on one line: each cause's text is added after
/// `: ` unless the line already contains it.
pub open spec fn error_chain_spec(texts: Seq<Seq<char>>) -> Seq<char>
    decreases texts.len(),
{
    if texts.len() == 0 {
        Seq::empty()
    } else if texts.len() == 1 {
        texts[0]
    } else {
        let before = error_chain_spec(texts.drop_last());
        if contains_seq(before, texts.last()) {
            before
        } else {
            before + ": "@ + texts.last()
        }
    }
}

/// The texts of an error and of its causes, outermost first, as one line.
pub fn error_chain(texts: &Vec<String>) -> (res: String)
    ensures
        res@ == error_chain_spec(texts@.map_values(|t: String| t@)),
{
    let ghost views = texts@.map_values(|t: String| t@);
    if texts.len() == 0 {
        return String::new();
    }
    let mut out = texts[0].clone();
    let mut i: usize = 1;
    proof {
        assert(views.take(1).drop_last() =~= Seq::<Seq<char>>::empty());
        assert(views.take(1) =~= seq![views[0]]);
    }
    while i < texts.len()
        invariant
            1 <= i <= texts@.len(),
            views == texts@.map_values(|t: String| t@),
            out@ == error_chain_spec(views.take(i as int)),
        decreases texts@.len() - i,
    {
        proof {
            assert(views.take(i + 1).drop_last() =~= views.take(i as int));
            assert(views.take(i + 1).last() == views[i as int]);
        }
        if !contains_str(out.as_str(), texts[i].as_str()) {
            out.append(": ");
            out.append(texts[i].as_str());
        }
        i = i + 1;
    }
    proof {
        assert(views.take(texts@.len() as int) =~= views);
    }
    out
}

/// A request that got no answer: a refused connection or a timeout means
/// nothing is listening; anything else is a failure.
pub open spec fn request_error_ok(
    base_url: Seq<char>,
    chain: Seq<char>,
    connect_or_timeout: bool,
    res: RecoveryHttpError,
) -> bool {
    let m = "could not reach the Symphony admin API at "@ + base_url + ": "@ + chain;
    if connect_or_timeout {
        res matches RecoveryHttpError::Unreachable(x) && x@ == m
    } else {
        res matches RecoveryHttpError::Failed(x) && x@ == m
    }
}

/// Classify a request that got no answer; `chain` is its error chain.
pub fn classify_request_error(base_url: &str, chain: &str, connect_or_timeout: bool) -> (res:
    RecoveryHttpError)
    ensures
        request_error_ok(base_url@, chain@, connect_or_timeout, res),
{
    let mut m = "could not reach the Symphony admin API at ".to_owned();
    m.append(base_url);
    m.append(": ");
    m.append(chain);
    if connect_or_timeout {
        RecoveryHttpError::Unreachable(m)
    } else {
        RecoveryHttpError::Failed(m)
    }
}

/// The `error.message` of a JSON error body, when it is a string.
pub open spec fn body_error_message(body: Option<JsonValue>) -> Option<Seq<char>> {
    match body {
        Some(b) => match json_get(b, "error"@) {
            Some(e) => match json_get(e, "message"@) {
                Some(m) => json_str(m),
                None => None,
            },
            None => None,
        },
        None => None,
    }
}

/// What an error answer says: its body's `error.message`, else its trimmed
/// body, else the status's reason (`unknown error` when it has none).
pub open spec fn response_detail(reason: Option<Seq<char>>, body: Seq<char>, parsed: Option<JsonValue>) -> Seq<char> {
    match body_error_message(parsed) {
        Some(m) => m,
        None => if trim_seq(body).len() == 0 {
            match reason {
                Some(r) => r,
                None => "unknown error"@,
            }
        } else {
            trim_seq(body)
        },
    }
}

/// The message of the failure an error answer is reported as.
pub open spec fn response_error_message(
    url: Seq<char>,
    status: u16,
    reason: Option<Seq<char>>,
    body: Seq<char>,
    parsed: Option<JsonValue>,
) -> Seq<char> {
    url + " returned "@ + decimal(status as nat) + ": "@ + response_detail(reason, body, parsed)
}

/// The failure an error answer is reported as: `<url> returned <status>:
/// <detail>`. `parsed_body` is what reading the body as JSON gave, and
/// `reason` the status's canonical reason.
pub fn response_error_with_body(
    url: &str,
    status: u16,
    reason: Option<&str>,
    body: &str,
    parsed_body: Option<&JsonValue>,
) -> (res: RecoveryHttpError)
    ensures
        res matches RecoveryHttpError::Failed(m) && m@ == url@ + " returned "@ + decimal(
            status as nat,
        ) + ": "@ + response_detail(
            match reason {
                Some(r) => Some(r@),
                None => None,
            },
            body@,
            match parsed_body {
                Some(p) => Some(*p),
                None => None,
            },
        ),
{
    let from_json: Option<String> = match parsed_body {
        Some(p) => match get_field(p, "error") {
            Some(e) => match get_field(e, "message") {
                Some(JsonValue::Str(m)) => Some(m.clone()),
                _ => None,
            },
            None => None,
        },
        None => None,
    };
    let detail: String = match from_json {
        Some(m) => m,
        None => {
            let t = trim(body);
            if t.unicode_len() == 0 {
                match reason {
                    Some(r) => r.to_owned(),
                    None => "unknown error".to_owned(),
                }
            } else {
                t
            }
        },
    };
    let mut out = url.to_owned();
    out.append(" returned ");
    append_decimal(&mut out, status as u64);
    out.append(": ");
    out.append(detail.as_str());
    RecoveryHttpError::Failed(out)
}

/// The failure an error answer is reported as; its body is read as JSON.
pub fn response_error(url: &str, status: u16, reason: Option<&str>, body: &str) -> (res:
    RecoveryHttpError)
    ensures
        res matches RecoveryHttpError::Failed(m) && m@ == response_error_message(
            url@,
            status,
            match reason {
                Some(r) => Some(r@),
                None => None,
            },
            body@,
            parsed_json(body@),
        ),
{
    let parsed = parse_json(body);
    match parsed {
        Some(p) => response_error_with_body(url, status, reason, body, Some(&p)),
        None => response_error_with_body(url, status, reason, body, None),
    }
}

} // verus!
