use symphony::orchestrator::events::AgentEvent;
use symphony::pi_turn::{maybe_extract_text, pi_turn_line, PiOutputLine, PiTurnControl};
use symphony::json::JsonValue;
use symphony::pi_agent::extract_session_id;
use symphony::domain::PiAgentConfig;
use symphony::pi_agent::{
    build_command_parts, default_ui_fallback_response, is_auto_respond_method,
    parse_retry_after_ms, truncate_for_event, ExtensionUIResponse,
};

#[test]
fn pi_agent_config_model_for_state_prefers_state_override_then_default() {
    let mut config = PiAgentConfig {
        model: Some("vendor/large-4-6".to_string()),
        ..PiAgentConfig::default()
    };
    config.model_by_state = vec![(
        "agent review".to_string(),
        "vendor/medium-4-6".to_string(),
    )];

    assert_eq!(
        config.model_for_state("Agent Review").as_deref(),
        Some("vendor/medium-4-6")
    );
    assert_eq!(
        config.model_for_state("In Progress").as_deref(),
        Some("vendor/large-4-6")
    );
}

#[test]
fn build_command_parts_uses_state_selected_model() {
    let mut config = PiAgentConfig {
        command: vec!["pi".to_string(), "--mode".to_string(), "rpc".to_string()],
        model: Some("vendor/large-4-6".to_string()),
        ..PiAgentConfig::default()
    };
    config.model_by_state = vec![(
        "merging".to_string(),
        "vendor/medium-4-6".to_string(),
    )];

    let parts = build_command_parts(&config, "/tmp/workspace", "Merging", None)
        .expect("command should build");
    let joined = parts.join(" ");
    assert!(!parts.iter().any(|part| part == "--cwd"));
    assert!(joined.contains("--model vendor/medium-4-6"));
}

#[test]
fn build_command_parts_prefers_explicit_model_override() {
    let mut config = PiAgentConfig {
        command: vec!["pi".to_string(), "--mode".to_string(), "rpc".to_string()],
        model: Some("vendor/large-4-6".to_string()),
        ..PiAgentConfig::default()
    };
    config.model_by_state = vec![(
        "merging".to_string(),
        "vendor/medium-4-6".to_string(),
    )];

    let parts = build_command_parts(
        &config,
        "/tmp/workspace",
        "Merging",
        Some("vendor/small-3-5"),
    )
    .expect("command should build");
    let joined = parts.join(" ");
    assert!(joined.contains("--model vendor/small-3-5"));
    assert!(!joined.contains("--model vendor/medium-4-6"));
}

#[test]
fn command_line_carries_session_and_prompt_flags() {
    let config = PiAgentConfig {
        command: vec!["pi".to_string()],
        no_session: true,
        append_system_prompt: Some("extra.md".to_string()),
        ..PiAgentConfig::default()
    };
    let parts = build_command_parts(&config, "/w", "Todo", Some("   ")).unwrap();
    assert_eq!(parts, vec!["pi", "--no-session", "--append-system-prompt", "extra.md"]);
    assert!(build_command_parts(&PiAgentConfig::default(), "/w", "Todo", None).is_err());
}

#[test]
fn interface_requests_fall_back_to_reject_or_cancel() {
    assert!(is_auto_respond_method("setStatus"));
    assert!(!is_auto_respond_method("confirm"));
    assert_eq!(default_ui_fallback_response("1".to_string(), "notify"), None);
    assert_eq!(
        default_ui_fallback_response("2".to_string(), "confirm"),
        Some(ExtensionUIResponse::Reject { id: "2".to_string() })
    );
    assert_eq!(
        default_ui_fallback_response("3".to_string(), "select"),
        Some(ExtensionUIResponse::Cancel { id: "3".to_string() })
    );
}

#[test]
fn retry_after_is_read_in_its_unit() {
    assert_eq!(parse_retry_after_ms("429: Retry-After: 30"), Some(30_000));
    assert_eq!(parse_retry_after_ms("retry after 2 minutes"), Some(120_000));
    assert_eq!(parse_retry_after_ms("retry-after 250ms"), Some(250));
    assert_eq!(parse_retry_after_ms("retry after soon"), None);
    assert_eq!(parse_retry_after_ms("no hint"), None);
    assert_eq!(parse_retry_after_ms("retry-after 99999999999999999999"), None);
}

#[test]
fn event_messages_are_cut_at_two_hundred_characters() {
    assert_eq!(truncate_for_event("ok"), "ok");
    let long = "é".repeat(201);
    let cut = truncate_for_event(&long);
    assert_eq!(cut.chars().count(), 201);
    assert!(cut.ends_with('…'));
}

#[test]
fn session_ids_are_read_from_response_data() {
    let obj = |entries: Vec<(&str, JsonValue)>| {
        JsonValue::Object(entries.into_iter().map(|(k, v)| (k.to_string(), v)).collect())
    };
    let s = |t: &str| JsonValue::Str(t.to_string());
    assert_eq!(extract_session_id(None), None);
    let camel = obj(vec![("sessionId", s("a")), ("session_id", s("b"))]);
    assert_eq!(extract_session_id(Some(&camel)).as_deref(), Some("a"));
    let snake = obj(vec![("sessionId", JsonValue::Null), ("session_id", s("b"))]);
    assert_eq!(extract_session_id(Some(&snake)).as_deref(), Some("b"));
    let nested = obj(vec![("session", obj(vec![("id", s("c"))]))]);
    assert_eq!(extract_session_id(Some(&nested)).as_deref(), Some("c"));
    assert_eq!(extract_session_id(Some(&s("d"))), None);
}

fn jobj(entries: Vec<(&str, JsonValue)>) -> JsonValue {
    JsonValue::Object(entries.into_iter().map(|(k, v)| (k.to_string(), v)).collect())
}

fn jstr(t: &str) -> JsonValue {
    JsonValue::Str(t.to_string())
}

fn notice(line: PiOutputLine) -> String {
    match pi_turn_line(line, 7).event {
        Some(AgentEvent::Notification { timestamp_ms: 7, message }) => message,
        other => panic!("expected a notification, got {:?}", other),
    }
}

#[test]
fn message_text_is_the_first_text_item() {
    let message = jobj(vec![(
        "content",
        JsonValue::Array(vec![
            jobj(vec![("type", jstr("image"))]),
            jobj(vec![("type", jstr("text"))]),
            jobj(vec![("type", jstr("text")), ("text", jstr("hello"))]),
            jobj(vec![("type", jstr("text")), ("text", jstr("later"))]),
        ]),
    )]);
    assert_eq!(maybe_extract_text(&message).as_deref(), Some("hello"));
    assert_eq!(maybe_extract_text(&jobj(vec![("content", jstr("x"))])), None);
    assert_eq!(maybe_extract_text(&JsonValue::Null), None);
}

#[test]
fn turn_lines_become_notifications() {
    let args = jobj(vec![("command", jstr("ls"))]);
    assert_eq!(
        notice(PiOutputLine::ToolExecutionStart { tool_name: Some("bash".into()), args }),
        "tool_start: bash {\"command\":\"ls\"}"
    );
    assert_eq!(
        notice(PiOutputLine::ToolExecutionEnd { tool_name: None, is_error: true }),
        "tool_error: unknown"
    );
    assert_eq!(
        notice(PiOutputLine::ToolExecutionEnd { tool_name: Some("read".into()), is_error: false }),
        "tool_end: read"
    );
    assert_eq!(
        notice(PiOutputLine::AutoCompactionStart { reason: None }),
        "auto_compaction_start: unknown"
    );
    assert_eq!(notice(PiOutputLine::AutoCompactionEnd { aborted: true }), "auto_compaction_end: aborted=true");
    assert_eq!(
        notice(PiOutputLine::AutoRetryStart { attempt: 2, error_message: None }),
        "auto_retry_start: attempt=2 error="
    );
    assert_eq!(notice(PiOutputLine::AutoRetryEnd { success: false }), "auto_retry_end: success=false");
    assert_eq!(
        notice(PiOutputLine::ExtensionError { error: Some("boom".into()) }),
        "extension_error: boom"
    );
    assert!(pi_turn_line(PiOutputLine::ExtensionError { error: None }, 7).event.is_none());
}

#[test]
fn turn_lines_end_fail_or_escalate_the_turn() {
    assert!(matches!(pi_turn_line(PiOutputLine::AgentEnd, 1).control, PiTurnControl::EndTurn));
    let failed = pi_turn_line(
        PiOutputLine::Response { command: "prompt".into(), success: false, error: None },
        1,
    );
    assert!(matches!(failed.control, PiTurnControl::Fail(ref e) if e == "prompt command failed"));
    assert!(matches!(failed.event, Some(AgentEvent::TurnFailed { ref error, .. }) if error == "prompt command failed"));
    let ok = pi_turn_line(PiOutputLine::Response { command: "prompt".into(), success: true, error: None }, 1);
    assert!(matches!(ok.control, PiTurnControl::Continue) && ok.event.is_none());
    let other = pi_turn_line(
        PiOutputLine::Response { command: "get_state".into(), success: false, error: Some("x".into()) },
        1,
    );
    assert!(matches!(other.control, PiTurnControl::Continue));
    let auto = pi_turn_line(
        PiOutputLine::ExtensionUIRequest { id: "u1".into(), method: "notify".into(), extra: JsonValue::Null },
        1,
    );
    assert!(matches!(auto.control, PiTurnControl::Continue));
    let ask = pi_turn_line(
        PiOutputLine::ExtensionUIRequest { id: "u2".into(), method: "confirm".into(), extra: JsonValue::Null },
        1,
    );
    assert!(matches!(ask.control, PiTurnControl::Escalate { ref id, ref method, .. } if id == "u2" && method == "confirm"));
}

#[test]
fn message_ends_keep_the_turn_alive_on_errors() {
    let message = jobj(vec![(
        "content",
        JsonValue::Array(vec![jobj(vec![("type", jstr("text")), ("text", jstr("partial"))])]),
    )]);
    let end = pi_turn_line(
        PiOutputLine::MessageEnd { message, stop: Some(("Error".into(), None)) },
        3,
    );
    assert_eq!(end.output_text.as_deref(), Some("partial"));
    assert!(matches!(end.control, PiTurnControl::Continue));
    assert!(matches!(end.event, Some(AgentEvent::TurnEndedWithError { timestamp_ms: 3, ref error }) if error == "pi-agent reported stopReason='Error'"));
    let done = pi_turn_line(
        PiOutputLine::MessageEnd { message: JsonValue::Null, stop: Some(("stop".into(), None)) },
        3,
    );
    assert!(done.event.is_none() && done.output_text.is_none());
    let limited = pi_turn_line(
        PiOutputLine::MessageEnd {
            message: JsonValue::Null,
            stop: Some(("error".into(), Some("429 rate limited".into()))),
        },
        3,
    );
    assert!(matches!(limited.event, Some(AgentEvent::TurnEndedWithError { ref error, .. }) if error == "429 rate limited"));
}
