use symphony::json::{
    find_preferred_text, find_preferred_text_with_depth, get_field, integer_like, map_insert,
    to_json_text, value_at_path, JsonValue,
};
use symphony::orchestrator::escalation::{
    enrich_escalation_payload, escalation_preview, EscalationRequest,
};
use symphony::orchestrator::events::AgentEvent;
use symphony::orchestrator::summary::{
    error_preview_for_agent_event, event_summary, event_summary_with, first_u64_at_paths,
    notification_event_summary, notification_event_summary_with, other_message_summary,
    summarize_notification_payload,
};

fn s(text: &str) -> JsonValue {
    JsonValue::Str(text.to_string())
}

fn num(n: u64) -> JsonValue {
    JsonValue::Number { text: n.to_string(), unsigned: Some(n) }
}

fn obj(entries: Vec<(&str, JsonValue)>) -> JsonValue {
    JsonValue::Object(entries.into_iter().map(|(k, v)| (k.to_string(), v)).collect())
}

fn summary(event: &AgentEvent) -> (String, Option<String>) {
    event_summary(event)
}

#[test]
fn find_preferred_text_stops_searching_past_depth_limit() {
    let nested = obj(vec![(
        "level_1",
        obj(vec![(
            "level_2",
            obj(vec![(
                "level_3",
                obj(vec![("level_4", obj(vec![("level_5", obj(vec![("message", s("too deep"))]))]))]),
            )]),
        )]),
    )]);

    assert_eq!(find_preferred_text(&nested), None);
}

#[test]
fn preferred_text_prefers_known_keys_then_order_and_normalizes() {
    let v = obj(vec![
        ("alpha", s("first value")),
        ("title", s("  the   title ")),
        ("message", s("   ")),
    ]);
    assert_eq!(find_preferred_text(&v).as_deref(), Some("the title"));
    let plain = obj(vec![("alpha", s("")), ("beta", JsonValue::Array(vec![JsonValue::Null, s("b")]))]);
    assert_eq!(find_preferred_text(&plain).as_deref(), Some("b"));
    assert_eq!(find_preferred_text_with_depth(&s("x"), 0), None);
    assert_eq!(find_preferred_text_with_depth(&s("x"), 1).as_deref(), Some("x"));
    assert_eq!(find_preferred_text(&num(3)), None);
}

#[test]
fn json_paths_and_integers_are_read_like_serde_values() {
    let v = obj(vec![("a", obj(vec![("b", num(7)), ("c", s(" 42 ")), ("d", s("-1"))]))]);
    assert!(value_at_path(&v, &["a", "b"]).is_some());
    assert!(value_at_path(&v, &["a", "x"]).is_none());
    assert!(value_at_path(&v, &[]).is_some());
    assert_eq!(integer_like(value_at_path(&v, &["a", "b"]).unwrap()), Some(7));
    assert_eq!(integer_like(value_at_path(&v, &["a", "c"]).unwrap()), Some(42));
    assert_eq!(integer_like(value_at_path(&v, &["a", "d"]).unwrap()), None);
    assert_eq!(integer_like(&s("+5")), Some(5));
    assert_eq!(integer_like(&s("18446744073709551616")), None);
    assert_eq!(
        integer_like(&JsonValue::Number { text: "1.5".to_string(), unsigned: None }),
        None
    );
    assert_eq!(first_u64_at_paths(&v, &[&["a", "x"], &["a", "d"], &["a", "c"]]), Some(42));
    assert_eq!(first_u64_at_paths(&v, &[&["z"]]), None);
    assert!(get_field(&s("a"), "a").is_none());
}

#[test]
fn compact_json_text_escapes_strings() {
    let v = obj(vec![
        ("k", s("a\"b\\c\nd\u{1}")),
        ("list", JsonValue::Array(vec![num(1), JsonValue::Bool(true), JsonValue::Null])),
        ("empty", obj(vec![])),
    ]);
    assert_eq!(
        to_json_text(&v),
        "{\"k\":\"a\\\"b\\\\c\\nd\\u0001\",\"list\":[1,true,null],\"empty\":{}}"
    );
}

#[test]
fn token_count_notifications_show_their_counters() {
    let payload = obj(vec![
        ("method", s("thread/token_count")),
        (
            "params",
            obj(vec![(
                "tokenUsage",
                obj(vec![(
                    "total",
                    obj(vec![("inputTokens", num(10)), ("output_tokens", s("4")), ("totalTokens", num(14))]),
                )]),
            )]),
        ),
    ]);
    assert_eq!(
        summarize_notification_payload("thread/token_count", &payload).as_deref(),
        Some("tokens in 10 / out 4 / total 14")
    );
    let nested = obj(vec![(
        "params",
        obj(vec![(
            "msg",
            obj(vec![(
                "payload",
                obj(vec![("info", obj(vec![("total_token_usage", obj(vec![("output_tokens", num(9))]))]))]),
            )]),
        )]),
    )]);
    assert_eq!(summarize_notification_payload("token_count", &nested).as_deref(), Some("tokens out 9"));
    let none = obj(vec![("params", obj(vec![("message", s("hello"))]))]);
    assert_eq!(summarize_notification_payload("token_count", &none).as_deref(), Some("hello"));
    assert_eq!(summarize_notification_payload("other", &payload).as_deref(), Some("4"));
    let counters_only = obj(vec![("params", obj(vec![("n", num(1))]))]);
    assert_eq!(summarize_notification_payload("token_count", &counters_only), None);
}

#[test]
fn notifications_fall_back_to_method_params_and_plain_text() {
    assert_eq!(
        notification_event_summary_with("  plain   text ", None),
        ("notification".to_string(), Some("plain text".to_string()))
    );
    assert_eq!(notification_event_summary_with("   ", None), ("notification".to_string(), None));
    let parsed = obj(vec![("method", s("item/started")), ("params", obj(vec![("id", num(3))]))]);
    assert_eq!(
        notification_event_summary_with("ignored", Some(&parsed)),
        ("item/started".to_string(), Some("item/started".to_string()))
    );
    let numeric = obj(vec![("id", num(1)), ("params", obj(vec![("id", num(3))]))]);
    assert_eq!(
        notification_event_summary_with("ignored", Some(&numeric)),
        ("notification".to_string(), Some("{\"id\":3}".to_string()))
    );
    let bare = obj(vec![("method", num(1))]);
    assert_eq!(notification_event_summary_with("x", Some(&bare)), ("notification".to_string(), None));
    let other = obj(vec![("method", s("codex/event")), ("params", obj(vec![("text", s("hi there"))]))]);
    assert_eq!(
        other_message_summary(&other),
        ("codex/event".to_string(), Some("hi there".to_string()))
    );
    assert_eq!(other_message_summary(&JsonValue::Null), ("other_message".to_string(), None));
}

#[test]
fn event_summaries_name_the_event_and_cut_the_message() {
    assert_eq!(
        summary(&AgentEvent::SessionStarted { timestamp_ms: 0, session_id: "abc".into() }),
        ("session_started".to_string(), Some("session abc".to_string()))
    );
    assert_eq!(
        summary(&AgentEvent::TurnCompleted {
            timestamp_ms: 0,
            message: None,
            input_tokens: 0,
            output_tokens: 0,
            total_tokens: 0,
            rate_limits: None,
        }),
        ("turn_completed".to_string(), Some("turn completed".to_string()))
    );
    assert_eq!(
        summary(&AgentEvent::ToolCallFailed { timestamp_ms: 0, tool_name: None }).1.as_deref(),
        Some("tool call failed")
    );
    assert_eq!(
        summary(&AgentEvent::ToolCallFailed { timestamp_ms: 0, tool_name: Some("bash".into()) })
            .1
            .as_deref(),
        Some("tool bash failed")
    );
    let request = EscalationRequest {
        id: "req-1".into(),
        issue_id: "1".into(),
        issue_identifier: "KAT-1".into(),
        method: "m".repeat(100),
        payload: "{}".into(),
        created_at_ms: 0,
        timeout_ms: 1000,
    };
    let created = summary(&AgentEvent::EscalationCreated {
        timestamp_ms: 0,
        issue_id: "1".into(),
        issue_identifier: "KAT-1".into(),
        request,
    });
    assert_eq!(created.0, "escalation_created");
    assert_eq!(created.1.unwrap(), format!("KAT-1 needs input: {}…", "m".repeat(80)));
    assert_eq!(
        summary(&AgentEvent::EscalationResponded {
            timestamp_ms: 0,
            issue_id: "1".into(),
            issue_identifier: "KAT-1".into(),
            request_id: "req-1".into(),
            responder_id: None,
            latency_ms: 250,
        })
        .1
        .as_deref(),
        Some("request req-1 responded by operator in 250ms")
    );
    assert_eq!(
        summary(&AgentEvent::EscalationTimedOut {
            timestamp_ms: 0,
            issue_id: "1".into(),
            issue_identifier: "KAT-1".into(),
            request_id: "req-1".into(),
            timeout_ms: 30000,
        })
        .1
        .as_deref(),
        Some("request req-1 timed out after 30000ms")
    );
    let tool = summary(&AgentEvent::Notification {
        timestamp_ms: 0,
        message: "tool_start: bash {\"command\":\"ls\"}".into(),
    });
    assert_eq!(tool, ("tool_start".to_string(), Some("bash {\"command\":\"ls\"}".to_string())));
    let long = summary(&AgentEvent::TurnFailed { timestamp_ms: 0, error: "x".repeat(200) });
    assert_eq!(long.1.unwrap().chars().count(), 161);
    assert_eq!(summary(&AgentEvent::TurnFailed { timestamp_ms: 0, error: String::new() }).1, None);
    assert_eq!(
        summary(&AgentEvent::Malformed {
            timestamp_ms: 0,
            parse_error: "bad json".into(),
            raw_text: " {  oops ".into(),
        })
        .1
        .as_deref(),
        Some("malformed event: bad json; { oops")
    );
    let raw = obj(vec![("method", s("x/y")), ("summary", s("done"))]);
    assert_eq!(
        summary(&AgentEvent::OtherMessage { timestamp_ms: 0, raw }),
        ("x/y".to_string(), Some("done".to_string()))
    );
    let parsed = obj(vec![("method", s("turn/diff")), ("params", obj(vec![("message", s("d"))]))]);
    assert_eq!(
        event_summary_with(
            &AgentEvent::Notification { timestamp_ms: 0, message: "{...}".into() },
            Some(&parsed)
        ),
        ("turn/diff".to_string(), Some("d".to_string()))
    );
}

#[test]
fn error_previews_name_the_failing_tool() {
    let err = AgentEvent::Notification { timestamp_ms: 0, message: "tool_error: bash".into() };
    assert_eq!(
        error_preview_for_agent_event(&err, Some("bash"), Some("cargo test")).as_deref(),
        Some("bash: cargo test")
    );
    assert_eq!(
        error_preview_for_agent_event(&err, None, Some("cargo test")).as_deref(),
        Some("bash: cargo test")
    );
    assert_eq!(
        error_preview_for_agent_event(&err, Some("read"), Some("a.rs")).as_deref(),
        Some("bash")
    );
    assert_eq!(error_preview_for_agent_event(&err, None, None).as_deref(), Some("bash"));
    let bare = AgentEvent::Notification { timestamp_ms: 0, message: "tool_error:".into() };
    assert_eq!(
        error_preview_for_agent_event(&bare, Some("read"), Some("a.rs")).as_deref(),
        Some("tool: a.rs")
    );
    let start = AgentEvent::Notification { timestamp_ms: 0, message: "tool_start: bash".into() };
    assert_eq!(error_preview_for_agent_event(&start, None, None), None);
    assert_eq!(
        error_preview_for_agent_event(
            &AgentEvent::ToolCallFailed { timestamp_ms: 0, tool_name: Some("edit".into()) },
            None,
            None
        )
        .as_deref(),
        Some("tool failed: edit")
    );
    assert_eq!(
        error_preview_for_agent_event(
            &AgentEvent::ToolCallFailed { timestamp_ms: 0, tool_name: None },
            None,
            None
        ),
        None
    );
    assert_eq!(
        error_preview_for_agent_event(
            &AgentEvent::TurnEndedWithError { timestamp_ms: 0, error: "boom".into() },
            None,
            None
        )
        .as_deref(),
        Some("boom")
    );
    assert_eq!(
        error_preview_for_agent_event(&AgentEvent::TurnCancelled { timestamp_ms: 0 }, None, None),
        None
    );
}

#[test]
fn escalation_previews_prefer_the_first_question() {
    let payload = obj(vec![(
        "questions",
        JsonValue::Array(vec![obj(vec![("prompt", s("Which branch?"))]), obj(vec![("question", s("later"))])]),
    )]);
    assert_eq!(escalation_preview(&payload), "Which branch?");
    let direct = obj(vec![("prompt", s("p")), ("question", s("q"))]);
    assert_eq!(escalation_preview(&direct), "q");
    let empty_list = obj(vec![("prompt", s("p")), ("questions", JsonValue::Array(vec![]))]);
    assert_eq!(escalation_preview(&empty_list), "p");
    let other = obj(vec![("n", num(1))]);
    assert_eq!(escalation_preview(&other), "{\"n\":1}");
    let long = s(&"y".repeat(200));
    let shown = escalation_preview(&long);
    assert_eq!(shown.chars().count(), 121);
    assert!(shown.starts_with("\"yyy"));
}

#[test]
fn escalation_payloads_name_their_issue_in_key_order() {
    let mut payload = obj(vec![("a", num(1)), ("issue_state", s("stale")), ("z", num(2))]);
    enrich_escalation_payload(&mut payload, "KAT-7", Some("In Progress"), None);
    assert_eq!(
        to_json_text(&payload),
        "{\"a\":1,\"issue_identifier\":\"KAT-7\",\"issue_state\":\"In Progress\",\"parent_identifier\":null,\"z\":2}"
    );
    let mut raw = s("hello");
    enrich_escalation_payload(&mut raw, "KAT-8", None, Some("KAT-1"));
    assert_eq!(
        to_json_text(&raw),
        "{\"issue_identifier\":\"KAT-8\",\"issue_state\":null,\"parent_identifier\":\"KAT-1\",\"raw_payload\":\"hello\"}"
    );
    let mut entries = vec![("b".to_string(), num(1))];
    map_insert(&mut entries, "a".to_string(), num(2));
    map_insert(&mut entries, "b".to_string(), num(3));
    map_insert(&mut entries, "c".to_string(), JsonValue::Null);
    assert_eq!(to_json_text(&JsonValue::Object(entries)), "{\"a\":2,\"b\":3,\"c\":null}");
}

#[test]
fn notification_messages_are_read_as_json() {
    assert_eq!(
        notification_event_summary("  plain   text "),
        ("notification".to_string(), Some("plain text".to_string()))
    );
    assert_eq!(
        notification_event_summary(r#"{"method":"item/started","params":{"id":3}}"#),
        ("item/started".to_string(), Some("item/started".to_string()))
    );
    assert_eq!(
        notification_event_summary(r#"{"id":1,"params":{"b":2,"a":3}}"#),
        ("notification".to_string(), Some("{\"a\":3,\"b\":2}".to_string()))
    );
    assert_eq!(notification_event_summary(r#"{"method":1}"#), ("notification".to_string(), None));
    let json = AgentEvent::Notification {
        timestamp_ms: 0,
        message: r#"{"method":"turn/diff","params":{"message":"d"}}"#.into(),
    };
    assert_eq!(event_summary(&json), ("turn/diff".to_string(), Some("d".to_string())));
    let tokens = AgentEvent::Notification {
        timestamp_ms: 0,
        message: r#"{"method":"thread/token_count","params":{"tokenUsage":{"total":{"inputTokens":12,"outputTokens":"5"}}}}"#.into(),
    };
    assert_eq!(event_summary(&tokens).0, "thread/token_count");
    let text = AgentEvent::Notification { timestamp_ms: 0, message: "{ not json".into() };
    assert_eq!(event_summary(&text), ("notification".to_string(), Some("{ not json".to_string())));
}
