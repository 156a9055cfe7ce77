use symphony::domain::StageUsage;
use symphony::orchestrator::events::{AgentEvent, EventKind, EventSeverity};
use symphony::orchestrator::issue::{BlockerRef, Issue, TrackerConfig};
use symphony::orchestrator::retry::RetryKind;
use symphony::json::to_json_text;
use symphony::orchestrator::runtime::{
    format_elapsed_duration, retry_kind_name, runtime_event_class, runtime_event_error,
    runtime_event_payload,
    RuntimeEvent, WorkerCompletion,
};
use symphony::orchestrator::session::{
    completion_plan, stall_failure_message, stalled_for, CompletionPlan, WorkerSession,
};
use symphony::orchestrator::tick::{blocked_candidates, tick_step, TickStep};
use symphony::orchestrator::turns::{IssueRefresh, TurnLoop, TurnLoopStep, TurnUsage};

fn issue(id: &str, identifier: &str, state: &str) -> Issue {
    Issue {
        id: id.to_string(),
        identifier: identifier.to_string(),
        title: format!("Issue {identifier}"),
        state: state.to_string(),
        priority: None,
        created_at_us: None,
        labels: vec![],
        assigned_to_worker: true,
        parent_identifier: None,
        blocked_by: vec![],
        url: None,
    }
}

fn tracker() -> TrackerConfig {
    TrackerConfig {
        kind: Some("GitHub".to_string()),
        active_states: vec!["Todo".to_string(), "In Progress".to_string()],
        terminal_states: vec!["Done".to_string()],
        exclude_labels: vec![],
    }
}

#[test]
fn runtime_events_carry_stream_severity_and_name() {
    let (kind, severity, name) = runtime_event_class(&RuntimeEvent::Dispatch);
    assert_eq!((kind, severity, name), (EventKind::Runtime, EventSeverity::Info, "dispatch"));
    let failed = RuntimeEvent::WorkerFailed {
        issue_id: "1".into(),
        issue_identifier: "KAT-1".into(),
        session_id: None,
        error: "boom".into(),
    };
    assert_eq!(
        runtime_event_class(&failed),
        (EventKind::Worker, EventSeverity::Error, "worker_failed")
    );
    assert_eq!(
        runtime_event_class(&RuntimeEvent::RefreshCoalesced),
        (EventKind::Runtime, EventSeverity::Debug, "refresh_coalesced")
    );
    assert_eq!(retry_kind_name(RetryKind::Continuation), "continuation");
    assert_eq!(retry_kind_name(RetryKind::Failure), "failure");
}

#[test]
fn runtime_event_errors_are_cut_per_kind() {
    let long = "e".repeat(300);
    let failed = RuntimeEvent::WorkerFailed {
        issue_id: "1".into(),
        issue_identifier: "KAT-1".into(),
        session_id: None,
        error: long.clone(),
    };
    let shown = runtime_event_error(&failed).unwrap();
    assert_eq!(shown.chars().count(), 161);
    assert!(shown.ends_with('…'));
    let workspace = RuntimeEvent::WorkspacePrepareFailed {
        issue_id: "1".into(),
        issue_identifier: "KAT-1".into(),
        error: long.clone(),
    };
    assert_eq!(runtime_event_error(&workspace).unwrap().chars().count(), 241);
    let steer = RuntimeEvent::SteerFailed { issue_identifier: "KAT-1".into(), error: long.clone() };
    assert_eq!(runtime_event_error(&steer).unwrap(), long);
    assert_eq!(runtime_event_error(&RuntimeEvent::Reconcile), None);
    let short = RuntimeEvent::WorkerFailed {
        issue_id: "1".into(),
        issue_identifier: "KAT-1".into(),
        session_id: None,
        error: "boom".into(),
    };
    assert_eq!(runtime_event_error(&short).unwrap(), "boom");
}

#[test]
fn elapsed_durations_read_in_hours_minutes_and_seconds() {
    assert_eq!(format_elapsed_duration(0), "0s");
    assert_eq!(format_elapsed_duration(59), "59s");
    assert_eq!(format_elapsed_duration(61), "1m 1s");
    assert_eq!(format_elapsed_duration(3_725), "1h 2m 5s");
}

#[test]
fn worker_session_counts_turns_and_tracks_errors() {
    let mut s = WorkerSession::new(2, 300_000, None);
    assert_eq!(s.turn_number, 1);
    assert_eq!(s.max_turns, 2);
    assert_eq!(s.status, "running");
    s.ingest(&AgentEvent::SessionStarted { timestamp_ms: 10, session_id: "sess-1".into() });
    assert_eq!(s.session_id.as_deref(), Some("sess-1"));
    assert_eq!(s.last_activity_ms, Some(10));
    s.ingest(&AgentEvent::TurnEndedWithError { timestamp_ms: 20, error: "hiccup".into() });
    assert_eq!(s.last_error.as_deref(), Some("hiccup"));
    assert_eq!(s.status, "running");
    s.ingest(&AgentEvent::TurnCompleted {
        timestamp_ms: 30,
        message: None,
        input_tokens: 3,
        output_tokens: 4,
        total_tokens: 7,
        rate_limits: None,
    });
    assert_eq!(s.turn_count, 1);
    assert_eq!(s.total_tokens, 7);
    assert_eq!(s.session_tokens, StageUsage { input_tokens: 3, output_tokens: 4, total_tokens: 7 });
    assert_eq!(s.turn_number, 2);
    assert_eq!(s.last_error, None);
    s.ingest(&AgentEvent::TurnCompleted {
        timestamp_ms: 40,
        message: None,
        input_tokens: 1,
        output_tokens: 1,
        total_tokens: 2,
        rate_limits: None,
    });
    assert_eq!(s.turn_number, 2);
    assert_eq!(s.turn_count, 2);
    assert_eq!(s.total_tokens, 9);
    s.ingest(&AgentEvent::TurnFailed { timestamp_ms: 50, error: "fatal".into() });
    assert_eq!(s.status, "failed");
    assert_eq!(s.error.as_deref(), Some("fatal"));
    assert_eq!(s.last_activity_ms, Some(50));
}

#[test]
fn worker_session_follows_the_tool_in_flight() {
    let mut s = WorkerSession::new(0, 1_000, Some(5));
    assert_eq!(s.max_turns, 1);
    s.ingest(&AgentEvent::Notification {
        timestamp_ms: 6,
        message: "tool_start: bash {\"command\":\"ls\"}".into(),
    });
    assert_eq!(s.current_tool_name.as_deref(), Some("bash"));
    assert_eq!(s.current_tool_args_preview.as_deref(), Some("ls"));
    s.ingest(&AgentEvent::Notification { timestamp_ms: 6, message: "plain progress".into() });
    assert_eq!(s.current_tool_name.as_deref(), Some("bash"));
    assert_eq!(s.current_tool_args_preview.as_deref(), Some("ls"));
    s.ingest(&AgentEvent::Notification { timestamp_ms: 6, message: "tool_end: bash".into() });
    assert_eq!(s.current_tool_name, None);
    assert_eq!(s.current_tool_args_preview, None);
    s.ingest(&AgentEvent::Notification { timestamp_ms: 6, message: "tool_start: read".into() });
    assert_eq!(s.current_tool_name.as_deref(), Some("read"));
    assert_eq!(s.current_tool_args_preview, None);
    s.ingest(&AgentEvent::Notification { timestamp_ms: 6, message: "tool_error: read".into() });
    assert_eq!(s.current_tool_name, None);
    s.ingest(&AgentEvent::Notification { timestamp_ms: 6, message: "tool_start: grep {\"query\":\"x\"}".into() });
    assert_eq!(s.current_tool_args_preview.as_deref(), Some("x"));
    s.ingest(&AgentEvent::ToolCallCompleted { timestamp_ms: 7, tool_name: "bash".into() });
    assert_eq!(s.current_tool_name, None);
    assert_eq!(s.current_tool_args_preview, None);
    s.ingest(&AgentEvent::TurnCancelled { timestamp_ms: 8 });
    assert_eq!(s.status, "cancelled");
}

#[test]
fn stalls_need_a_positive_timeout_and_silence_beyond_it() {
    assert_eq!(stalled_for(10_000, Some(1_000), 0, None, 5_000), Some(9_000));
    assert_eq!(stalled_for(10_000, Some(6_000), 0, None, 5_000), None);
    assert_eq!(stalled_for(10_000, None, 2_000, Some(7_000), 5_000), Some(8_000));
    assert_eq!(stalled_for(10_000, None, 2_000, Some(9_000), 5_000), None);
    assert_eq!(stalled_for(10_000, None, 0, Some(0), 5_000), Some(10_000));
    assert_eq!(stalled_for(10_000, None, 0, None, 0), None);
    assert_eq!(stalled_for(i64::MAX, Some(i64::MIN), 0, None, 1), Some(i64::MAX));
}

#[test]
fn stalled_workers_retry_quietly_and_failures_announce() {
    let stall = stall_failure_message(9_000);
    assert_eq!(stall, "stalled for 9000ms without agent activity");
    assert_eq!(
        completion_plan(&WorkerCompletion::Failed { error: stall }, Some(2)),
        CompletionPlan::Retry { attempt: 3, notify: false }
    );
    assert_eq!(
        completion_plan(&WorkerCompletion::Failed { error: "boom".into() }, None),
        CompletionPlan::Retry { attempt: 1, notify: true }
    );
    assert_eq!(
        completion_plan(&WorkerCompletion::Failed { error: "boom".into() }, Some(u32::MAX)),
        CompletionPlan::Retry { attempt: u32::MAX, notify: true }
    );
    assert_eq!(
        completion_plan(&WorkerCompletion::Completed { schedule_continuation: true }, Some(4)),
        CompletionPlan::Continue
    );
    assert_eq!(
        completion_plan(&WorkerCompletion::Completed { schedule_continuation: false }, None),
        CompletionPlan::Finish
    );
}

#[test]
fn turn_loop_refreshes_between_turns_and_stops_at_the_limit() {
    let t = tracker();
    let mut lp = TurnLoop::new(2);
    let usage = TurnUsage { input_tokens: 1, output_tokens: 2, total_tokens: 3, rate_limits: None };
    assert_eq!(lp.after_turn(Ok(usage.clone())), TurnLoopStep::RefreshIssue);
    let refreshed = IssueRefresh::Fetched(Some(issue("1", "KAT-1", "In Progress")));
    assert_eq!(lp.after_refresh(&refreshed, &t, "in progress"), TurnLoopStep::NextTurn(2));
    assert_eq!(
        lp.after_turn(Ok(usage)),
        TurnLoopStep::Finished { schedule_continuation: true }
    );
    assert_eq!(lp.metrics.as_ref().unwrap().total_tokens, 6);

    let mut lp = TurnLoop::new(3);
    assert_eq!(lp.after_turn(Err("bad".into())), TurnLoopStep::Failed("bad".into()));
    assert_eq!(lp.metrics, None);
    let moved = IssueRefresh::Fetched(Some(issue("1", "KAT-1", "Todo")));
    assert_eq!(
        lp.after_refresh(&moved, &t, "In Progress"),
        TurnLoopStep::Finished { schedule_continuation: false }
    );
    assert_eq!(
        lp.after_refresh(&IssueRefresh::Fetched(None), &t, "Todo"),
        TurnLoopStep::Finished { schedule_continuation: false }
    );
    assert_eq!(
        lp.after_refresh(&IssueRefresh::Failed("net".into()), &t, "Todo"),
        TurnLoopStep::Finished { schedule_continuation: true }
    );
    assert_eq!(lp.turn_number, 1);
}

#[test]
fn blocked_candidates_are_listed_and_never_dispatched() {
    let t = tracker();
    let free = issue("1", "KAT-1", "Todo");
    let mut held = issue("2", "KAT-2", "Todo");
    held.blocked_by = vec![
        BlockerRef { id: Some("9".into()), identifier: Some("KAT-9".into()), state: Some("Todo".into()) },
        BlockerRef { id: Some("8".into()), identifier: Some("KAT-8".into()), state: Some("Done".into()) },
    ];
    let candidates = vec![free.clone(), held.clone()];
    let blocked = blocked_candidates(&candidates, &t);
    assert_eq!(blocked.len(), 1);
    assert_eq!(blocked[0].issue_id, "2");
    assert_eq!(blocked[0].identifier, "KAT-2");
    assert_eq!(blocked[0].blocker_identifiers, vec!["KAT-9".to_string()]);

    assert_eq!(tick_step(&free, &blocked, &t, &vec![], &vec![], 2), TickStep::Refresh);
    assert_eq!(tick_step(&held, &blocked, &t, &vec![], &vec![], 2), TickStep::Skip);
    assert_eq!(tick_step(&free, &blocked, &t, &vec!["1".into()], &vec![], 2), TickStep::Skip);
    assert_eq!(
        tick_step(&free, &blocked, &t, &vec![], &vec!["5".into(), "6".into()], 2),
        TickStep::Stop
    );
}

#[test]
fn runtime_event_payloads_are_compact_json_in_key_order() {
    let retry = RuntimeEvent::RetryScheduled {
        issue_id: "1".into(),
        attempt: 2,
        due_at_ms: -5,
        token: "t\"q".into(),
        retry_kind: RetryKind::Failure,
    };
    assert_eq!(
        to_json_text(&runtime_event_payload(&retry)),
        "{\"attempt\":2,\"due_at_ms\":-5,\"issue_id\":\"1\",\"retry_kind\":\"failure\",\"token\":\"t\\\"q\"}"
    );
    let failed = RuntimeEvent::WorkerFailed {
        issue_id: "1".into(),
        issue_identifier: "KAT-1".into(),
        session_id: None,
        error: "e".repeat(170),
    };
    let text = to_json_text(&runtime_event_payload(&failed));
    assert!(text.starts_with("{\"error\":\"eeee"));
    assert!(text.ends_with("…\",\"issue_id\":\"1\",\"session_id\":null}"));
    let stalled = RuntimeEvent::WorkerStalled {
        issue_id: "1".into(),
        issue_identifier: "KAT-1".into(),
        session_id: Some("s".into()),
        elapsed_ms: 9000,
    };
    assert_eq!(
        to_json_text(&runtime_event_payload(&stalled)),
        "{\"elapsed_ms\":9000,\"issue_id\":\"1\",\"session_id\":\"s\"}"
    );
    assert_eq!(to_json_text(&runtime_event_payload(&RuntimeEvent::Dispatch)), "{}");
    let steer = RuntimeEvent::SteerFailed { issue_identifier: "KAT-1".into(), error: "no_active_session".into() };
    assert_eq!(
        to_json_text(&runtime_event_payload(&steer)),
        "{\"error\":\"no_active_session\",\"issue_identifier\":\"KAT-1\"}"
    );
}
