use symphony::domain::{AgentBackend, PiAgentConfig, ServiceConfig};
use symphony::json::JsonValue;
use symphony::orchestrator::hosts::{count_host_load, select_worker_host};
use symphony::orchestrator::escalation::{
    escalation_preview_text, EscalationLookup, EscalationRegistryState, EscalationRequest, EscalationResolveResult,
    ResolvedEscalationCache, ESCALATION_RESOLVED_CACHE_CAPACITY,
};
use symphony::orchestrator::events::{
    build_tool_args_preview, tool_args_preview_from, event_kind_for_agent_event, event_name, event_severity_for_agent_event,
    extract_tool_activity, parse_tool_notification, tool_activity_from_notification,
    truncate_for_display, AgentEvent, EventKind, EventSeverity, ToolActivity,
};
use symphony::orchestrator::issue::{
    available_slots, backend_stall_timeout_ms, completion_comments_enabled,
    effective_pi_model_for_issue, invalid_agent_review_note, is_active_state,
    is_blocked_by_dependency, is_candidate_for_blocked_check, is_terminal_state,
    issue_has_excluded_label, issue_has_required_fields, priority_rank,
    should_continue_issue_in_session, should_dispatch_issue, workspace_refresh_policy_for_dispatch,
    BlockerRef, ExistingWorkspaceRefreshPolicy, Issue, TrackerConfig,
};
use symphony::orchestrator::order::sort_issues_for_dispatch;
use symphony::orchestrator::rate_limit::{extract_retry_window_minutes, format_rate_limit_error};
use symphony::orchestrator::retry::{
    decide_due_retry, retry_delay_ms, DueRetryAction, RetryBook, RetryContext, RetryKind,
    RetryObservation, WorkerHostSelection,
};
use symphony::orchestrator::runtime::{
    accumulate_turn_metrics, format_elapsed_duration, workflow_dir_from_path,
    CompletionCommentBuilder, RuntimeEvent, TurnMetrics,
};

#[test]
fn workflow_dir_from_path_handles_root_level_workflow() {
    assert_eq!(workflow_dir_from_path("WORKFLOW.md"), ".");
    assert_eq!(workflow_dir_from_path(".symphony/WORKFLOW.md"), ".symphony");
}

#[test]
fn parse_tool_notification_start_with_args() {
    let msg = r#"tool_start: bash {"command":"cargo test","timeout":60}"#;
    let parsed = parse_tool_notification(msg).expect("notification should parse");

    assert_eq!(parsed.event_name, "tool_start");
    assert_eq!(parsed.tool_name.as_deref(), Some("bash"));
    assert_eq!(parsed.args_preview.as_deref(), Some("cargo test"));
    assert_eq!(
        parsed.summary.as_deref(),
        Some("bash {\"command\":\"cargo test\",\"timeout\":60}")
    );
}

#[test]
fn parse_tool_notification_start_no_args() {
    let parsed = parse_tool_notification("tool_start: read").expect("notification should parse");

    assert_eq!(parsed.event_name, "tool_start");
    assert_eq!(parsed.tool_name.as_deref(), Some("read"));
    assert!(parsed.args_preview.is_none());
    assert_eq!(parsed.summary.as_deref(), Some("read"));
}

#[test]
fn parse_tool_notification_end() {
    let parsed = parse_tool_notification("tool_end: bash").expect("notification should parse");

    assert_eq!(parsed.event_name, "tool_end");
    assert_eq!(parsed.summary.as_deref(), Some("bash"));
    assert!(matches!(tool_activity_from_notification(parsed), ToolActivity::Ended));
}

#[test]
fn parse_tool_notification_error() {
    let parsed = parse_tool_notification("tool_error: bash").expect("notification should parse");

    assert_eq!(parsed.event_name, "tool_error");
    assert_eq!(parsed.summary.as_deref(), Some("bash"));
    assert!(matches!(tool_activity_from_notification(parsed), ToolActivity::Ended));
}

#[test]
fn parse_tool_notification_unrelated() {
    assert!(parse_tool_notification("some other message").is_none());
}

#[test]
fn build_tool_args_preview_extracts_command() {
    let preview = build_tool_args_preview(r#"{"command":"cargo test --release"}"#);
    assert_eq!(preview, "cargo test --release");
}

#[test]
fn build_tool_args_preview_extracts_path() {
    let preview = build_tool_args_preview(r#"{"path":"src/main.rs","offset":10}"#);
    assert_eq!(preview, "src/main.rs");
}

#[test]
fn build_tool_args_preview_fallback_to_keys() {
    let preview = build_tool_args_preview("{\"selector\":\"btn\",\"text\":\"click\"}");
    assert_eq!(preview, "selector, text");
}

#[test]
fn build_tool_args_preview_invalid_json() {
    let preview = build_tool_args_preview("not json");
    assert_eq!(preview, "not json");
}

#[test]
fn build_tool_args_preview_strips_control_chars_on_invalid_json() {
    let preview = build_tool_args_preview("bad\x00json\nwith\tcontrol");
    assert_eq!(preview, "badjsonwithcontrol");
}

#[test]
fn build_tool_args_preview_other_shapes() {
    assert_eq!(build_tool_args_preview("[1,2]"), "[1,2]");
    assert_eq!(build_tool_args_preview("{}"), "{}");
    assert_eq!(build_tool_args_preview(r#"{"command":7,"url":"https://x.test"}"#), "https://x.test");
}

#[test]
fn extract_tool_activity_clears_on_turn_completed() {
    let event = AgentEvent::TurnCompleted {
        timestamp_ms: 0,
        message: None,
        input_tokens: 0,
        output_tokens: 0,
        total_tokens: 0,
        rate_limits: None,
    };
    assert!(matches!(extract_tool_activity(&event), ToolActivity::Ended));
}

#[test]
fn extract_tool_activity_clears_on_turn_failed() {
    let event = AgentEvent::TurnFailed { timestamp_ms: 0, error: "boom".to_string() };
    assert!(matches!(extract_tool_activity(&event), ToolActivity::Ended));
}

#[test]
fn tool_notifications_start_tools_and_classify_events() {
    let start = AgentEvent::Notification {
        timestamp_ms: 1,
        message: r#"tool_start: read {"path":"a.rs"}"#.to_string(),
    };
    assert_eq!(
        extract_tool_activity(&start),
        ToolActivity::Started { name: "read".to_string(), args_preview: Some("a.rs".to_string()) }
    );
    assert_eq!(event_kind_for_agent_event(&start), EventKind::Tool);
    assert_eq!(event_severity_for_agent_event(&start), EventSeverity::Info);
    let error = AgentEvent::Notification { timestamp_ms: 1, message: "tool_error: read".to_string() };
    assert_eq!(event_severity_for_agent_event(&error), EventSeverity::Error);
    let plain = AgentEvent::Notification { timestamp_ms: 1, message: "hello".to_string() };
    assert_eq!(event_kind_for_agent_event(&plain), EventKind::Worker);
    assert_eq!(extract_tool_activity(&plain), ToolActivity::Idle);
    assert_eq!(event_name(&plain), "notification");
    let other = AgentEvent::OtherMessage { timestamp_ms: 1, raw: JsonValue::Object(vec![]) };
    assert_eq!(event_severity_for_agent_event(&other), EventSeverity::Debug);
    let cancelled = AgentEvent::EscalationCancelled {
        timestamp_ms: 1,
        issue_id: "1".to_string(),
        issue_identifier: "KAT-1".to_string(),
        request_id: "r".to_string(),
        reason: "shutdown".to_string(),
    };
    assert_eq!(event_kind_for_agent_event(&cancelled), EventKind::EscalationCancelled);
    assert_eq!(event_severity_for_agent_event(&cancelled), EventSeverity::Warn);
    assert_eq!(event_name(&cancelled), "escalation_cancelled");
}

#[test]
fn truncation_appends_an_ellipsis_only_when_cut() {
    assert_eq!(truncate_for_display("short", 10), "short");
    assert_eq!(truncate_for_display("abcdef", 3), "abc…");
}

#[test]
fn rate_limit_errors_show_the_retry_window() {
    assert_eq!(extract_retry_window_minutes("try again in 2 hours 30 minutes"), Some(150));
    assert_eq!(extract_retry_window_minutes("retry in 30s"), Some(1));
    assert_eq!(extract_retry_window_minutes("retry in 90 seconds"), Some(2));
    assert_eq!(extract_retry_window_minutes("5 mangoes"), None);
    assert_eq!(extract_retry_window_minutes("no numbers"), None);
    assert_eq!(format_rate_limit_error("Rate limit reached; retry in 5 min"), "rate limit: retry in ~5 min");
    assert_eq!(format_rate_limit_error("usage limit hit"), "rate limit: usage limit hit");
    assert_eq!(format_rate_limit_error("disk full"), "disk full");
    let long = "x".repeat(250);
    assert_eq!(format_rate_limit_error(&long).chars().count(), 201);
}

fn issue(id: &str, identifier: &str, priority: Option<i32>, created: Option<i64>) -> Issue {
    Issue {
        id: id.to_string(),
        identifier: identifier.to_string(),
        title: "Title".to_string(),
        state: "Todo".to_string(),
        priority,
        created_at_us: created,
        labels: vec![],
        assigned_to_worker: true,
        parent_identifier: None,
        blocked_by: vec![],
        url: None,
    }
}

fn tracker() -> TrackerConfig {
    TrackerConfig {
        kind: Some("GitHub".to_string()),
        active_states: vec!["Todo".to_string(), "In Progress".to_string()],
        terminal_states: vec!["Done".to_string(), " ".to_string()],
        exclude_labels: vec![" Blocked ".to_string(), "".to_string()],
    }
}

#[test]
fn dispatch_order_is_priority_then_age_then_identifier() {
    let sorted = sort_issues_for_dispatch(vec![
        issue("1", "KAT-3", None, Some(5)),
        issue("2", "KAT-2", Some(2), Some(9)),
        issue("3", "KAT-1", Some(2), Some(3)),
        issue("4", "KAT-0", Some(0), None),
        issue("5", "KAT-4", Some(2), Some(3)),
    ]);
    let ids: Vec<&str> = sorted.iter().map(|i| i.id.as_str()).collect();
    assert_eq!(ids, vec!["3", "5", "2", "1", "4"]);
    assert_eq!(priority_rank(Some(4)), 4);
    assert_eq!(priority_rank(Some(9)), 5);
    assert_eq!(priority_rank(None), 5);
}

#[test]
fn dispatch_rules_follow_state_labels_claims_and_slots() {
    let t = tracker();
    let i = issue("1", "KAT-1", None, None);
    assert!(issue_has_required_fields(&i));
    assert!(is_candidate_for_blocked_check(&i, &t));
    assert!(should_dispatch_issue(&i, &t, &vec![], &vec![], 1));
    assert!(!should_dispatch_issue(&i, &t, &vec!["1".to_string()], &vec![], 1));
    assert!(!should_dispatch_issue(&i, &t, &vec![], &vec!["9".to_string()], 1));
    let mut child = i.clone();
    child.parent_identifier = Some("KAT-0".to_string());
    assert!(!should_dispatch_issue(&child, &t, &vec![], &vec![], 2));
    let mut labelled = i.clone();
    labelled.labels = vec!["blocked".to_string()];
    assert!(issue_has_excluded_label(&labelled, &t));
    assert!(!should_dispatch_issue(&labelled, &t, &vec![], &vec![], 2));
    let mut done = i.clone();
    done.state = " done ".to_string();
    assert!(is_terminal_state(&done.state, &t));
    assert!(!is_candidate_for_blocked_check(&done, &t));
    let mut blank = i.clone();
    blank.state = "  ".to_string();
    assert!(!issue_has_required_fields(&blank));
    assert!(is_terminal_state("  ", &t));
    assert!(is_active_state("in progress", &t));
    assert_eq!(available_slots(3, 5), 0);
    assert_eq!(available_slots(3, 1), 2);
}

#[test]
fn blockers_block_until_terminal() {
    let t = tracker();
    let mut i = issue("1", "KAT-1", None, None);
    i.blocked_by = vec![
        BlockerRef { id: Some("2".into()), identifier: Some("KAT-2".into()), state: Some("In Progress".into()) },
        BlockerRef { id: Some("3".into()), identifier: Some("KAT-3".into()), state: Some("Done".into()) },
        BlockerRef { id: None, identifier: None, state: Some("Todo".into()) },
        BlockerRef { id: None, identifier: Some("X-1".into()), state: None },
    ];
    assert_eq!(is_blocked_by_dependency(&i, &t), (true, vec!["KAT-2".to_string(), "unknown".to_string()]));
    i.blocked_by.truncate(2);
    i.blocked_by.remove(0);
    assert_eq!(is_blocked_by_dependency(&i, &t), (false, vec![]));
}

#[test]
fn sessions_continue_only_in_the_dispatched_state() {
    let t = tracker();
    let i = issue("1", "KAT-1", None, None);
    assert!(should_continue_issue_in_session(&i, &t, " todo"));
    assert!(!should_continue_issue_in_session(&i, &t, "In Progress"));
    let mut unassigned = i.clone();
    unassigned.assigned_to_worker = false;
    assert!(!should_continue_issue_in_session(&unassigned, &t, "Todo"));
}

#[test]
fn pi_model_prefers_labels_then_state_then_default() {
    let mut config = ServiceConfig::default();
    config.pi_agent = PiAgentConfig {
        model: Some("default".to_string()),
        model_by_state: vec![("todo".to_string(), "state-model".to_string())],
        model_by_label: vec![("fast".to_string(), "label-model".to_string())],
        ..PiAgentConfig::default()
    };
    let mut i = issue("1", "KAT-1", None, None);
    assert_eq!(effective_pi_model_for_issue(&config, &i).as_deref(), Some("state-model"));
    i.labels = vec!["  ".to_string(), " FAST ".to_string()];
    assert_eq!(effective_pi_model_for_issue(&config, &i).as_deref(), Some("label-model"));
    i.labels = vec![];
    i.state = "Merging".to_string();
    assert_eq!(effective_pi_model_for_issue(&config, &i).as_deref(), Some("default"));
}

#[test]
fn small_dispatch_helpers() {
    let mut config = ServiceConfig::default();
    config.codex.stall_timeout_ms = u64::MAX;
    assert_eq!(backend_stall_timeout_ms(&config, AgentBackend::Codex), i64::MAX);
    assert_eq!(backend_stall_timeout_ms(&config, AgentBackend::KataCli), 300_000);
    assert!(completion_comments_enabled(&tracker()));
    let mut i = issue("1", "KAT-1", None, None);
    assert_eq!(workspace_refresh_policy_for_dispatch(&i, None), ExistingWorkspaceRefreshPolicy::Strict);
    assert_eq!(workspace_refresh_policy_for_dispatch(&i, Some(1)), ExistingWorkspaceRefreshPolicy::AllowStale);
    i.state = "In Progress".to_string();
    assert_eq!(workspace_refresh_policy_for_dispatch(&i, None), ExistingWorkspaceRefreshPolicy::AllowStale);
    let note = invalid_agent_review_note(&i, None, "no PR");
    assert!(note.contains("- branch: `unknown`\n- reason: no PR\n"));
    assert!(note.ends_with("then move `KAT-1` back to `Agent Review`."));
}

#[test]
fn retry_delays_back_off_and_cap() {
    assert_eq!(retry_delay_ms(RetryKind::Continuation, 7, 0), 1_000);
    assert_eq!(retry_delay_ms(RetryKind::Failure, 0, 300_000), 10_000);
    assert_eq!(retry_delay_ms(RetryKind::Failure, 1, 300_000), 10_000);
    assert_eq!(retry_delay_ms(RetryKind::Failure, 3, 300_000), 40_000);
    assert_eq!(retry_delay_ms(RetryKind::Failure, 10, 300_000), 300_000);
    assert_eq!(retry_delay_ms(RetryKind::Failure, 50, u64::MAX), 10_240_000);
}

#[test]
fn retry_tokens_fire_once_and_go_stale() {
    let mut book = RetryBook::new();
    let first = book.schedule_retry_with_context("i1", "KAT-1", 1, RetryKind::Failure, 1_000, None, RetryContext::default(), 300_000);
    assert_eq!(first, "retry-1");
    let due = book.due_retries(11_000);
    assert_eq!(due.len(), 1);
    assert_eq!(due[0].due_at_ms, 11_000);
    assert_eq!(book.due_retries(10_999).len(), 0);
    let second = book.schedule_retry_with_context("i1", "KAT-1", 2, RetryKind::Failure, 1_000, Some("boom".into()), RetryContext::default(), 300_000);
    assert_eq!(second, "retry-2");
    assert_eq!(
        book.stale_retry_event("i1", &first),
        Some(RuntimeEvent::RetryIgnoredStale { issue_id: "i1".into(), token: first.clone() })
    );
    assert_eq!(book.stale_retry_event("i1", &second), None);
    assert!(!book.fire_retry("i1", &first));
    assert!(book.fire_retry("i1", &second));
    assert_eq!(book.stale_retry_event("i1", &first), None);
    assert!(!book.fire_retry("i1", &second));
    assert!(!book.fire_retry("other", "retry-9"));
}

#[test]
fn retries_resume_the_session_they_were_scheduled_with() {
    let mut book = RetryBook::new();
    assert_eq!(book.session_id("i1"), None);
    let context = RetryContext {
        worker_host: Some("w1".into()),
        workspace_path: Some("/ws/i1".into()),
        session_id: Some("sess-1".into()),
    };
    let token = book.schedule_retry_with_context("i1", "KAT-1", 1, RetryKind::Continuation, 0, None, context, 300_000);
    assert_eq!(book.session_id("i1").as_deref(), Some("sess-1"));
    assert_eq!(book.session_id("i2"), None);
    let due = book.due_retries(1_000);
    assert_eq!(due[0].worker_host.as_deref(), Some("w1"));
    book.schedule_retry_with_context("i1", "KAT-1", 2, RetryKind::Failure, 0, None, RetryContext::default(), 300_000);
    assert_eq!(book.session_id("i1").as_deref(), Some("sess-1"));
    assert!(!book.fire_retry("i1", &token));
    assert_eq!(book.session_id("i1").as_deref(), Some("sess-1"));
}

#[test]
fn due_retries_reschedule_release_or_dispatch() {
    assert_eq!(
        decide_due_retry(2, RetryObservation::PollFailed("timeout".into())),
        DueRetryAction::Reschedule { attempt: 3, kind: RetryKind::Failure, error: "retry poll failed: timeout".into() }
    );
    assert_eq!(
        decide_due_retry(u32::MAX, RetryObservation::RefreshFailed("x".into())),
        DueRetryAction::Reschedule { attempt: u32::MAX, kind: RetryKind::Failure, error: "retry refresh failed: x".into() }
    );
    assert_eq!(decide_due_retry(1, RetryObservation::Hidden { terminal: true }), DueRetryAction::MarkTerminal);
    assert_eq!(decide_due_retry(1, RetryObservation::Hidden { terminal: false }), DueRetryAction::Release);
    assert_eq!(decide_due_retry(1, RetryObservation::Withheld), DueRetryAction::Skip);
    assert_eq!(
        decide_due_retry(4, RetryObservation::Visible { terminal: false, dispatchable: true, host: WorkerHostSelection::NoneAvailable, active: true }),
        DueRetryAction::Reschedule { attempt: 4, kind: RetryKind::Continuation, error: "ssh pool exhausted".into() }
    );
    assert_eq!(
        decide_due_retry(4, RetryObservation::Visible { terminal: false, dispatchable: true, host: WorkerHostSelection::Remote("h1".into()), active: true }),
        DueRetryAction::Dispatch { attempt: 4, worker_host: Some("h1".into()) }
    );
    assert_eq!(
        decide_due_retry(4, RetryObservation::Visible { terminal: false, dispatchable: false, host: WorkerHostSelection::Local, active: false }),
        DueRetryAction::Release
    );
    assert_eq!(
        decide_due_retry(4, RetryObservation::Visible { terminal: false, dispatchable: false, host: WorkerHostSelection::Local, active: true }),
        DueRetryAction::Reschedule { attempt: 5, kind: RetryKind::Failure, error: "no available orchestrator slots".into() }
    );
}

fn request(id: &str, issue_id: &str) -> EscalationRequest {
    EscalationRequest {
        id: id.to_string(),
        issue_id: issue_id.to_string(),
        issue_identifier: "KAT-1".to_string(),
        method: "ask".to_string(),
        payload: "{}".to_string(),
        created_at_ms: 0,
        timeout_ms: 1_000,
    }
}

#[test]
fn escalations_resolve_once_and_remember_the_answer() {
    let mut state = EscalationRegistryState::new();
    state.register(request("r1", "i1"));
    state.register(request("r2", "i2"));
    assert_eq!(state.begin_resolve("r1"), EscalationLookup::Pending(request("r1", "i1")));
    assert_eq!(state.finish_resolve("r1".to_string(), true), EscalationResolveResult::Resolved);
    assert_eq!(state.begin_resolve("r1"), EscalationLookup::AlreadyResolved);
    assert_eq!(state.begin_resolve("nope"), EscalationLookup::NotFound);
    state.register(request("r1", "i1"));
    assert!(matches!(state.begin_resolve("r1"), EscalationLookup::Pending(_)));
    assert_eq!(state.finish_resolve("r1".to_string(), false), EscalationResolveResult::NotFound);
    assert_eq!(state.cancel_for_issue("i2"), vec![request("r2", "i2")]);
    assert!(!state.remove("r2"));
}

#[test]
fn cancelled_escalations_are_not_remembered_as_resolved() {
    let mut state = EscalationRegistryState::new();
    state.register(request("a", "i1"));
    state.register(request("b", "i2"));
    state.register(request("c", "i1"));
    assert_eq!(state.cancel_for_issue("i1"), vec![request("a", "i1"), request("c", "i1")]);
    assert_eq!(state.begin_resolve("a"), EscalationLookup::NotFound);
    assert_eq!(state.begin_resolve("c"), EscalationLookup::NotFound);
    assert_eq!(state.begin_resolve("b"), EscalationLookup::Pending(request("b", "i2")));
    assert_eq!(state.cancel_for_issue("i1"), Vec::<EscalationRequest>::new());
}

#[test]
fn resolved_cache_forgets_the_oldest_past_capacity() {
    let mut cache = ResolvedEscalationCache::new();
    for n in 0..(ESCALATION_RESOLVED_CACHE_CAPACITY + 1) {
        cache.insert(format!("r{n}"));
    }
    assert!(!cache.contains("r0"));
    assert!(cache.contains("r1"));
    assert!(cache.contains(&format!("r{}", ESCALATION_RESOLVED_CACHE_CAPACITY)));
    cache.remove("r1");
    assert!(!cache.contains("r1"));
}

#[test]
fn turn_metrics_accumulate_and_keep_latest_rate_limits() {
    let mut m: Option<TurnMetrics> = None;
    accumulate_turn_metrics(&mut m, 1, 2, 3, Some("{\"a\":1}".to_string()));
    accumulate_turn_metrics(&mut m, u64::MAX, 1, 1, None);
    let m = m.unwrap();
    assert_eq!(m.input_tokens, u64::MAX);
    assert_eq!(m.output_tokens, 3);
    assert_eq!(m.total_tokens, 4);
    assert_eq!(m.rate_limits.as_deref(), Some("{\"a\":1}"));
}

#[test]
fn completion_comment_summarizes_the_run() {
    assert_eq!(format_elapsed_duration(-5), "0s");
    assert_eq!(format_elapsed_duration(65), "1m 5s");
    assert_eq!(format_elapsed_duration(3_725), "1h 2m 5s");
    let body = CompletionCommentBuilder::new("KAT-1", "Done", 3, 1_500, 61, None).build();
    assert_eq!(
        body,
        "## Symphony Execution Summary\n\n**Issue:** KAT-1\n**Status:** Done\n**Turns:** 3\n**Tokens:** 1500\n**Duration:** 1m 1s\n**Worker:** local"
    );
}

use symphony::orchestrator::pr_check::{
    branch_step, pr_check_advance, pr_check_command, pr_summary_status, AgentReviewPrStatus,
    CommandOutcome, PrCheckProgress, PrCheckStage, PullRequestViewSummary,
};

fn decode_pr_view(stdout: &str) -> Result<PullRequestViewSummary, String> {
    let value: serde_json::Value = serde_json::from_str(stdout).map_err(|e| e.to_string())?;
    let field = |k: &str| {
        value
            .get(k)
            .and_then(|v| v.as_str())
            .map(str::to_string)
            .ok_or_else(|| format!("missing field `{k}`"))
    };
    Ok(PullRequestViewSummary {
        url: field("url")?,
        state: field("state")?,
        head_ref_name: field("headRefName")?,
        base_ref_name: field("baseRefName")?,
    })
}

fn check_agent_review_pr_status_with<F>(expected_base: Option<&str>, run: F) -> AgentReviewPrStatus
where
    F: Fn(&str, &[&str]) -> Result<CommandOutcome, String>,
{
    let mut stage = PrCheckStage::ReadBranch;
    loop {
        let (program, args) = pr_check_command(&stage);
        let outcome = run(program, &args);
        match pr_check_advance(stage, outcome) {
            PrCheckProgress::Next(next) => stage = next,
            PrCheckProgress::Judge { branch, view } => {
                return pr_summary_status(&branch, expected_base, decode_pr_view(&view))
            }
            PrCheckProgress::Done(status) => return status,
        }
    }
}

fn ok(stdout: &str) -> Result<CommandOutcome, String> {
    Ok(CommandOutcome { success: true, stdout: stdout.to_string(), stderr: String::new() })
}

fn fake(view: &'static str) -> impl Fn(&str, &[&str]) -> Result<CommandOutcome, String> {
    move |program, args| match (program, args) {
        ("git", ["branch", "--show-current"]) => ok("sym/KAT-2499"),
        ("git", ["ls-remote", "--exit-code", "--heads", "origin", "sym/KAT-2499"]) => {
            ok("abc123\trefs/heads/sym/KAT-2499")
        }
        ("gh", ["pr", "view", "--json", "url,state,headRefName,baseRefName"]) => ok(view),
        _ => panic!("unexpected command: {} {:?}", program, args),
    }
}

#[test]
fn agent_review_pr_status_is_valid_when_branch_and_open_pr_match() {
    let status = check_agent_review_pr_status_with(
        Some("main"),
        fake(r#"{"url":"https://github.com/gannonh/kata/pull/999","state":"OPEN","headRefName":"sym/KAT-2499","baseRefName":"main"}"#),
    );
    assert_eq!(
        status,
        AgentReviewPrStatus::Valid {
            branch: "sym/KAT-2499".to_string(),
            pr_url: "https://github.com/gannonh/kata/pull/999".to_string(),
        }
    );
}

#[test]
fn agent_review_pr_status_reports_missing_pr_for_branch() {
    let status = check_agent_review_pr_status_with(Some("main"), |program, args| match (program, args) {
        ("git", ["branch", "--show-current"]) => ok("sym/KAT-2499"),
        ("git", ["ls-remote", "--exit-code", "--heads", "origin", "sym/KAT-2499"]) => {
            ok("abc123\trefs/heads/sym/KAT-2499")
        }
        ("gh", ["pr", "view", "--json", "url,state,headRefName,baseRefName"]) => Ok(CommandOutcome {
            success: false,
            stdout: String::new(),
            stderr: "no pull requests found for branch \"sym/KAT-2499\"".to_string(),
        }),
        _ => panic!("unexpected command: {} {:?}", program, args),
    });
    assert_eq!(
        status,
        AgentReviewPrStatus::Missing {
            branch: Some("sym/KAT-2499".to_string()),
            reason: "no open PR found for current branch `sym/KAT-2499`".to_string(),
        }
    );
}

#[test]
fn agent_review_pr_status_rejects_closed_prs() {
    let status = check_agent_review_pr_status_with(
        Some("main"),
        fake(r#"{"url":"https://github.com/gannonh/kata/pull/999","state":"CLOSED","headRefName":"sym/KAT-2499","baseRefName":"main"}"#),
    );
    assert_eq!(
        status,
        AgentReviewPrStatus::Missing {
            branch: Some("sym/KAT-2499".to_string()),
            reason: "PR exists but is not open (state: CLOSED)".to_string(),
        }
    );
}

#[test]
fn agent_review_pr_status_reports_missing_remote_branch() {
    let status = check_agent_review_pr_status_with(Some("main"), |program, args| match (program, args) {
        ("git", ["branch", "--show-current"]) => ok("sym/KAT-2499"),
        ("git", ["ls-remote", "--exit-code", "--heads", "origin", "sym/KAT-2499"]) => Ok(CommandOutcome {
            success: false,
            stdout: String::new(),
            stderr: String::new(),
        }),
        _ => panic!("unexpected command: {} {:?}", program, args),
    });
    assert_eq!(
        status,
        AgentReviewPrStatus::Missing {
            branch: Some("sym/KAT-2499".to_string()),
            reason: "remote branch is missing on origin (ref not found)".to_string(),
        }
    );
}

#[test]
fn agent_review_pr_status_rejects_head_ref_mismatch() {
    let status = check_agent_review_pr_status_with(
        Some("main"),
        fake(r#"{"url":"https://github.com/gannonh/kata/pull/999","state":"OPEN","headRefName":"sym/KAT-9999","baseRefName":"main"}"#),
    );
    assert_eq!(
        status,
        AgentReviewPrStatus::Missing {
            branch: Some("sym/KAT-2499".to_string()),
            reason: "PR head branch `sym/KAT-9999` does not match current branch `sym/KAT-2499`".to_string(),
        }
    );
}

#[test]
fn agent_review_pr_status_rejects_base_ref_mismatch() {
    let status = check_agent_review_pr_status_with(
        Some("main"),
        fake(r#"{"url":"https://github.com/gannonh/kata/pull/999","state":"OPEN","headRefName":"sym/KAT-2499","baseRefName":"develop"}"#),
    );
    assert_eq!(
        status,
        AgentReviewPrStatus::Missing {
            branch: Some("sym/KAT-2499".to_string()),
            reason: "PR base branch `develop` does not match expected `main`".to_string(),
        }
    );
}

#[test]
fn agent_review_pr_status_check_failed_on_command_error() {
    let status = check_agent_review_pr_status_with(Some("main"), |program, args| match (program, args) {
        ("git", ["branch", "--show-current"]) => {
            Err("git branch --show-current timed out after 30s".to_string())
        }
        _ => panic!("unexpected command: {} {:?}", program, args),
    });
    assert_eq!(
        status,
        AgentReviewPrStatus::CheckFailed {
            reason: "could not determine current branch: git branch --show-current timed out after 30s".to_string(),
        }
    );
}

#[test]
fn detached_branches_and_undecodable_views_are_missing() {
    assert_eq!(
        branch_step(ok("HEAD")),
        Err(AgentReviewPrStatus::Missing { branch: None, reason: "current branch is detached or empty".to_string() })
    );
    assert_eq!(
        branch_step(Ok(CommandOutcome { success: false, stdout: "out".into(), stderr: String::new() })),
        Err(AgentReviewPrStatus::Missing { branch: None, reason: "could not determine current branch: out".to_string() })
    );
    assert_eq!(
        pr_summary_status("b", Some("  "), Err("expected value".to_string())),
        AgentReviewPrStatus::Missing { branch: Some("b".to_string()), reason: "could not parse `gh pr view` output: expected value".to_string() }
    );
}

#[test]
fn tool_args_previews_follow_the_decoded_arguments() {
    let args = JsonValue::Object(vec![
        ("b".to_string(), JsonValue::Null),
        ("a".to_string(), JsonValue::Str("x".to_string())),
    ]);
    assert_eq!(tool_args_preview_from("ignored", Some(&args)), "b, a");
    assert_eq!(tool_args_preview_from("a\u{7}b", None), "ab");
    assert_eq!(tool_args_preview_from("7", Some(&JsonValue::Null)), "7");
    assert_eq!(build_tool_args_preview(r#"{"b":1,"a":2}"#), "a, b");
}

#[test]
fn worker_hosts_prefer_the_previous_host_then_the_least_loaded() {
    let hosts = vec!["a".to_string(), "b".to_string(), "c".to_string()];
    let running = vec![Some("a".to_string()), Some("a".to_string()), Some("b".to_string()), None];
    assert_eq!(count_host_load(&running, "a"), 2);
    assert_eq!(count_host_load(&running, "z"), 0);
    assert_eq!(
        select_worker_host(false, &hosts, &running, Some(2), Some("a")),
        WorkerHostSelection::Remote("c".to_string())
    );
    assert_eq!(
        select_worker_host(false, &hosts, &running, Some(2), Some("b")),
        WorkerHostSelection::Remote("b".to_string())
    );
    assert_eq!(
        select_worker_host(false, &hosts, &vec![Some("a".to_string())], None, None),
        WorkerHostSelection::Remote("b".to_string())
    );
    let full = vec![Some("a".to_string()), Some("b".to_string()), Some("c".to_string())];
    assert_eq!(select_worker_host(false, &hosts, &full, Some(1), None), WorkerHostSelection::NoneAvailable);
    assert_eq!(select_worker_host(true, &hosts, &full, Some(1), None), WorkerHostSelection::Local);
    assert_eq!(select_worker_host(false, &Vec::new(), &full, Some(1), None), WorkerHostSelection::Local);
}

#[test]
fn pending_escalations_are_listed_oldest_first_with_their_question() {
    let mut state = EscalationRegistryState::new();
    let mut late = request("late", "i1");
    late.created_at_ms = 30;
    late.payload = r#"{"question":"Which branch?"}"#.to_string();
    let mut early = request("early", "i2");
    early.created_at_ms = 10;
    early.payload = "not json".to_string();
    let mut same = request("same", "i3");
    same.created_at_ms = 30;
    state.register(late);
    state.register(early);
    state.register(same);
    let listed = state.pending_snapshot();
    let ids: Vec<&str> = listed.iter().map(|p| p.request_id.as_str()).collect();
    assert_eq!(ids, vec!["early", "late", "same"]);
    assert_eq!(listed[0].preview, "\"not json\"");
    assert_eq!(listed[1].preview, "Which branch?");
    assert_eq!(listed[2].preview, "{}");
    assert_eq!(escalation_preview_text(r#"{"questions":[{"prompt":"Ship it?"}]}"#), "Ship it?");
}

#[test]
fn resolving_one_escalation_leaves_unknown_ids_unknown() {
    let mut state = EscalationRegistryState::new();
    state.register(request("r1", "i1"));
    assert_eq!(state.begin_resolve("r1"), EscalationLookup::Pending(request("r1", "i1")));
    assert_eq!(state.finish_resolve("r1".to_string(), true), EscalationResolveResult::Resolved);
    assert_eq!(state.begin_resolve("r1"), EscalationLookup::AlreadyResolved);
    assert!(state.pending_snapshot().is_empty());
    assert_eq!(state.begin_resolve("zz"), EscalationLookup::NotFound);
    state.register(request("r2", "i1"));
    assert!(matches!(state.begin_resolve("r2"), EscalationLookup::Pending(_)));
    assert_eq!(state.finish_resolve("r2".to_string(), true), EscalationResolveResult::Resolved);
    assert_eq!(state.begin_resolve("r1"), EscalationLookup::AlreadyResolved);
}

#[test]
fn pr_check_stages_run_branch_remote_then_view() {
    let (program, args) = pr_check_command(&PrCheckStage::ReadBranch);
    assert_eq!((program, args), ("git", vec!["branch", "--show-current"]));
    let next = pr_check_advance(PrCheckStage::ReadBranch, ok("sym/KAT-1"));
    assert_eq!(next, PrCheckProgress::Next(PrCheckStage::ConfirmRemote { branch: "sym/KAT-1".into() }));
    let stage = PrCheckStage::ConfirmRemote { branch: "sym/KAT-1".into() };
    assert_eq!(
        pr_check_command(&stage),
        ("git", vec!["ls-remote", "--exit-code", "--heads", "origin", "sym/KAT-1"])
    );
    assert_eq!(
        pr_check_advance(stage, ok("abc\trefs/heads/sym/KAT-1")),
        PrCheckProgress::Next(PrCheckStage::ViewPullRequest { branch: "sym/KAT-1".into() })
    );
    let view = PrCheckStage::ViewPullRequest { branch: "sym/KAT-1".into() };
    assert_eq!(pr_check_command(&view).0, "gh");
    assert_eq!(
        pr_check_advance(view, ok("{}")),
        PrCheckProgress::Judge { branch: "sym/KAT-1".into(), view: "{}".into() }
    );
    assert!(matches!(pr_check_advance(PrCheckStage::ReadBranch, Err("boom".into())), PrCheckProgress::Done(_)));
}
