use symphony::orchestrator::pr_check::{agent_review_gate, needs_agent_review_check, AgentReviewGate, AgentReviewPrStatus};
use symphony::orchestrator::issue::{Issue, TrackerConfig};
use symphony::orchestrator::reconcile::{
    missing_running_ids, reconcile_action, state_change_notice, terminal_cleanup_plan,
    ReconcileAction, TerminalCleanup,
};
use symphony::orchestrator::runtime::{RuntimeEvent, SteerResult};
use symphony::orchestrator::steer::{
    decide_steer, normalize_steer_request, steer_delivery_result, steer_received_event,
    steer_result_event, SteerDecision, SteerDelivery, SteerTarget,
};

fn target(id: &str, identifier: &str, has_session: bool, has_channel: bool) -> SteerTarget {
    SteerTarget {
        issue_id: id.to_string(),
        issue_identifier: identifier.to_string(),
        has_session,
        has_channel,
    }
}

#[test]
fn steer_requests_are_normalized_and_previewed() {
    let r = normalize_steer_request("  kat-12 ", "  please rebase  ");
    assert_eq!(r.issue_identifier, "KAT-12");
    assert_eq!(r.instruction, "please rebase");
    assert_eq!(r.instruction_preview, "please rebase");
    let long = normalize_steer_request("x", &"a".repeat(150));
    assert_eq!(long.instruction_preview.chars().count(), 101);
    assert_eq!(
        steer_received_event(&r),
        RuntimeEvent::SteerReceived {
            issue_identifier: "KAT-12".into(),
            instruction_preview: "please rebase".into()
        }
    );
}

#[test]
fn steering_reaches_only_a_running_worker_with_a_session() {
    let targets = vec![
        target("1", "KAT-1", true, true),
        target("2", "Kat-2", false, true),
        target("3", "KAT-3", true, false),
    ];
    let empty = normalize_steer_request("KAT-1", "   ");
    assert_eq!(
        decide_steer(&empty, &targets),
        SteerDecision::Reply(SteerResult::DeliveryFailed { message: "instruction_empty".into() })
    );
    assert_eq!(
        decide_steer(&normalize_steer_request("kat-9", "go"), &targets),
        SteerDecision::Reply(SteerResult::IssueNotRunning)
    );
    assert_eq!(
        decide_steer(&normalize_steer_request("kat-2", "go"), &targets),
        SteerDecision::Reply(SteerResult::NoActiveSession)
    );
    assert_eq!(
        decide_steer(&normalize_steer_request("KAT-3", "go"), &targets),
        SteerDecision::Reply(SteerResult::NoActiveSession)
    );
    assert_eq!(
        decide_steer(&normalize_steer_request("kat-1", "go"), &targets),
        SteerDecision::Send { issue_id: "1".into(), issue_identifier: "KAT-1".into() }
    );
}

#[test]
fn steer_deliveries_become_results_and_events() {
    assert_eq!(
        steer_delivery_result("1".into(), "KAT-1".into(), SteerDelivery::Accepted),
        SteerResult::Delivered { issue_id: "1".into(), issue_identifier: "KAT-1".into() }
    );
    assert_eq!(
        steer_delivery_result("1".into(), "KAT-1".into(), SteerDelivery::ChannelClosed),
        SteerResult::NoActiveSession
    );
    assert_eq!(
        steer_delivery_result("1".into(), "KAT-1".into(), SteerDelivery::Refused("busy".into())),
        SteerResult::DeliveryFailed { message: "busy".into() }
    );
    assert_eq!(
        steer_delivery_result("1".into(), "KAT-1".into(), SteerDelivery::ResponseDropped),
        SteerResult::DeliveryFailed { message: "worker_follow_up_response_dropped".into() }
    );
    assert_eq!(
        steer_delivery_result("1".into(), "KAT-1".into(), SteerDelivery::TimedOut),
        SteerResult::DeliveryFailed { message: "worker_follow_up_timeout".into() }
    );
    assert_eq!(
        steer_result_event("KAT-1", &SteerResult::IssueNotRunning),
        RuntimeEvent::SteerFailed { issue_identifier: "KAT-1".into(), error: "issue_not_running".into() }
    );
    assert_eq!(
        steer_result_event("KAT-1", &SteerResult::NoActiveSession),
        RuntimeEvent::SteerFailed { issue_identifier: "KAT-1".into(), error: "no_active_session".into() }
    );
    assert_eq!(
        steer_result_event(
            "KAT-1",
            &SteerResult::Delivered { issue_id: "1".into(), issue_identifier: "Kat-1".into() }
        ),
        RuntimeEvent::SteerDelivered { issue_id: "1".into(), issue_identifier: "Kat-1".into() }
    );
}

fn issue(state: &str, assigned: bool) -> Issue {
    Issue {
        id: "1".to_string(),
        identifier: "KAT-1".to_string(),
        title: "Title".to_string(),
        state: state.to_string(),
        priority: None,
        created_at_us: None,
        labels: vec![],
        assigned_to_worker: assigned,
        parent_identifier: None,
        blocked_by: vec![],
        url: None,
    }
}

fn tracker() -> TrackerConfig {
    TrackerConfig {
        kind: None,
        active_states: vec!["Todo".into(), "In Progress".into(), "".into()],
        terminal_states: vec!["Done".into(), " ".into()],
        exclude_labels: vec![],
    }
}

#[test]
fn reconciliation_completes_releases_or_keeps() {
    let t = tracker();
    assert_eq!(reconcile_action(&issue(" done ", true), &t), ReconcileAction::Complete);
    assert_eq!(reconcile_action(&issue("In Progress", false), &t), ReconcileAction::Release);
    assert_eq!(reconcile_action(&issue("Backlog", true), &t), ReconcileAction::Release);
    assert_eq!(reconcile_action(&issue("  ", true), &t), ReconcileAction::Release);
    assert_eq!(reconcile_action(&issue("in progress", true), &t), ReconcileAction::Keep);
}

#[test]
fn state_changes_send_one_notice() {
    let i = issue("In Review", true);
    assert_eq!(state_change_notice(&i, None), None);
    assert_eq!(state_change_notice(&i, Some(" in review")), None);
    let n = state_change_notice(&i, Some("In Progress")).unwrap();
    assert_eq!(n.event_type, "in_review");
    assert_eq!(n.message, "Moved to In Review (was In Progress).");
}

#[test]
fn unreturned_running_issues_are_released() {
    let running = vec!["1".to_string(), "2".to_string(), "3".to_string()];
    let visible = vec!["2".to_string()];
    assert_eq!(missing_running_ids(&running, &visible), vec!["1".to_string(), "3".to_string()]);
    assert!(missing_running_ids(&running, &running).is_empty());
}

#[test]
fn terminal_workspaces_are_removed_unless_a_session_is_active() {
    assert_eq!(terminal_cleanup_plan(false, Some("/w/1"), None, None, false), TerminalCleanup::Keep);
    assert_eq!(terminal_cleanup_plan(true, None, None, None, false), TerminalCleanup::Keep);
    assert_eq!(
        terminal_cleanup_plan(true, Some("/w/1"), Some("/w/r"), Some("/w/h"), false),
        TerminalCleanup::Remove("/w/1".into())
    );
    assert_eq!(
        terminal_cleanup_plan(true, None, Some("/w/r"), Some("/w/h"), true),
        TerminalCleanup::Defer("/w/r".into())
    );
    assert_eq!(
        terminal_cleanup_plan(true, None, None, Some("/w/h"), false),
        TerminalCleanup::Remove("/w/h".into())
    );
}

#[test]
fn agent_review_issues_without_an_open_pr_are_demoted() {
    assert!(needs_agent_review_check(" Agent Review "));
    assert!(!needs_agent_review_check("In Progress"));
    let i = issue("Agent Review", true);
    assert_eq!(
        agent_review_gate(&i, AgentReviewPrStatus::Valid { branch: "b".into(), pr_url: "u".into() }),
        AgentReviewGate::Proceed
    );
    assert_eq!(
        agent_review_gate(&i, AgentReviewPrStatus::CheckFailed { reason: "timeout".into() }),
        AgentReviewGate::Skip
    );
    match agent_review_gate(&i, AgentReviewPrStatus::Missing { branch: None, reason: "no PR".into() }) {
        AgentReviewGate::Demote { note } => {
            assert!(note.contains("- branch: `unknown`"));
            assert!(note.contains("- reason: no PR"));
            assert!(note.ends_with("move `KAT-1` back to `Agent Review`."));
        }
        other => panic!("expected a demotion, got {:?}", other),
    }
}
