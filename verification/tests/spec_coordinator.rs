use symphony::specification::comment::{diagnostic_unchanged, ineligible_diagnostic_body};
use symphony::domain::{ServiceConfig, SymphonyError, TriageHarness};
use symphony::github::{GithubIssueComment, GithubUser};
use symphony::specification::coordinator::{
    agent_command, comment_author, harness_name, managed_revision_labels, revision_budget_message,
    revision_comments, revision_labels, spec_intake_gate, spec_path_input, spec_run_step,
    summarize_spec_poll, SpecCoordinator, SpecCoordinatorConfig, SpecDiagnostic, SpecIntakeGate,
    SpecIssueOutcome, SpecPollSummary, SpecRunStep, TriageIntakeIssue,
};
use symphony::specification::decision::{has_label, DecisionAction, IntakeComment};
use symphony::specification::revision::{revision_json_text, spec_issue_revision};
use symphony::specification::publication::{spec_publication_plan, SpecPublicationComment};
use symphony::specification::domain::SpecPublicationKind;
use symphony::json::JsonValue;

fn issue() -> TriageIntakeIssue {
    TriageIntakeIssue {
        issue_id: "1".to_string(),
        issue_number: 1,
        identifier: "#1".to_string(),
        title: "Add a section".to_string(),
        body: "Body".to_string(),
        labels: vec!["ready-to-spec".to_string()],
        non_managed_labels: Vec::new(),
        assignees: Vec::new(),
        milestone: None,
        comments: Vec::new(),
        created_at_ms: 1_785_024_000_000,
        updated_at_ms: 1_785_024_000_000,
        forge_host: "github.com".to_string(),
        repository: "owner/repo".to_string(),
        in_project: true,
    }
}

#[test]
fn empty_workspace_path_is_rejected_with_the_field_name() {
    let error = spec_path_input("   ", "workspace.repo").expect_err("empty paths are invalid");
    match error {
        SymphonyError::InvalidWorkflowConfig(m) => assert!(m.contains("workspace.repo")),
        other => panic!("unexpected {other:?}"),
    }
    assert_eq!(spec_path_input(" .symphony/workspaces ", "workspace.root").unwrap(), ".symphony/workspaces");
}

#[test]
fn pure_helpers_cover_label_matching_and_agent_command() {
    assert!(has_label(&["Ready-To-Spec".to_string()], "ready-to-spec"));
    assert!(!has_label(&["other".to_string()], "ready-to-spec"));
    assert_eq!(harness_name(TriageHarness::Pi), "pi");
    assert_eq!(harness_name(TriageHarness::Codex), "codex");

    let mut service = ServiceConfig::default();
    service.pi_agent.command = vec!["pi".into(), "--mode".into(), "rpc".into()];
    assert_eq!(agent_command(&service).unwrap()[0], "pi");
    service.pi_agent.command.clear();
    assert!(agent_command(&service).is_err());

    let comment = GithubIssueComment {
        id: 1,
        user: Some(GithubUser { login: "bot".into() }),
        body: None,
        html_url: None,
    };
    assert_eq!(comment_author(&comment), "bot");
    assert_eq!(comment_author(&GithubIssueComment { user: None, ..comment }), "");
}

#[test]
fn publishing_the_spec_comment_does_not_change_the_issue_revision() {
    let service = ServiceConfig::default();
    let before = spec_issue_revision(&issue(), &service, "symphony-bot");

    let mut after_publication = issue();
    after_publication.updated_at_ms = 1_785_027_600_000;
    after_publication.comments.push(IntakeComment {
        id: 10,
        author_login: "symphony-bot".to_string(),
        body: "<!-- symphony:spec:abc -->\n## Symphony specification".to_string(),
        created_at_ms: 1_785_027_600_000,
        updated_at_ms: 1_785_027_600_000,
    });

    assert_eq!(
        before,
        spec_issue_revision(&after_publication, &service, "symphony-bot"),
        "Symphony's own publication must not create a new revision pair"
    );
}

#[test]
fn human_feedback_comment_changes_the_issue_revision() {
    let service = ServiceConfig::default();
    let before = spec_issue_revision(&issue(), &service, "symphony-bot");

    let mut with_feedback = issue();
    with_feedback.comments.push(IntakeComment {
        id: 11,
        author_login: "maintainer".to_string(),
        body: "Please cover the error path too.".to_string(),
        created_at_ms: 1_785_031_200_000,
        updated_at_ms: 1_785_031_200_000,
    });

    assert_ne!(before, spec_issue_revision(&with_feedback, &service, "symphony-bot"));
}

#[test]
fn revision_comments_drop_only_symphony_owned_comments() {
    let own = IntakeComment {
        id: 10,
        author_login: "Symphony-Bot".to_string(),
        body: "<!-- symphony:spec:abc -->".to_string(),
        created_at_ms: 0,
        updated_at_ms: 0,
    };
    let human = IntakeComment { id: 11, author_login: "maintainer".to_string(), ..own.clone() };
    assert_eq!(revision_comments(&vec![own, human.clone()], "symphony-bot"), vec![human]);
}

#[test]
fn issue_revisions_digest_the_human_content() {
    let service = ServiceConfig::default();
    assert_eq!(
        revision_json_text(&issue(), &service, "symphony-bot"),
        r#"{"assignees":[],"body":"Body","comments":[],"labels":[],"milestone":null,"title":"Add a section"}"#
    );
    assert_eq!(
        spec_issue_revision(&issue(), &service, "symphony-bot"),
        "3f72d5fd2a6d4e4506c0b88a5f8844684038d71e7531c8d7578d527b9db35975"
    );
    let mut full = issue();
    full.labels.push("bug".to_string());
    full.assignees.push("ann".to_string());
    full.milestone = Some((3, "v1".to_string()));
    full.comments.push(IntakeComment {
        id: 11,
        author_login: "maintainer".to_string(),
        body: "Please cover the error path too.".to_string(),
        created_at_ms: 1_785_031_200_123,
        updated_at_ms: 1_785_031_200_000,
    });
    assert_eq!(
        revision_json_text(&full, &service, "symphony-bot"),
        r#"{"assignees":["ann"],"body":"Body","comments":[{"body":"Please cover the error path too.","created_at":"2026-07-26T02:00:00.123Z","id":11,"updated_at":"2026-07-26T02:00:00Z"}],"labels":["bug"],"milestone":[3,"v1"],"title":"Add a section"}"#
    );
    assert_eq!(
        spec_issue_revision(&full, &service, "symphony-bot"),
        "89c32ba4e651493b806be62fa4d696518b2c270bcefa62f962a8764d6f42a0ff"
    );
}

#[test]
fn managed_labels_are_left_out_of_the_revision() {
    let mut service = ServiceConfig::default();
    service.triage.route_labels = vec!["needs-info".to_string()];
    let managed = managed_revision_labels(&service);
    assert_eq!(
        managed,
        vec!["ready-to-spec", "spec-approved", "spec-revise", "ready-for-agent", "needs-info", "needs-triage"]
    );
    let labels = vec!["Spec-Approved".to_string(), "bug".to_string(), "NEEDS-INFO".to_string()];
    assert_eq!(revision_labels(&labels, &managed), vec!["bug".to_string()]);
}

#[test]
fn intake_gate_and_decision_steps() {
    let mut service = ServiceConfig::default();
    service.triage.enabled = true;
    let mut dual = issue();
    dual.labels.push("Needs-Triage".to_string());
    assert_eq!(spec_intake_gate(&dual, &service), SpecIntakeGate::SkipTriageOwned);
    let mut off = issue();
    off.in_project = false;
    assert_eq!(spec_intake_gate(&off, &service), SpecIntakeGate::Ineligible);
    assert_eq!(spec_intake_gate(&issue(), &service), SpecIntakeGate::Proceed);

    assert_eq!(spec_run_step(&DecisionAction::Conflict, true, true), SpecRunStep::Diagnose(SpecDiagnostic::LabelConflict));
    assert_eq!(spec_run_step(&DecisionAction::Revise { feedback: vec![] }, true, true), SpecRunStep::RequestRevision);
    assert_eq!(spec_run_step(&DecisionAction::ReviseWithoutFeedback, true, true), SpecRunStep::Diagnose(SpecDiagnostic::MissingFeedback));
    assert_eq!(spec_run_step(&DecisionAction::Approve, true, true), SpecRunStep::Approve);
    assert_eq!(spec_run_step(&DecisionAction::StaleApproval, false, true), SpecRunStep::Diagnose(SpecDiagnostic::StaleApproval));
    assert_eq!(spec_run_step(&DecisionAction::NoDecision, true, false), SpecRunStep::RepublishLatest);
    assert_eq!(spec_run_step(&DecisionAction::NoDecision, true, true), SpecRunStep::Skip);
    assert_eq!(spec_run_step(&DecisionAction::NoDecision, false, true), SpecRunStep::RunAttempt);
    assert_eq!(spec_run_step(&DecisionAction::ColdRevision, true, true), SpecRunStep::RunAttempt);
    assert_eq!(SpecDiagnostic::LabelConflict.text(), "Both `spec-approved` and `spec-revise` are present. Remove one label.");
    assert_eq!(
        revision_budget_message("limit 3 reached", "spec-revise"),
        "Revision request budget exhausted (limit 3 reached). Remove `spec-revise` or raise `spec.max_revision_requests`."
    );
}

#[test]
fn poll_summary_counts_each_issue_once() {
    let s = summarize_spec_poll(
        true,
        &vec![
            SpecIssueOutcome::Skipped,
            SpecIssueOutcome::Ineligible,
            SpecIssueOutcome::Approved,
            SpecIssueOutcome::Republished,
            SpecIssueOutcome::Attempted { revision: true, succeeded: true },
            SpecIssueOutcome::Attempted { revision: false, succeeded: false },
        ],
    );
    assert_eq!(s.issues_seen, 6);
    assert_eq!(s.skipped, 1);
    assert_eq!(s.ineligible, 1);
    assert_eq!(s.approved, 1);
    assert_eq!(s.published, 2);
    assert_eq!(s.attempts_started, 2);
    assert_eq!(s.attempts_completed, 1);
    assert_eq!(s.attempts_failed, 1);
    assert_eq!(s.revisions_requested, 1);
    assert!(!SpecPollSummary::default().spec_enabled);
}

#[test]
fn coordinator_keeps_its_collaborators() {
    let config = SpecCoordinatorConfig {
        forge_host: "github.com".into(),
        repository: "owner/repo".into(),
        owner_instance: "test".into(),
        workflow_dir: "/tmp".into(),
    };
    let c: SpecCoordinator<u8, u8, u8, u8, &str> = SpecCoordinator::new(1, 2, 3, 4, config);
    assert!(c.events.is_none());
    let c = c.with_events("sink");
    assert_eq!(c.events, Some("sink"));
    assert_eq!(c.config.repository, "owner/repo");
}

#[test]
fn ineligible_issues_get_one_owned_diagnostic() {
    assert_eq!(
        ineligible_diagnostic_body("intent-9", "ready-to-spec"),
        "<!-- symphony:spec:intent-9 -->\n## Symphony specification\n\nThis issue is not a member of the configured GitHub Project. Add it to the project and leave `ready-to-spec` applied."
    );
    assert!(diagnostic_unchanged(true, Some("missing feedback"), "missing feedback"));
    assert!(!diagnostic_unchanged(false, Some("missing feedback"), "missing feedback"));
    assert!(!diagnostic_unchanged(true, Some("old"), "missing feedback"));
    assert!(!diagnostic_unchanged(true, None, "missing feedback"));
}

fn effects(entries: Vec<(&str, JsonValue)>) -> JsonValue {
    JsonValue::Object(entries.into_iter().map(|(k, v)| (k.to_string(), v)).collect())
}

fn text(s: &str) -> JsonValue {
    JsonValue::Str(s.to_string())
}

fn number(n: u64) -> JsonValue {
    JsonValue::Number { text: n.to_string(), unsigned: Some(n) }
}

#[test]
fn spec_publications_plan_their_forge_effects() {
    assert_eq!(
        spec_publication_plan("p1", SpecPublicationKind::Preview, true, &effects(vec![])),
        Err(SymphonyError::StorageError("spec intent p1 is missing issue_number".to_string()))
    );
    let preview = effects(vec![("issue_number", number(42)), ("revise_label", text("needs-work"))]);
    let plan = spec_publication_plan("p1", SpecPublicationKind::Preview, true, &preview).unwrap();
    assert_eq!(plan.issue_number, 42);
    assert_eq!(plan.remove_labels, vec!["needs-work".to_string()]);
    assert_eq!(plan.comment, SpecPublicationComment::AwaitingDecision);
    assert_eq!(plan.completion_step, "spec_comment");
    assert_eq!(
        spec_publication_plan("p1", SpecPublicationKind::Preview, false, &preview),
        Err(SymphonyError::StorageError("spec preview intent p1 has no artifact".to_string()))
    );
    let bare = effects(vec![("issue_number", number(7))]);
    let plan = spec_publication_plan("d1", SpecPublicationKind::Diagnostic, false, &bare).unwrap();
    assert_eq!(plan.comment, SpecPublicationComment::NotInProject { intake_label: "ready-to-spec".to_string() });
    assert_eq!(plan.completion_step, "diagnostic_comment");
    let plan = spec_publication_plan("d1", SpecPublicationKind::Diagnostic, true, &bare).unwrap();
    assert_eq!(
        plan.comment,
        SpecPublicationComment::Diagnostic("Review the issue labels and feedback, then retry.".to_string())
    );
    assert_eq!(
        spec_publication_plan("a1", SpecPublicationKind::Approval, true, &bare),
        Err(SymphonyError::StorageError("spec approval intent is missing route_label".to_string()))
    );
    let approval = effects(vec![
        ("issue_number", number(9)),
        ("route_label", text("ready-for-agent")),
        ("project_state", text("Todo")),
    ]);
    let plan = spec_publication_plan("a1", SpecPublicationKind::Approval, true, &approval).unwrap();
    assert_eq!(plan.remove_labels, vec!["ready-to-spec", "spec-approved", "spec-revise"]);
    assert_eq!(plan.add_label.as_deref(), Some("ready-for-agent"));
    assert_eq!(plan.project_state.as_deref(), Some("Todo"));
    assert!(plan.pin_approval);
    assert_eq!(
        plan.comment,
        SpecPublicationComment::Approved { route_label: "ready-for-agent".to_string(), project_state: Some("Todo".to_string()) }
    );
    assert_eq!(plan.completion_step, "comment_final");
}
