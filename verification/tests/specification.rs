use symphony::specification::artifact::{validate_findings, validate_spec, SpecValidationError};
use symphony::specification::comment::{marker, render_spec_comment, SpecCommentState};
use symphony::specification::decision::{detect_decision, DecisionAction, DecisionInput, IntakeComment};
use symphony::specification::domain::{
    FindingSection, FindingSeverity, ReviewFinding, ReviewFindings, ReviewVerdict, SpecArtifact,
    SpecConfig, SpecDecision, SpecPublicationKind, SpecTurnKind, SpecTurnStatus,
    SPEC_SECTION_MAX_BYTES,
};
use symphony::specification::pipeline::{
    advance_pipeline, resolve_models, start_pipeline, PipelineError, PipelineStep,
    SpecPipelineConfig, SpecPipelinePrompts, SpecTurnOutput,
};
use symphony::domain::StageUsage;

fn valid_spec() -> SpecArtifact {
    SpecArtifact {
        schema_version: 1,
        product_behavior: "Users receive a spec.".to_string(),
        technical_approach: "Add a durable stage.".to_string(),
        acceptance_criteria: vec!["A comment is published.".to_string()],
        open_decisions: vec![],
    }
}

#[test]
fn spec_bounds_are_enforced() {
    let mut artifact = valid_spec();
    artifact.acceptance_criteria.clear();
    assert_eq!(validate_spec(&artifact).unwrap_err().field, "acceptance_criteria");
    artifact = valid_spec();
    artifact.product_behavior = "x".repeat(SPEC_SECTION_MAX_BYTES + 1);
    assert_eq!(validate_spec(&artifact).unwrap_err().field, "product_behavior");
}

#[test]
fn spec_validation_reports_messages_and_indexes() {
    assert!(validate_spec(&valid_spec()).is_ok());
    let mut artifact = valid_spec();
    artifact.schema_version = 2;
    let err = validate_spec(&artifact).unwrap_err();
    assert_eq!(err, SpecValidationError { field: "schema_version".into(), message: "must be exactly 1".into() });
    let mut artifact = valid_spec();
    artifact.acceptance_criteria.push("   ".to_string());
    let err = validate_spec(&artifact).unwrap_err();
    assert_eq!(err.field, "acceptance_criteria[1]");
    assert_eq!(err.message, "must be non-empty");
    let mut artifact = valid_spec();
    artifact.technical_approach = "é".repeat(8001);
    let err = validate_spec(&artifact).unwrap_err();
    assert_eq!(err.field, "technical_approach");
    assert_eq!(err.message, "must be at most 16000 UTF-8 bytes");
    let mut artifact = valid_spec();
    artifact.open_decisions = vec!["d".to_string(); 51];
    assert_eq!(validate_spec(&artifact).unwrap_err().message, "must contain 0 to 50 items");
}

#[test]
fn verdict_must_match_blocking_findings() {
    let findings = ReviewFindings {
        schema_version: 1,
        verdict: ReviewVerdict::Pass,
        findings: vec![ReviewFinding {
            severity: FindingSeverity::Blocking,
            section: FindingSection::General,
            summary: "Missing detail".to_string(),
            recommendation: "Add detail".to_string(),
        }],
    };
    assert_eq!(validate_findings(&findings).unwrap_err().field, "verdict");
}

#[test]
fn revise_verdict_requires_a_blocking_finding_and_items_are_checked() {
    let findings = ReviewFindings { schema_version: 1, verdict: ReviewVerdict::Revise, findings: vec![] };
    assert_eq!(
        validate_findings(&findings).unwrap_err().message,
        "'revise' requires at least one blocking finding"
    );
    let findings = ReviewFindings {
        schema_version: 1,
        verdict: ReviewVerdict::Pass,
        findings: vec![ReviewFinding {
            severity: FindingSeverity::Advisory,
            section: FindingSection::General,
            summary: "ok".to_string(),
            recommendation: " ".to_string(),
        }],
    };
    assert_eq!(validate_findings(&findings).unwrap_err().field, "findings[0].recommendation");
    assert_eq!(findings.blocking_count(), 0);
}

#[test]
fn renders_owned_versioned_preview() {
    let body = render_spec_comment(
        "intent",
        "run",
        "stage",
        1,
        2,
        &SpecArtifact {
            schema_version: 1,
            product_behavior: "Behavior".to_string(),
            technical_approach: "Approach".to_string(),
            acceptance_criteria: vec!["Observable".to_string()],
            open_decisions: vec![],
        },
        &vec![],
        SpecCommentState::Preview,
    );
    assert!(body.starts_with("<!-- symphony:spec:intent -->"));
    assert!(body.contains("**Version:** 2"));
    assert!(body.contains("### Product behavior"));
    assert!(body.contains("**Preview:**"));
}

#[test]
fn renders_approved_comment_with_findings_exactly() {
    let body = render_spec_comment(
        "i",
        "r",
        "s",
        3,
        12,
        &SpecArtifact {
            schema_version: 1,
            product_behavior: " B ".to_string(),
            technical_approach: "T".to_string(),
            acceptance_criteria: vec![" a1".to_string(), "a2 ".to_string()],
            open_decisions: vec!["d".to_string()],
        },
        &vec![ReviewFinding {
            severity: FindingSeverity::Blocking,
            section: FindingSection::AcceptanceCriteria,
            summary: " sum ".to_string(),
            recommendation: "rec".to_string(),
        }],
        SpecCommentState::Approved { route_label: "ready", project_state: Some("Todo") },
    );
    assert_eq!(
        body,
        "<!-- symphony:spec:i -->\n## Symphony specification\n\n**Version:** 12 · **Factory run:** `r` · **Attempt:** 3 (`s`)\n\n### Product behavior\n\nB\n\n### Technical approach\n\nT\n\n### Acceptance criteria\n\n- a1\n- a2\n\n### Open decisions\n\n- d\n\n### Unresolved blocking review findings\n\n- **AcceptanceCriteria:** sum — rec\n\n---\n**Approved — implementation-ready:** version 12; applied `ready` and project state `Todo`.\n"
    );
    assert_eq!(marker("abc"), "<!-- symphony:spec:abc -->");
}

#[test]
fn spec_defaults_match_a2_contract() {
    let config = SpecConfig::default();
    assert!(!config.enabled);
    assert_eq!(config.intake_label, "ready-to-spec");
    assert_eq!(config.turn_timeout_ms, 1_800_000);
    assert_eq!(config.max_intake_pages, 100);
    assert_eq!(config.max_review_cycles, 3);
    assert_eq!(config.max_attempts, 3);
    assert_eq!(config.max_revision_requests, 3);
    assert_eq!(config.labels.approved, "spec-approved");
    assert_eq!(config.labels.revise, "spec-revise");
    assert_eq!(config.approval_route.label, "ready-for-agent");
    assert_eq!(config.approval_route.state.as_deref(), Some("Todo"));
}

#[test]
fn managed_labels_and_names() {
    let config = SpecConfig::default();
    assert_eq!(
        config.managed_labels(),
        vec!["ready-to-spec", "spec-approved", "spec-revise", "ready-for-agent"]
    );
    assert_eq!(SpecTurnKind::Revise.as_str(), "revise");
    assert_eq!(SpecTurnStatus::Failed.as_str(), "failed");
    assert_eq!(SpecPublicationKind::Diagnostic.as_str(), "diagnostic");
    assert_eq!(SpecDecision::PendingApproval.as_str(), "pending_approval");
}

const NOW: i64 = 1_780_000_000_000;
const MINUTE: i64 = 60_000;

fn comment(created: i64, updated: i64) -> IntakeComment {
    IntakeComment {
        id: 1,
        author_login: "human".to_string(),
        body: "change this".to_string(),
        created_at_ms: created,
        updated_at_ms: updated,
    }
}

#[test]
fn both_labels_conflict_before_other_branches() {
    let config = SpecConfig::default();
    assert_eq!(
        detect_decision(DecisionInput {
            labels: &[config.labels.approved.clone(), config.labels.revise.clone()],
            comments: &[comment(NOW, NOW)],
            publisher_login: "bot",
            published_at_ms: NOW,
            revision_is_current: true,
            intake_revision_changed: false,
            config: &config,
        }),
        DecisionAction::Conflict
    );
}

#[test]
fn maintainer_feedback_counts_even_when_publisher_shares_their_login() {
    let config = SpecConfig::default();
    let mut own_spec_comment = comment(NOW - 5 * MINUTE, NOW - 5 * MINUTE);
    own_spec_comment.id = 1;
    own_spec_comment.author_login = "gannonh".to_string();
    own_spec_comment.body = "<!-- symphony:spec:abc -->\n## Symphony specification".to_string();

    let mut feedback = comment(NOW + MINUTE, NOW + MINUTE);
    feedback.id = 2;
    feedback.author_login = "gannonh".to_string();
    feedback.body = "Please cover the failure path.".to_string();

    let action = detect_decision(DecisionInput {
        labels: std::slice::from_ref(&config.labels.revise),
        comments: &[own_spec_comment, feedback],
        publisher_login: "gannonh",
        published_at_ms: NOW,
        revision_is_current: true,
        intake_revision_changed: false,
        config: &config,
    });

    match action {
        DecisionAction::Revise { feedback } => {
            assert_eq!(feedback.len(), 1, "only the unmarked comment is feedback");
            assert_eq!(feedback[0].id, 2);
        }
        other => panic!("expected a revision request, got {other:?}"),
    }
}

#[test]
fn edited_old_comment_counts_as_feedback() {
    let config = SpecConfig::default();
    let action = detect_decision(DecisionInput {
        labels: std::slice::from_ref(&config.labels.revise),
        comments: &[comment(NOW - 2 * MINUTE, NOW + MINUTE)],
        publisher_login: "bot",
        published_at_ms: NOW,
        revision_is_current: false,
        intake_revision_changed: true,
        config: &config,
    });
    assert!(matches!(action, DecisionAction::Revise { .. }));
}

#[test]
fn decision_table_covers_approve_stale_missing_feedback_and_cold_revision() {
    let config = SpecConfig::default();
    let input = |labels: &'static str, current: bool, changed: bool| -> DecisionAction {
        let label = match labels {
            "approved" => config.labels.approved.clone(),
            "revise" => config.labels.revise.clone(),
            "intake" => config.intake_label.clone(),
            _ => String::new(),
        };
        let labels = if label.is_empty() { vec![] } else { vec![label] };
        detect_decision(DecisionInput {
            labels: &labels,
            comments: &[],
            publisher_login: "bot",
            published_at_ms: NOW,
            revision_is_current: current,
            intake_revision_changed: changed,
            config: &config,
        })
    };
    assert_eq!(input("approved", true, false), DecisionAction::Approve);
    assert_eq!(input("approved", false, true), DecisionAction::StaleApproval);
    assert_eq!(input("revise", true, false), DecisionAction::ReviseWithoutFeedback);
    assert_eq!(input("intake", false, true), DecisionAction::ColdRevision);
    assert_eq!(input("", true, false), DecisionAction::NoDecision);
}

fn pipeline_config(max_review_cycles: u32) -> SpecPipelineConfig {
    SpecPipelineConfig {
        max_review_cycles,
        turn_timeout_ms: 100,
        harness: "pi".to_string(),
        draft_model: Some("draft".to_string()),
        review_model: Some("review".to_string()),
        prompts: SpecPipelinePrompts {
            draft: "draft".to_string(),
            review: "review".to_string(),
            revise: "revise".to_string(),
        },
    }
}

fn artifact() -> SpecArtifact {
    SpecArtifact {
        schema_version: 1,
        product_behavior: "behavior".to_string(),
        technical_approach: "approach".to_string(),
        acceptance_criteria: vec!["observable".to_string()],
        open_decisions: vec![],
    }
}

fn blocking() -> ReviewFindings {
    ReviewFindings {
        schema_version: 1,
        verdict: ReviewVerdict::Revise,
        findings: vec![ReviewFinding {
            severity: FindingSeverity::Blocking,
            section: FindingSection::AcceptanceCriteria,
            summary: "Not observable".to_string(),
            recommendation: "Name the response".to_string(),
        }],
    }
}

fn pass() -> ReviewFindings {
    ReviewFindings { schema_version: 1, verdict: ReviewVerdict::Pass, findings: vec![] }
}

#[test]
fn runs_draft_review_revise_review_with_isolated_inputs() {
    let (mut run, plan) = start_pipeline(pipeline_config(3), None).unwrap();
    assert_eq!(plan.kind, SpecTurnKind::Draft);
    let mut kinds = vec![plan.kind];
    let outputs = vec![
        SpecTurnOutput::Spec(artifact()),
        SpecTurnOutput::Findings(blocking()),
        SpecTurnOutput::Spec(artifact()),
        SpecTurnOutput::Findings(pass()),
    ];
    let mut plans = vec![plan];
    let mut finished = None;
    for output in outputs {
        match advance_pipeline(&mut run, output, StageUsage { input_tokens: 1, output_tokens: 2, total_tokens: 3 }) {
            PipelineStep::Run(plan) => {
                kinds.push(plan.kind);
                plans.push(plan);
            }
            PipelineStep::Finished(out) => finished = Some(out),
            PipelineStep::Failed(e) => panic!("unexpected failure {e:?}"),
        }
    }
    let outcome = finished.expect("pipeline finishes");
    assert_eq!(outcome.review_cycles, 2);
    assert_eq!(
        kinds,
        vec![SpecTurnKind::Draft, SpecTurnKind::Review, SpecTurnKind::Revise, SpecTurnKind::Review]
    );
    assert!(plans[1].blocking_findings.is_none());
    assert!(plans[1].human_feedback.is_none());
    assert_eq!(plans[1].model.as_deref(), Some("review"));
    assert_eq!(plans[2].blocking_findings.as_ref().map(Vec::len), Some(1));
    assert_eq!(plans.iter().map(|p| p.ordinal).collect::<Vec<_>>(), vec![1, 2, 3, 4]);
    assert_eq!(outcome.usage.total_tokens, 12);
}

#[test]
fn cap_publishes_with_bounded_open_decision() {
    let (mut run, _plan) = start_pipeline(pipeline_config(1), None).unwrap();
    assert!(matches!(
        advance_pipeline(&mut run, SpecTurnOutput::Spec(artifact()), StageUsage::default()),
        PipelineStep::Run(_)
    ));
    match advance_pipeline(&mut run, SpecTurnOutput::Findings(blocking()), StageUsage::default()) {
        PipelineStep::Finished(outcome) => {
            assert_eq!(outcome.unresolved_blocking_findings.len(), 1);
            assert!(outcome.artifact.open_decisions[0].contains("Not observable"));
            assert_eq!(
                outcome.artifact.open_decisions[0],
                "Unresolved review finding: Not observable — Name the response"
            );
        }
        _ => panic!("cap must finish the attempt"),
    }
}

#[test]
fn pipeline_rejects_bad_config_and_wrong_outputs() {
    assert_eq!(
        start_pipeline(pipeline_config(0), None).err(),
        Some(PipelineError::InvalidWorkflowConfig(
            "spec.max_review_cycles must be greater than 0".to_string()
        ))
    );
    let (mut run, _) = start_pipeline(pipeline_config(2), None).unwrap();
    match advance_pipeline(&mut run, SpecTurnOutput::Findings(pass()), StageUsage::default()) {
        PipelineStep::Failed(PipelineError::TriageError(m)) => {
            assert_eq!(m, "spec draft turn produced findings instead of a spec artifact")
        }
        _ => panic!("expected failure"),
    }
    let (mut run, _) = start_pipeline(pipeline_config(2), None).unwrap();
    let mut bad = artifact();
    bad.schema_version = 9;
    match advance_pipeline(&mut run, SpecTurnOutput::Spec(bad), StageUsage::default()) {
        PipelineStep::Failed(PipelineError::TriageError(m)) => assert_eq!(
            m,
            "spec draft turn produced invalid output: schema_version: must be exactly 1"
        ),
        _ => panic!("expected failure"),
    }
}

#[test]
fn model_resolution_matches_precedence() {
    assert_eq!(
        resolve_models(Some("spec"), None, Some("agent")),
        (Some("spec".to_string()), Some("spec".to_string()))
    );
    assert_eq!(
        resolve_models(None, Some("review"), Some("agent")),
        (Some("agent".to_string()), Some("review".to_string()))
    );
    assert_eq!(resolve_models(Some("  "), Some(" "), None), (None, None));
}

#[test]
fn any_cycle_cap_is_accepted_and_config_errors_are_reported() {
    let mut config = pipeline_config(u32::MAX);
    config.turn_timeout_ms = 0;
    assert_eq!(
        start_pipeline(config, None).err(),
        Some(PipelineError::InvalidWorkflowConfig(
            "spec.turn_timeout_ms must be greater than 0".to_string()
        ))
    );
    let (mut run, plan) = start_pipeline(pipeline_config(u32::MAX), None).unwrap();
    assert_eq!(plan.ordinal, 1);
    match advance_pipeline(&mut run, SpecTurnOutput::Spec(artifact()), StageUsage::default()) {
        PipelineStep::Run(plan) => assert_eq!(plan.ordinal, 2),
        _ => panic!("a valid draft is reviewed"),
    }
    match advance_pipeline(&mut run, SpecTurnOutput::Findings(blocking()), StageUsage::default()) {
        PipelineStep::Run(plan) => assert_eq!(plan.kind, SpecTurnKind::Revise),
        _ => panic!("below the cap a blocked review is revised"),
    }
}
