use symphony::domain::{AgentBackend, CodexConfig, PiAgentConfig, ServiceConfig, StageUsage, TriageHarness};
use symphony::github::{
    GithubIssueComment, GithubPullRequest, GithubPullRequestRef, GithubPullRequestReview,
    GithubUser, ProjectItem,
};
use symphony::review::coordinator::{
    candidate_gate, candidate_in_trigger_state, manifest_check, classify_review_publication_error,
    pull_revision_changed, render_review_diff, review_attempt_error_code,
    review_config_json_text, review_configuration_revision, review_path_input, review_route_state, summarize_poll,
    CandidateGate, CandidateStatus, ManifestCheck, ProcessOutcome, ReviewAttemptLoop,
    ReviewLoopAction, WorkerTurnEvent,
};
use symphony::review::domain::{
    ReviewConfig, ReviewFindingRecord, ReviewFindingsArtifactRecord, ReviewMode, ReviewRoute,
};
use symphony::review::findings::{
    parse_new_hunk_header, render_preview_comment, reviewed_files, GithubPullRequestFile,
};
use symphony::review::manifest::{
    parse_and_validate_review_manifest, ManifestValidationError, ReviewFinding, ReviewFindingCategory,
    ReviewFindingsManifest, ReviewSeverity, ReviewedFile, ReviewedLineRange,
};
use symphony::review::publisher::{
    check_formal_kind, check_preview_kind, find_owned_marker, render_review_comments,
    review_comment_marker, select_owned_review, ReviewPublisher,
};
use symphony::review::worker::{
    command_for_review, harness_for_service, model_for_review, review_worker_prompt,
};

fn pull(head: &str, base: &str) -> GithubPullRequest {
    GithubPullRequest {
        number: 1,
        html_url: String::new(),
        draft: false,
        state: "open".to_string(),
        title: String::new(),
        head: GithubPullRequestRef {
            ref_name: "head".to_string(),
            sha: head.to_string(),
        },
        base: GithubPullRequestRef {
            ref_name: "base".to_string(),
            sha: base.to_string(),
        },
        user: None,
        body: None,
    }
}

#[test]
fn file_retrieval_revision_guard_catches_head_or_base_changes() {
    let initial = pull("head-1", "base-1");
    assert!(!pull_revision_changed(&initial, &pull("head-1", "base-1")));
    assert!(pull_revision_changed(&initial, &pull("head-2", "base-1")));
    assert!(pull_revision_changed(&initial, &pull("head-1", "base-2")));
}

#[test]
fn live_head_after_candidate_reopen_is_a_valid_revision_baseline() {
    let candidate_head = "head-1";
    let live = pull("head-2", "base-1");
    assert_ne!(candidate_head, live.head.sha);
    assert!(!pull_revision_changed(&live, &pull("head-2", "base-1")));
}

#[test]
fn parses_hunk_ranges() {
    assert_eq!(parse_new_hunk_header("@@ -2,3 +10,4 @@"), Some((10, 4)));
    assert_eq!(parse_new_hunk_header("@@ -1 +1 @@"), Some((1, 1)));
}

#[test]
fn preserves_deleted_files_as_unanchorable() {
    let files = vec![GithubPullRequestFile {
        filename: "gone.rs".into(),
        status: "removed".into(),
        ..Default::default()
    }];
    let result = reviewed_files(&files);
    assert_eq!(result[0].line_count, 0);
    assert!(result[0].right_side_ranges.is_empty());
}

#[test]
fn treats_missing_patches_as_unanchorable() {
    let files = vec![GithubPullRequestFile {
        filename: "large.rs".into(),
        status: "modified".into(),
        additions: 20,
        patch: None,
        ..Default::default()
    }];
    let result = reviewed_files(&files);
    assert_eq!(result[0].line_count, 0);
    assert!(result[0].right_side_ranges.is_empty());
}

#[test]
fn model_selection_prefers_stage_then_agent_defaults() {
    let service = ServiceConfig {
        review: ReviewConfig {
            model: Some("review-model".to_string()),
            ..ReviewConfig::default()
        },
        pi_agent: PiAgentConfig {
            model: Some("agent-model".to_string()),
            ..PiAgentConfig::default()
        },
        ..ServiceConfig::default()
    };
    assert_eq!(model_for_review(&service).as_deref(), Some("review-model"));
    assert_eq!(harness_for_service(&service), TriageHarness::Pi);

    let service = ServiceConfig {
        review: ReviewConfig::default(),
        pi_agent: PiAgentConfig {
            model: Some("agent-model".to_string()),
            ..PiAgentConfig::default()
        },
        ..ServiceConfig::default()
    };
    assert_eq!(model_for_review(&service).as_deref(), Some("agent-model"));

    let service = ServiceConfig {
        agent_backend: AgentBackend::Codex,
        codex: CodexConfig {
            command: vec!["codex".to_string()],
            ..CodexConfig::default()
        },
        ..ServiceConfig::default()
    };
    assert_eq!(model_for_review(&service), None);
    assert_eq!(harness_for_service(&service), TriageHarness::Codex);
    assert!(command_for_review(&service).is_ok());

    let service = ServiceConfig {
        pi_agent: PiAgentConfig {
            command: vec![],
            ..PiAgentConfig::default()
        },
        ..ServiceConfig::default()
    };
    assert!(command_for_review(&service).is_err());
}

const HEAD: &str = "aaaaaaaaaaaaaaaaaaaaaaaaaaaaaaaaaaaaaaaa";
const BASE: &str = "bbbbbbbbbbbbbbbbbbbbbbbbbbbbbbbbbbbbbbbb";

fn files() -> Vec<ReviewedFile> {
    vec![
        ReviewedFile::new(
            "src/lib.rs".to_string(),
            40,
            vec![ReviewedLineRange::new(10, 20), ReviewedLineRange::new(30, 35)],
        ),
        ReviewedFile::new("src/deleted.rs".to_string(), 0, vec![]),
    ]
}

fn finding() -> ReviewFinding {
    ReviewFinding {
        finding_id: "finding-1".to_string(),
        severity: ReviewSeverity::Blocking,
        category: ReviewFindingCategory::Correctness,
        path: "src/lib.rs".to_string(),
        line: 12,
        end_line: Some(14),
        claim: "The retry guard is inverted.".to_string(),
        rationale: "The changed branch retries only after success.".to_string(),
        remediation: "Invert the condition.".to_string(),
        acceptance_criterion: Some("AC-4".to_string()),
        confidence_valid: true,
    }
}

fn valid_manifest() -> ReviewFindingsManifest {
    ReviewFindingsManifest {
        schema_version: 1,
        reviewed_head_sha: HEAD.to_string(),
        base_sha: BASE.to_string(),
        spec_conformance_summary: "The change satisfies the reviewed criterion.".to_string(),
        no_findings: false,
        findings: vec![finding()],
    }
}

fn validate(manifest: ReviewFindingsManifest) -> Result<ReviewFindingsManifest, String> {
    parse_and_validate_review_manifest("{}", Ok(manifest), HEAD, BASE, &files(), 50)
        .map_err(|e| e.to_display_string())
}

#[test]
fn accepts_a_pinned_manifest_with_resolvable_anchors() {
    let manifest = validate(valid_manifest()).expect("valid manifest");
    assert_eq!(manifest.findings.len(), 1);
    assert_eq!(manifest.findings[0].severity, ReviewSeverity::Blocking);
}

#[test]
fn rejects_a_finding_outside_the_reviewed_diff() {
    let mut value = valid_manifest();
    value.findings[0].path = "src/other.rs".to_string();
    let error = validate(value).expect_err("path must be in diff");
    assert!(error.contains("absent from the reviewed diff"));
}

#[test]
fn rejects_an_anchor_that_does_not_resolve_at_the_reviewed_head() {
    let mut value = valid_manifest();
    value.findings[0].line = 41;
    let error = validate(value).expect_err("line must resolve");
    assert!(error.contains("does not resolve"));
}

#[test]
fn rejects_an_anchor_outside_the_right_side_diff_ranges() {
    let mut value = valid_manifest();
    value.findings[0].line = 25;
    value.findings[0].end_line = Some(25);
    let error = validate(value).expect_err("anchor must be publishable in the diff");
    assert!(error.contains("right side of the reviewed diff"));
}

#[test]
fn rejects_a_multiline_anchor_that_crosses_a_diff_range_boundary() {
    let mut value = valid_manifest();
    value.findings[0].line = 18;
    value.findings[0].end_line = Some(22);
    let error = validate(value).expect_err("anchor must fit one diff range");
    assert!(error.contains("right side of the reviewed diff"));
}

#[test]
fn rejects_a_deleted_file_anchor() {
    let mut value = valid_manifest();
    value.findings[0].path = "src/deleted.rs".to_string();
    value.findings[0].line = 1;
    let error = validate(value).expect_err("deleted files have no right-side anchor");
    assert!(error.contains("1..=0"));
}

#[test]
fn requires_an_explicit_clean_review_affirmation() {
    let mut value = valid_manifest();
    value.findings = vec![];
    value.no_findings = false;
    let error = validate(value.clone()).expect_err("empty output is not a clean review");
    assert!(error.contains("no_findings affirmation"));

    value.no_findings = true;
    validate(value).expect("explicit clean review");
}

#[test]
fn rejects_no_findings_when_findings_are_present() {
    let mut value = valid_manifest();
    value.no_findings = true;
    let error = validate(value).expect_err("affirmation conflicts with findings");
    assert!(error.contains("when findings are present"));
}

#[test]
fn accepts_kebab_case_category_vocabulary() {
    let mut value = valid_manifest();
    value.findings[0].category = ReviewFindingCategory::SpecConformance;
    let manifest = validate(value.clone()).expect("spec-conformance category");
    assert_eq!(manifest.findings[0].category, ReviewFindingCategory::SpecConformance);
    assert_eq!(ReviewFindingCategory::SpecConformance.as_str(), "spec-conformance");

    value.findings[0].category = ReviewFindingCategory::TestCoverage;
    let manifest = validate(value).expect("test-coverage category");
    assert_eq!(manifest.findings[0].category, ReviewFindingCategory::TestCoverage);
    assert_eq!(ReviewFindingCategory::TestCoverage.as_str(), "test-coverage");
}

#[test]
fn rejects_a_manifest_for_a_different_head() {
    let mut value = valid_manifest();
    value.reviewed_head_sha = "cccccccccccccccccccccccccccccccccccccccc".to_string();
    let error = validate(value).expect_err("head is pinned");
    assert!(error.contains("pinned head"));
}

#[test]
fn rejects_duplicate_finding_ids_and_enforces_the_configured_limit() {
    let mut value = valid_manifest();
    let duplicate = value.findings[0].clone();
    value.findings.push(duplicate);
    let error = parse_and_validate_review_manifest("{}", Ok(value), HEAD, BASE, &files(), 1)
        .expect_err("duplicate and limit violations")
        .to_display_string();
    assert!(error.contains("configured maximum"));
    assert!(error.contains("duplicated"));
}

#[test]
fn oversized_or_undecodable_output_is_rejected_before_validation() {
    let raw = "x".repeat(262_145);
    let error = parse_and_validate_review_manifest(&raw, Ok(valid_manifest()), HEAD, BASE, &files(), 50)
        .expect_err("too large");
    assert!(error.to_display_string().contains("262145 bytes"));
    let error = parse_and_validate_review_manifest(
        "not json",
        Err("expected value at line 1 column 1".to_string()),
        HEAD,
        BASE,
        &files(),
        50,
    )
    .expect_err("decode error");
    assert!(error.to_display_string().contains("expected value"));
}

fn artifact(findings: Vec<ReviewFinding>) -> ReviewFindingsArtifactRecord {
    ReviewFindingsArtifactRecord {
        artifact_id: "artifact".to_string(),
        run_id: "run".to_string(),
        stage_run_id: "stage".to_string(),
        attempt_id: "attempt".to_string(),
        draft_pr_artifact_id: "draft".to_string(),
        implementation_artifact_id: "implementation".to_string(),
        spec_artifact_id: "spec".to_string(),
        schema_version: 1,
        reviewed_head_sha: "head".to_string(),
        base_sha: "base".to_string(),
        finding_count: findings.len() as u32,
        no_findings: findings.is_empty(),
        manifest: ReviewFindingsManifest {
            schema_version: 1,
            reviewed_head_sha: "head".to_string(),
            base_sha: "base".to_string(),
            spec_conformance_summary: "  Conforms  ".to_string(),
            no_findings: findings.is_empty(),
            findings,
        },
        received_at_ms: 0,
        bytes_len: 1,
    }
}

fn simple_finding(id: &str, claim: &str) -> ReviewFinding {
    ReviewFinding {
        finding_id: id.to_string(),
        severity: ReviewSeverity::Major,
        category: ReviewFindingCategory::Correctness,
        path: "src/lib.rs".to_string(),
        line: 10,
        end_line: None,
        claim: claim.to_string(),
        rationale: "rationale".to_string(),
        remediation: "remediation".to_string(),
        acceptance_criterion: None,
        confidence_valid: true,
    }
}

fn record(id: &str, state: &str) -> ReviewFindingRecord {
    ReviewFindingRecord {
        finding_record_id: format!("record-{id}"),
        run_id: "run".to_string(),
        artifact_id: "artifact".to_string(),
        finding_id: id.to_string(),
        identity_key: format!("src/lib.rs:10:10:{id}"),
        reviewed_head_sha: "head".to_string(),
        base_sha: "base".to_string(),
        lifecycle_state: state.to_string(),
    }
}

#[test]
fn formal_comments_suppress_only_persisting_findings() {
    let artifact = artifact(vec![
        simple_finding("persisting", "keep in summary"),
        simple_finding("new", "fresh"),
    ]);
    let records = vec![record("persisting", "persisting"), record("new", "new")];
    let comments = render_review_comments(&artifact, &records);
    assert_eq!(comments.len(), 1);
    assert!(comments[0].body.contains("fresh"));
    assert!(!comments[0].body.contains("keep in summary"));
}

#[test]
fn inline_comment_anchors_multiline_findings_on_the_right_side() {
    let mut f = simple_finding("f", "claim");
    f.end_line = Some(12);
    f.acceptance_criterion = Some("AC-1".to_string());
    let comments = render_review_comments(&artifact(vec![f]), &vec![]);
    assert_eq!(comments[0].line, 12);
    assert_eq!(comments[0].start_line, Some(10));
    assert_eq!(comments[0].start_side.as_deref(), Some("RIGHT"));
    assert_eq!(comments[0].side, "RIGHT");
    assert_eq!(
        comments[0].body,
        "**major** (correctness)\n\nclaim\n\n**Why:** rationale\n\n**Suggested remediation:** remediation\n\n**Acceptance criterion:** AC-1"
    );
}

#[test]
fn preview_comment_lists_counts_and_escapes_claims() {
    let mut blocking = simple_finding("b1", "line one\nhas | pipe");
    blocking.severity = ReviewSeverity::Blocking;
    blocking.end_line = Some(11);
    let body = render_preview_comment("intent-1", "run-1", &artifact(vec![blocking, simple_finding("m1", "minor thing")]));
    assert!(body.starts_with("<!-- symphony:review:intent-1 -->\n## Symphony A4 review preview\n\nFactory run `run-1` reviewed head `head` against base `base`.\n\nConforms\n"));
    assert!(body.contains("\nFindings: 2\n"));
    assert!(body.contains("| blocking | 1 |\n| major | 1 |\n"));
    assert!(body.contains("| `b1` | `blocking` | `correctness` | `src/lib.rs`:10-11 | line one has \\| pipe |\n"));
    assert!(body.ends_with("_This is a preview only. A4 PR1 creates no GitHub review, inline comment, tracker transition, approval, or merge._\n"));

    let clean = render_preview_comment("i", "r", &artifact(vec![]));
    assert!(clean.contains("**No findings.** The worker explicitly affirmed `no_findings`."));
    assert!(!clean.contains("| ID |"));
}

#[test]
fn route_state_follows_the_most_severe_finding() {
    let mut service = ServiceConfig::default();
    service.review.blocking_severity = ReviewSeverity::Major;
    service.review.completion_route = Some(ReviewRoute { state: " Done ".to_string() });
    service.review.changes_requested_route = Some(ReviewRoute { state: "In Progress".to_string() });
    let mut minor = simple_finding("a", "c");
    minor.severity = ReviewSeverity::Minor;
    assert_eq!(review_route_state(&artifact(vec![minor.clone()]), &service).as_deref(), Some("Done"));
    let major = simple_finding("b", "c");
    assert_eq!(review_route_state(&artifact(vec![minor, major]), &service).as_deref(), Some("In Progress"));
    service.review.completion_route = None;
    assert_eq!(review_route_state(&artifact(vec![]), &service), None);
}

#[test]
fn publication_errors_split_into_conflicts_and_retries() {
    let e = classify_review_publication_error("formal review marker X is Owned By Another GitHub login bob");
    assert_eq!(e.code, "review_publication_conflict");
    assert!(!e.retryable);
    assert_eq!(e.component, "review_publisher");
    let e = classify_review_publication_error("HTTP 502 from forge");
    assert_eq!(e.code, "review_publication_retryable");
    assert!(e.retryable);
    assert_eq!(e.message, "HTTP 502 from forge");
    assert_eq!(review_attempt_error_code("x: review cycle reopened while worker was running"), "review_cycle_reopened");
    assert_eq!(review_attempt_error_code("boom"), "review_attempt_failed");
}

#[test]
fn candidate_gate_waits_dispatches_or_republishes() {
    assert_eq!(candidate_gate("closed", 0, 3, false, false), CandidateGate::Wait);
    assert_eq!(candidate_gate("OPEN", 3, 3, false, false), CandidateGate::Wait);
    assert_eq!(candidate_gate("open", 0, 0, false, false), CandidateGate::Dispatch);
    assert_eq!(candidate_gate("open", 1, 0, false, false), CandidateGate::Wait);
    assert_eq!(candidate_gate("open", 0, 3, true, true), CandidateGate::RepublishOrphan);
    assert_eq!(candidate_gate("open", 0, 3, true, false), CandidateGate::Wait);
}

#[test]
fn trigger_state_matches_issue_repository_and_status() {
    let items = vec![
        ProjectItem { issue_number: 7, repository: Some("Owner/Repo".into()), status: Some(" agent review ".into()) },
        ProjectItem { issue_number: 8, repository: None, status: Some("Agent Review".into()) },
    ];
    assert!(candidate_in_trigger_state(&items, 7, "owner/repo", "Agent Review"));
    assert!(!candidate_in_trigger_state(&items, 8, "owner/repo", "Agent Review"));
    assert!(!candidate_in_trigger_state(&items, 7, "other/repo", "Agent Review"));
}

#[test]
fn poll_summary_counts_every_candidate_once() {
    let s = summarize_poll(
        true,
        false,
        &vec![
            CandidateStatus::NotEligible,
            CandidateStatus::Processed(ProcessOutcome::Completed),
            CandidateStatus::Processed(ProcessOutcome::Blocked),
            CandidateStatus::Processed(ProcessOutcome::Waiting),
            CandidateStatus::Failed,
        ],
    );
    assert!(s.review_enabled);
    assert_eq!(s.candidates_seen, 5);
    assert_eq!(s.waiting, 2);
    assert_eq!(s.attempts_started, 2);
    assert_eq!(s.attempts_completed, 1);
    assert_eq!(s.attempts_failed, 2);
    assert_eq!(s.blocked, 1);
    assert_eq!(s.preview_published, 1);
    assert_eq!(s.automatic_published, 0);
}

#[test]
fn review_diff_names_each_file_and_marks_missing_patches() {
    let files = vec![
        GithubPullRequestFile { filename: "a.rs".into(), patch: Some("@@ -1 +1 @@\n+x\n".into()), ..Default::default() },
        GithubPullRequestFile { filename: "b.bin".into(), patch: None, ..Default::default() },
    ];
    assert_eq!(
        render_review_diff(&files),
        "diff --git a/a.rs b/a.rs\n--- a/a.rs\n+++ b/a.rs\n@@ -1 +1 @@\n+x\ndiff --git a/b.bin b/b.bin\n--- a/b.bin\n+++ b/b.bin\n(binary or patch unavailable)\n"
    );
}

#[test]
fn configuration_revision_is_the_sha256_hex_of_the_encoding() {
    let config = ReviewConfig {
        enabled: true,
        mode: ReviewMode::Automatic,
        prompt: "Review \"it\"\n".to_string(),
        model: Some("m1".to_string()),
        max_turns: 2,
        invocation_timeout_ms: 60_000,
        max_attempts: 3,
        max_reprompts: 1,
        max_findings: 20,
        blocking_severity: ReviewSeverity::Major,
        trigger_state: "Agent Review".to_string(),
        completion_route: Some(ReviewRoute { state: "Done".to_string() }),
        changes_requested_route: None,
        permission_probe_pull_request: Some(7),
    };
    assert_eq!(
        review_config_json_text(&config),
        r#"{"enabled":true,"mode":"automatic","prompt":"Review \"it\"\n","model":"m1","max_turns":2,"invocation_timeout_ms":60000,"max_attempts":3,"max_reprompts":1,"max_findings":20,"blocking_severity":"major","trigger_state":"Agent Review","completion_route":{"state":"Done"},"permission_probe_pull_request":7}"#
    );
    assert_eq!(
        review_configuration_revision(&config),
        "0199791a801b81c187967788e830e4a3a5f0929463dd05d730bf0df005045ae4"
    );
    let bare = ReviewConfig {
        enabled: false,
        mode: ReviewMode::Preview,
        prompt: "p".to_string(),
        model: None,
        max_turns: 1,
        invocation_timeout_ms: 1,
        max_attempts: 1,
        max_reprompts: 0,
        max_findings: 0,
        blocking_severity: ReviewSeverity::Blocking,
        trigger_state: "s".to_string(),
        completion_route: None,
        changes_requested_route: None,
        permission_probe_pull_request: None,
    };
    assert_eq!(
        review_configuration_revision(&bare),
        "c4c17c34bf8905bcdfe447de9bc019cbbd7d4f67dc6929c46b37cd89fb093a6b"
    );
}

#[test]
fn review_paths_must_not_be_blank() {
    assert_eq!(review_path_input("  ./repo ", "workspace.repo").unwrap(), "./repo");
    let err = review_path_input("   ", "workspace.repo").unwrap_err();
    assert_eq!(
        err,
        symphony::domain::SymphonyError::InvalidWorkflowConfig(
            "workspace.repo cannot be empty when review is enabled".to_string()
        )
    );
}

#[test]
fn reprompt_loop_feeds_back_errors_then_blocks() {
    let usage = StageUsage { input_tokens: 1, output_tokens: 2, total_tokens: 3 };
    let mut l = ReviewAttemptLoop::start("Review.".to_string(), 1);
    assert_eq!(l.prompt_for_turn(), "Review.");
    let action = l.record_turn(WorkerTurnEvent::Output(usage, ManifestCheck::Invalid("bad anchor".to_string())));
    assert_eq!(
        action,
        ReviewLoopAction::RunWorker(
            "Review.\n\nPrevious validation feedback (fix the JSON output only): bad anchor".to_string()
        )
    );
    let action = l.record_turn(WorkerTurnEvent::InvocationFailed("spawn failed".to_string()));
    assert_eq!(action, ReviewLoopAction::Block("worker invocation failed: spawn failed".to_string()));
    assert_eq!(l.total_usage, usage);

    let mut l = ReviewAttemptLoop::start("p".to_string(), 2);
    assert_eq!(l.record_turn(WorkerTurnEvent::RevisionChanged), ReviewLoopAction::Reopened);
    assert_eq!(l.record_turn(WorkerTurnEvent::Output(usage, ManifestCheck::Valid)), ReviewLoopAction::Accept);
}

fn review(id: u64, login: &str, body: &str, commit: &str) -> GithubPullRequestReview {
    GithubPullRequestReview {
        id,
        user: Some(GithubUser { login: login.to_string() }),
        body: Some(body.to_string()),
        commit_id: commit.to_string(),
        state: "COMMENTED".to_string(),
        html_url: None,
    }
}

#[test]
fn owned_review_selection_rejects_foreign_stale_and_duplicate_markers() {
    let marker = review_comment_marker("intent");
    assert_eq!(marker, "<!-- symphony:review:intent -->");
    let unrelated = review(1, "human", "looks fine", "head");
    let mine = review(2, "Symphony-Bot", &format!("body {marker}"), "head");
    assert_eq!(select_owned_review(&vec![unrelated.clone(), mine.clone()], &marker, "symphony-bot", "head").unwrap(), Some(1));
    assert_eq!(select_owned_review(&vec![unrelated], &marker, "symphony-bot", "head").unwrap(), None);
    let foreign = review(3, "human", &marker, "head");
    let err = select_owned_review(&vec![foreign], &marker, "symphony-bot", "head").unwrap_err();
    assert!(matches!(err, symphony::domain::SymphonyError::TriageError(m) if m.contains("owned by another GitHub login human")));
    let stale = review(4, "symphony-bot", &marker, "old");
    let err = select_owned_review(&vec![stale], &marker, "symphony-bot", "head").unwrap_err();
    assert!(matches!(err, symphony::domain::SymphonyError::TriageError(m) if m.contains("conflict: head old does not match expected head")));
    let err = select_owned_review(&vec![mine.clone(), mine], &marker, "symphony-bot", "head").unwrap_err();
    assert!(matches!(err, symphony::domain::SymphonyError::TriageError(m) if m.contains("multiple formal reviews")));
}

#[test]
fn owned_comment_lookup_needs_marker_and_author() {
    let c = |id: u64, login: &str, body: Option<&str>| GithubIssueComment {
        id,
        user: Some(GithubUser { login: login.to_string() }),
        body: body.map(str::to_string),
        html_url: None,
    };
    let comments = vec![
        c(1, "human", Some("<!-- symphony:review:i1 -->")),
        c(2, "bot", None),
        c(3, "BOT", Some("x <!-- symphony:review:i1 --> y")),
    ];
    assert_eq!(find_owned_marker(&comments, "i1", "bot"), Some(3));
    assert_eq!(find_owned_marker(&comments, "i2", "bot"), None);
}

#[test]
fn publisher_identity_and_kinds() {
    let p = ReviewPublisher::new(());
    assert!(p.owner_instance.starts_with("review-publisher-"));
    assert!(p.owner_instance.len() > "review-publisher-".len());
    let q = ReviewPublisher::with_owner((), "owner".to_string());
    assert_eq!(q.owner_instance, "owner");
    assert!(check_formal_kind("automatic").is_ok());
    assert!(check_formal_kind("formal").is_ok());
    assert!(check_formal_kind("preview").is_err());
    assert!(check_preview_kind("preview").is_ok());
    assert!(check_preview_kind("formal").is_err());
}

#[test]
fn worker_prompt_ends_with_the_contract() {
    let p = review_worker_prompt("Review the change.");
    assert!(p.starts_with("Review the change.\n\nA4 worker contract: read only the JSON context"));
    assert!(p.ends_with("emit prose outside the output file."));
}

#[test]
fn a_second_publication_finds_what_the_first_posted() {
    let marker = review_comment_marker("i9");
    let mut comments = vec![GithubIssueComment {
        id: 1,
        user: Some(GithubUser { login: "human".to_string() }),
        body: Some(marker.clone()),
        html_url: None,
    }];
    assert_eq!(find_owned_marker(&comments, "i9", "symphony-bot"), None);
    comments.push(GithubIssueComment {
        id: 7,
        user: Some(GithubUser { login: "Symphony-Bot".to_string() }),
        body: Some(format!("{marker}\nNo findings")),
        html_url: None,
    });
    assert_eq!(find_owned_marker(&comments, "i9", "symphony-bot"), Some(7));

    let mut reviews = vec![review(1, "human", "looks fine", "abc")];
    assert_eq!(select_owned_review(&reviews, &marker, "symphony-bot", "abc").ok(), Some(None));
    reviews.push(review(2, "symphony-bot", &format!("{marker} review"), "abc"));
    assert_eq!(select_owned_review(&reviews, &marker, "symphony-bot", "abc").ok(), Some(Some(1)));
}

#[test]
fn publisher_owner_names_carry_a_uuid() {
    let owner = ReviewPublisher::new(()).owner_instance;
    assert!(owner.starts_with("review-publisher-"));
    assert_eq!(owner.len(), "review-publisher-".len() + 36);
    let id: Vec<char> = owner["review-publisher-".len()..].chars().collect();
    for (i, c) in id.iter().enumerate() {
        if [8, 13, 18, 23].contains(&i) {
            assert_eq!(*c, '-');
        } else {
            assert!(c.is_ascii_hexdigit() && !c.is_ascii_uppercase());
        }
    }
    assert_eq!(id[14], '7');
}

#[test]
fn validation_results_become_manifest_checks() {
    let rejected: Result<ReviewFindingsManifest, ManifestValidationError> =
        Err(ManifestValidationError { violations: vec!["a".to_string(), "b".to_string()] });
    assert_eq!(
        manifest_check(&rejected),
        ManifestCheck::Invalid("review findings manifest rejected: a; b".to_string())
    );
}
