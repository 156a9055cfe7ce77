//! The spec coordinator's decisions: which intake issues it works on, what
//! an existing run's decision leads to, what counts toward an issue's
//! revision, and the poll summary.

use vstd::prelude::*;

use crate::domain::{
    clone_strings, AgentBackend, FactoryError, PublicationStatus, ServiceConfig, SymphonyError,
    TriageHarness,
};
use crate::github::{author_login, author_of, GithubIssueComment};
use crate::specification::decision::{
    has_label, has_label_spec, is_publisher_owned, publisher_owned, DecisionAction, IntakeComment,
};
use crate::text::{trim, trim_seq};

verus! {

/// Where the coordinator works and how it identifies itself.
#[derive(Debug, Clone)]
pub struct SpecCoordinatorConfig {
    pub forge_host: String,
    pub repository: String,
    pub owner_instance: String,
    pub workflow_dir: String,
}

/// Counters of one poll.
#[derive(Debug, Clone, PartialEq, Eq, Structural)]
pub struct SpecPollSummary {
    pub spec_enabled: bool,
    pub issues_seen: u32,
    pub attempts_started: u32,
    pub attempts_completed: u32,
    pub attempts_failed: u32,
    pub ineligible: u32,
    pub skipped: u32,
    pub published: u32,
    pub approved: u32,
    pub revisions_requested: u32,
}

impl Default for SpecPollSummary {
    fn default() -> (res: Self)
        ensures
            res == spec_poll_summary(false, Seq::empty()),
    {
        SpecPollSummary {
            spec_enabled: false,
            issues_seen: 0,
            attempts_started: 0,
            attempts_completed: 0,
            attempts_failed: 0,
            ineligible: 0,
            skipped: 0,
            published: 0,
            approved: 0,
            revisions_requested: 0,
        }
    }
}

/// The coordinator and its collaborators: the factory store, the intake
/// and comment ports, the routing port and an optional event sink.
pub struct SpecCoordinator<S, I, C, R, E> {
    pub store: S,
    pub intake: I,
    pub comments: C,
    pub routing: R,
    pub config: SpecCoordinatorConfig,
    pub events: Option<E>,
}

impl<S, I, C, R, E> SpecCoordinator<S, I, C, R, E> {
    pub fn new(store: S, intake: I, comments: C, routing: R, config: SpecCoordinatorConfig) -> (res:
        Self)
        ensures
            res.store == store,
            res.intake == intake,
            res.comments == comments,
            res.routing == routing,
            res.config == config,
            res.events is None,
    {
        SpecCoordinator { store, intake, comments, routing, config, events: None }
    }

    /// The same coordinator, emitting its events to `events`.
    pub fn with_events(self, events: E) -> (res: Self)
        ensures
            res.events == Some(events),
            res.store == self.store,
            res.intake == self.intake,
            res.comments == self.comments,
            res.routing == self.routing,
            res.config == self.config,
    {
        SpecCoordinator { events: Some(events), ..self }
    }
}

/// An issue the intake query returned; times are Unix milliseconds.
#[derive(Debug, Clone, PartialEq, Eq)]
pub struct TriageIntakeIssue {
    pub issue_id: String,
    pub issue_number: u64,
    pub identifier: String,
    pub title: String,
    pub body: String,
    pub labels: Vec<String>,
    pub non_managed_labels: Vec<String>,
    pub assignees: Vec<String>,
    pub milestone: Option<(u64, String)>,
    pub comments: Vec<IntakeComment>,
    pub created_at_ms: i64,
    pub updated_at_ms: i64,
    pub forge_host: String,
    pub repository: String,
    pub in_project: bool,
}

/// The harness name recorded with a claimed spec attempt.
pub fn harness_name(harness: TriageHarness) -> (res: &'static str)
    ensures
        res@ == (match harness {
            TriageHarness::Pi => "pi"@,
            TriageHarness::Codex => "codex"@,
        }),
{
    match harness {
        TriageHarness::Pi => "pi",
        TriageHarness::Codex => "codex",
    }
}

pub const EMPTY_SPEC_COMMAND: &'static str = "agent command is required for the spec stage";

/// The configured backend's command, or an error when it is empty.
pub fn agent_command(service: &ServiceConfig) -> (res: Result<Vec<String>, SymphonyError>)
    ensures
        crate::review::worker::backend_command(*service).len() == 0 <==> res is Err,
        res matches Ok(c) ==> c@ == crate::review::worker::backend_command(*service),
        res matches Err(e) ==> (e matches SymphonyError::InvalidWorkflowConfig(m) && m@
            == EMPTY_SPEC_COMMAND@),
{
    let command = match service.agent_backend {
        AgentBackend::Codex => &service.codex.command,
        AgentBackend::KataCli => &service.pi_agent.command,
    };
    if command.len() == 0 {
        return Err(SymphonyError::InvalidWorkflowConfig(EMPTY_SPEC_COMMAND.to_owned()));
    }
    Ok(clone_strings(command))
}

/// A configured workspace path, before it is resolved on disk: the trimmed
/// value, or an error naming the field when it is blank.
pub fn spec_path_input(value: &str, field: &str) -> (res: Result<String, SymphonyError>)
    ensures
        trim_seq(value@).len() == 0 <==> res is Err,
        res matches Ok(p) ==> p@ == trim_seq(value@),
        res matches Err(e) ==> (e matches SymphonyError::InvalidWorkflowConfig(m) && m@ == field@
            + " cannot be empty for the spec stage"@),
{
    let trimmed = trim(value);
    if trimmed.unicode_len() == 0 {
        let mut m = field.to_owned();
        m.append(" cannot be empty for the spec stage");
        return Err(SymphonyError::InvalidWorkflowConfig(m));
    }
    Ok(trimmed)
}

/// The login of a comment's author, empty when the forge gave none.
pub fn comment_author(comment: &GithubIssueComment) -> (res: &str)
    ensures
        res@ == author_of(comment.user),
{
    author_login(&comment.user)
}

/// Every label the stages manage themselves: the spec stage's, the triage
/// routes' and the triage intake label.
pub open spec fn managed_labels_spec(service: ServiceConfig) -> Seq<String> {
    seq![
        service.spec.intake_label,
        service.spec.labels.approved,
        service.spec.labels.revise,
        service.spec.approval_route.label,
    ] + service.triage.route_labels@ + seq![service.triage.intake_label]
}

pub fn managed_revision_labels(service: &ServiceConfig) -> (res: Vec<String>)
    ensures
        res@ == managed_labels_spec(*service),
{
    let mut out = service.spec.managed_labels();
    let routes = clone_strings(&service.triage.route_labels);
    let mut i: usize = 0;
    let ghost start = out@;
    while i < routes.len()
        invariant
            i <= routes@.len(),
            out@ == start + routes@.take(i as int),
        decreases routes@.len() - i,
    {
        out.push(routes[i].clone());
        assert(routes@.take(i + 1) =~= routes@.take(i as int).push(routes@[i as int]));
        i = i + 1;
    }
    assert(routes@.take(routes@.len() as int) =~= routes@);
    out.push(service.triage.intake_label.clone());
    assert(out@ =~= managed_labels_spec(*service));
    out
}

/// The labels that count toward an issue's revision: those that are not
/// managed (compared ignoring ASCII case), in order.
pub open spec fn revision_labels_spec(labels: Seq<String>, managed: Seq<String>) -> Seq<String>
    decreases labels.len(),
{
    if labels.len() == 0 {
        Seq::empty()
    } else {
        let rest = revision_labels_spec(labels.drop_last(), managed);
        if has_label_spec(managed, labels.last()@) {
            rest
        } else {
            rest.push(labels.last())
        }
    }
}

pub fn revision_labels(labels: &Vec<String>, managed: &Vec<String>) -> (res: Vec<String>)
    ensures
        res@ == revision_labels_spec(labels@, managed@),
{
    let mut out: Vec<String> = Vec::new();
    let mut i: usize = 0;
    while i < labels.len()
        invariant
            i <= labels@.len(),
            out@ == revision_labels_spec(labels@.take(i as int), managed@),
        decreases labels@.len() - i,
    {
        proof {
            assert(labels@.take(i + 1).drop_last() =~= labels@.take(i as int));
        }
        if !has_label(managed.as_slice(), labels[i].as_str()) {
            out.push(labels[i].clone());
        }
        i = i + 1;
    }
    assert(labels@.take(labels@.len() as int) =~= labels@);
    out
}

/// The comments that count toward an issue's revision: all but Symphony's
/// own, in order.
pub open spec fn revision_comments_spec(comments: Seq<IntakeComment>, login: Seq<char>) -> Seq<
    IntakeComment,
>
    decreases comments.len(),
{
    if comments.len() == 0 {
        Seq::empty()
    } else {
        let rest = revision_comments_spec(comments.drop_last(), login);
        if publisher_owned(comments.last(), login) {
            rest
        } else {
            rest.push(comments.last())
        }
    }
}

pub fn revision_comments(comments: &Vec<IntakeComment>, publisher_login: &str) -> (res: Vec<
    IntakeComment,
>)
    ensures
        res@ == revision_comments_spec(comments@, publisher_login@),
{
    let mut out: Vec<IntakeComment> = Vec::new();
    let mut i: usize = 0;
    while i < comments.len()
        invariant
            i <= comments@.len(),
            out@ == revision_comments_spec(comments@.take(i as int), publisher_login@),
        decreases comments@.len() - i,
    {
        proof {
            assert(comments@.take(i + 1).drop_last() =~= comments@.take(i as int));
        }
        if !is_publisher_owned(&comments[i], publisher_login) {
            out.push(comments[i].duplicate());
        }
        i = i + 1;
    }
    assert(comments@.take(comments@.len() as int) =~= comments@);
    out
}

/// Symphony's own comment (by the publisher's login, with a Symphony
/// marker) leaves the comments that count toward the issue's revision
/// unchanged, so publishing the spec never looks like new human input; any
/// other comment is added to them, so human feedback always does.
pub proof fn lemma_own_comment_keeps_revision(
    comments: Seq<IntakeComment>,
    added: IntakeComment,
    login: Seq<char>,
)
    ensures
        publisher_owned(added, login) ==> revision_comments_spec(comments.push(added), login)
            == revision_comments_spec(comments, login),
        !publisher_owned(added, login) ==> revision_comments_spec(comments.push(added), login)
            == revision_comments_spec(comments, login).push(added),
{
    assert(comments.push(added).drop_last() =~= comments);
}

/// What the coordinator does with an intake issue before looking at its
/// run: an issue that also carries the enabled triage stage's intake label
/// belongs to triage and is skipped; an issue off the project board is
/// ineligible; any other issue goes on.
#[derive(Debug, Clone, Copy, PartialEq, Eq, Structural)]
pub enum SpecIntakeGate {
    SkipTriageOwned,
    Ineligible,
    Proceed,
}

pub fn spec_intake_gate(issue: &TriageIntakeIssue, service: &ServiceConfig) -> (res:
    SpecIntakeGate)
    ensures
        res == (if has_label_spec(issue.labels@, service.triage.intake_label@)
            && service.triage.enabled {
            SpecIntakeGate::SkipTriageOwned
        } else if !issue.in_project {
            SpecIntakeGate::Ineligible
        } else {
            SpecIntakeGate::Proceed
        }),
{
    if has_label(issue.labels.as_slice(), service.triage.intake_label.as_str())
        && service.triage.enabled {
        SpecIntakeGate::SkipTriageOwned
    } else if !issue.in_project {
        SpecIntakeGate::Ineligible
    } else {
        SpecIntakeGate::Proceed
    }
}

/// The diagnostics the coordinator posts instead of running an attempt.
#[derive(Debug, Clone, Copy, PartialEq, Eq, Structural)]
pub enum SpecDiagnostic {
    LabelConflict,
    MissingFeedback,
    StaleApproval,
}

pub open spec fn diagnostic_text(d: SpecDiagnostic) -> Seq<char> {
    match d {
        SpecDiagnostic::LabelConflict => LABEL_CONFLICT_DIAGNOSTIC@,
        SpecDiagnostic::MissingFeedback => MISSING_FEEDBACK_DIAGNOSTIC@,
        SpecDiagnostic::StaleApproval => STALE_APPROVAL_DIAGNOSTIC@,
    }
}

pub const LABEL_CONFLICT_DIAGNOSTIC: &'static str =
    "Both `spec-approved` and `spec-revise` are present. Remove one label.";

pub const MISSING_FEEDBACK_DIAGNOSTIC: &'static str =
    "Add a feedback comment, then leave `spec-revise` applied.";

pub const STALE_APPROVAL_DIAGNOSTIC: &'static str =
    "Approval is stale because the issue or spec configuration changed. Remove `spec-approved`, review a new version, and approve again.";

impl SpecDiagnostic {
    pub fn text(self) -> (res: &'static str)
        ensures
            res@ == diagnostic_text(self),
    {
        match self {
            SpecDiagnostic::LabelConflict => LABEL_CONFLICT_DIAGNOSTIC,
            SpecDiagnostic::MissingFeedback => MISSING_FEEDBACK_DIAGNOSTIC,
            SpecDiagnostic::StaleApproval => STALE_APPROVAL_DIAGNOSTIC,
        }
    }
}

/// What a decision on an issue with a published spec leads to.
#[derive(Debug, Clone, Copy, PartialEq, Eq, Structural)]
pub enum SpecRunStep {
    /// Post the diagnostic and skip the issue.
    Diagnose(SpecDiagnostic),
    /// Seed a revision from the human's feedback and run an attempt.
    RequestRevision,
    /// Approve the latest version and route the issue on.
    Approve,
    /// The latest version was stored but never previewed: publish it.
    RepublishLatest,
    /// Nothing to do this poll.
    Skip,
    /// Run a fresh attempt.
    RunAttempt,
}

/// The step of a decision: conflicts, missing feedback and stale approvals
/// are diagnosed; a revision with feedback is requested; an approval
/// approves; no decision on the current revision republishes a latest
/// version whose preview is missing and otherwise skips; anything else
/// (no decision on a changed revision, a cold revision) runs an attempt.
pub open spec fn spec_run_step_spec(
    action: DecisionAction,
    revision_is_current: bool,
    preview_covers_latest: bool,
) -> SpecRunStep {
    match action {
        DecisionAction::Conflict => SpecRunStep::Diagnose(SpecDiagnostic::LabelConflict),
        DecisionAction::Revise { .. } => SpecRunStep::RequestRevision,
        DecisionAction::ReviseWithoutFeedback => SpecRunStep::Diagnose(
            SpecDiagnostic::MissingFeedback,
        ),
        DecisionAction::Approve => SpecRunStep::Approve,
        DecisionAction::StaleApproval => SpecRunStep::Diagnose(SpecDiagnostic::StaleApproval),
        DecisionAction::NoDecision => if revision_is_current {
            if preview_covers_latest {
                SpecRunStep::Skip
            } else {
                SpecRunStep::RepublishLatest
            }
        } else {
            SpecRunStep::RunAttempt
        },
        DecisionAction::ColdRevision => SpecRunStep::RunAttempt,
    }
}

pub fn spec_run_step(action: &DecisionAction, revision_is_current: bool, preview_covers_latest: bool) -> (res:
    SpecRunStep)
    ensures
        res == spec_run_step_spec(*action, revision_is_current, preview_covers_latest),
{
    match action {
        DecisionAction::Conflict => SpecRunStep::Diagnose(SpecDiagnostic::LabelConflict),
        DecisionAction::Revise { .. } => SpecRunStep::RequestRevision,
        DecisionAction::ReviseWithoutFeedback => SpecRunStep::Diagnose(
            SpecDiagnostic::MissingFeedback,
        ),
        DecisionAction::Approve => SpecRunStep::Approve,
        DecisionAction::StaleApproval => SpecRunStep::Diagnose(SpecDiagnostic::StaleApproval),
        DecisionAction::NoDecision => {
            if revision_is_current {
                if preview_covers_latest {
                    SpecRunStep::Skip
                } else {
                    SpecRunStep::RepublishLatest
                }
            } else {
                SpecRunStep::RunAttempt
            }
        },
        DecisionAction::ColdRevision => SpecRunStep::RunAttempt,
    }
}

/// The diagnostic posted when the revision request budget is spent.
pub fn revision_budget_message(error: &str, revise_label: &str) -> (res: String)
    ensures
        res@ == "Revision request budget exhausted ("@ + error@ + "). Remove `"@ + revise_label@
            + "` or raise `spec.max_revision_requests`."@,
{
    let mut m = "Revision request budget exhausted (".to_owned();
    m.append(error);
    m.append("). Remove `");
    m.append(revise_label);
    m.append("` or raise `spec.max_revision_requests`.");
    m
}

/// What became of one intake issue in a poll.
#[derive(Debug, Clone, Copy, PartialEq, Eq, Structural)]
pub enum SpecIssueOutcome {
    /// Triage-owned, diagnosed, budget spent or nothing to do.
    Skipped,
    Ineligible,
    /// A stored version's preview was published.
    Republished,
    Approved,
    /// An attempt ran; `revision` when it answered a revision request.
    Attempted { revision: bool, succeeded: bool },
}

/// The counters of a spec poll summary.
#[derive(Debug, Clone, Copy, PartialEq, Eq, Structural)]
pub enum SpecTally {
    Started,
    Completed,
    Failed,
    Ineligible,
    Skipped,
    Published,
    Approved,
    Revisions,
}

pub open spec fn spec_counts_toward(o: SpecIssueOutcome, t: SpecTally) -> bool {
    match t {
        SpecTally::Started => o is Attempted,
        SpecTally::Completed => o matches SpecIssueOutcome::Attempted { succeeded, .. }
            && succeeded,
        SpecTally::Failed => o matches SpecIssueOutcome::Attempted { succeeded, .. } && !succeeded,
        SpecTally::Ineligible => o == SpecIssueOutcome::Ineligible,
        SpecTally::Skipped => o == SpecIssueOutcome::Skipped,
        SpecTally::Published => o == SpecIssueOutcome::Republished || (
        o matches SpecIssueOutcome::Attempted { succeeded, .. } && succeeded),
        SpecTally::Approved => o == SpecIssueOutcome::Approved,
        SpecTally::Revisions => o matches SpecIssueOutcome::Attempted { revision, .. } && revision,
    }
}

pub open spec fn spec_tally(s: Seq<SpecIssueOutcome>, t: SpecTally) -> nat
    decreases s.len(),
{
    if s.len() == 0 {
        0
    } else {
        spec_tally(s.drop_last(), t) + if spec_counts_toward(s.last(), t) {
            1nat
        } else {
            0nat
        }
    }
}

pub proof fn lemma_spec_tally_bounded(s: Seq<SpecIssueOutcome>, t: SpecTally)
    ensures
        spec_tally(s, t) <= s.len(),
    decreases s.len(),
{
    if s.len() > 0 {
        lemma_spec_tally_bounded(s.drop_last(), t);
    }
}

/// The summary of a poll whose issues ended as `s`.
pub open spec fn spec_poll_summary(enabled: bool, s: Seq<SpecIssueOutcome>) -> SpecPollSummary {
    SpecPollSummary {
        spec_enabled: enabled,
        issues_seen: s.len() as u32,
        attempts_started: spec_tally(s, SpecTally::Started) as u32,
        attempts_completed: spec_tally(s, SpecTally::Completed) as u32,
        attempts_failed: spec_tally(s, SpecTally::Failed) as u32,
        ineligible: spec_tally(s, SpecTally::Ineligible) as u32,
        skipped: spec_tally(s, SpecTally::Skipped) as u32,
        published: spec_tally(s, SpecTally::Published) as u32,
        approved: spec_tally(s, SpecTally::Approved) as u32,
        revisions_requested: spec_tally(s, SpecTally::Revisions) as u32,
    }
}

proof fn lemma_all_spec_tallies_bounded(s: Seq<SpecIssueOutcome>)
    ensures
        spec_tally(s, SpecTally::Started) <= s.len(),
        spec_tally(s, SpecTally::Completed) <= s.len(),
        spec_tally(s, SpecTally::Failed) <= s.len(),
        spec_tally(s, SpecTally::Ineligible) <= s.len(),
        spec_tally(s, SpecTally::Skipped) <= s.len(),
        spec_tally(s, SpecTally::Published) <= s.len(),
        spec_tally(s, SpecTally::Approved) <= s.len(),
        spec_tally(s, SpecTally::Revisions) <= s.len(),
{
    lemma_spec_tally_bounded(s, SpecTally::Started);
    lemma_spec_tally_bounded(s, SpecTally::Completed);
    lemma_spec_tally_bounded(s, SpecTally::Failed);
    lemma_spec_tally_bounded(s, SpecTally::Ineligible);
    lemma_spec_tally_bounded(s, SpecTally::Skipped);
    lemma_spec_tally_bounded(s, SpecTally::Published);
    lemma_spec_tally_bounded(s, SpecTally::Approved);
    lemma_spec_tally_bounded(s, SpecTally::Revisions);
}

/// The summary of a poll: every issue counted once as seen, and toward the
/// counters its outcome belongs to.
pub fn summarize_spec_poll(enabled: bool, outcomes: &Vec<SpecIssueOutcome>) -> (res:
    SpecPollSummary)
    requires
        outcomes@.len() <= u32::MAX,
    ensures
        res == spec_poll_summary(enabled, outcomes@),
{
    let mut r = SpecPollSummary {
        spec_enabled: enabled,
        issues_seen: 0,
        attempts_started: 0,
        attempts_completed: 0,
        attempts_failed: 0,
        ineligible: 0,
        skipped: 0,
        published: 0,
        approved: 0,
        revisions_requested: 0,
    };
    let mut i: usize = 0;
    while i < outcomes.len()
        invariant
            i <= outcomes@.len() <= u32::MAX,
            r == spec_poll_summary(enabled, outcomes@.take(i as int)),
        decreases outcomes@.len() - i,
    {
        proof {
            let before = outcomes@.take(i as int);
            assert(outcomes@.take(i + 1).drop_last() =~= before);
            lemma_all_spec_tallies_bounded(before);
        }
        r.issues_seen = r.issues_seen + 1;
        match outcomes[i] {
            SpecIssueOutcome::Skipped => {
                r.skipped = r.skipped + 1;
            },
            SpecIssueOutcome::Ineligible => {
                r.ineligible = r.ineligible + 1;
            },
            SpecIssueOutcome::Republished => {
                r.published = r.published + 1;
            },
            SpecIssueOutcome::Approved => {
                r.approved = r.approved + 1;
            },
            SpecIssueOutcome::Attempted { revision, succeeded } => {
                r.attempts_started = r.attempts_started + 1;
                if revision {
                    r.revisions_requested = r.revisions_requested + 1;
                }
                if succeeded {
                    r.attempts_completed = r.attempts_completed + 1;
                    r.published = r.published + 1;
                } else {
                    r.attempts_failed = r.attempts_failed + 1;
                }
            },
        }
        i = i + 1;
    }
    assert(outcomes@.take(outcomes@.len() as int) =~= outcomes@);
    r
}

/// Every issue of a poll is accounted for exactly once, and every started
/// attempt either completed or failed.
pub proof fn lemma_spec_poll_accounts_for_every_issue(enabled: bool, s: Seq<SpecIssueOutcome>)
    requires
        s.len() <= u32::MAX,
    ensures
        ({
            let r = spec_poll_summary(enabled, s);
            &&& r.issues_seen == r.attempts_started + r.ineligible + r.skipped + r.approved + (
            r.published - r.attempts_completed)
            &&& r.attempts_started == r.attempts_completed + r.attempts_failed
            &&& r.revisions_requested <= r.attempts_started
        }),
    decreases s.len(),
{
    lemma_spec_partition(s);
    lemma_all_spec_tallies_bounded(s);
}

proof fn lemma_spec_partition(s: Seq<SpecIssueOutcome>)
    ensures
        s.len() == spec_tally(s, SpecTally::Started) + spec_tally(s, SpecTally::Ineligible)
            + spec_tally(s, SpecTally::Skipped) + spec_tally(s, SpecTally::Approved) + spec_tally(
            s,
            SpecTally::Published,
        ) - spec_tally(s, SpecTally::Completed),
        spec_tally(s, SpecTally::Completed) <= spec_tally(s, SpecTally::Published),
        spec_tally(s, SpecTally::Started) == spec_tally(s, SpecTally::Completed) + spec_tally(
            s,
            SpecTally::Failed,
        ),
        spec_tally(s, SpecTally::Revisions) <= spec_tally(s, SpecTally::Started),
    decreases s.len(),
{
    if s.len() > 0 {
        lemma_spec_partition(s.drop_last());
    }
}

/// After this many failed reconciliations a spec publication is blocked,
/// so one poisoned intent cannot stall the stage.
pub const SPEC_PUBLICATION_MAX_RETRIES: u32 = 5;

/// The status and error a failed spec publication reconcile leaves: blocked
/// once the attempt count reaches the limit, else pending and retryable.
pub fn spec_publication_failure(retry_count: u32, message: &str) -> (res: (
    PublicationStatus,
    FactoryError,
))
    ensures
        ({
            let next: int = if retry_count == u32::MAX {
                u32::MAX as int
            } else {
                retry_count + 1
            };
            &&& res.0 == (if next >= SPEC_PUBLICATION_MAX_RETRIES {
                PublicationStatus::Blocked
            } else {
                PublicationStatus::Pending
            })
            &&& res.1.code@ == "spec_publication_failed"@
            &&& res.1.component@ == "spec_coordinator"@
            &&& res.1.message@ == message@
            &&& res.1.retryable == (res.0 == PublicationStatus::Pending)
        }),
{
    let next: u32 = if retry_count == u32::MAX {
        u32::MAX
    } else {
        retry_count + 1
    };
    let status = if next >= SPEC_PUBLICATION_MAX_RETRIES {
        PublicationStatus::Blocked
    } else {
        PublicationStatus::Pending
    };
    let error = FactoryError {
        code: "spec_publication_failed".to_owned(),
        component: "spec_coordinator".to_owned(),
        message: message.to_owned(),
        retryable: status == PublicationStatus::Pending,
    };
    (status, error)
}

} // verus!
