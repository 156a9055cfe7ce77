//! The review coordinator's decisions: which candidates are in the trigger
//! state, when a candidate is dispatched, the reprompt loop around the
//! worker, where an outcome routes the issue, how a publication failure is
//! classified, and the poll summary.

use vstd::prelude::*;
use vstd::utf8::encode_utf8;

use crate::digest::{hex_lower, sha256_digest, sha256_hex};
use crate::domain::{
    usage_sum, usage_zero, AgentBackend, FactoryError, PublicationStatus, ServiceConfig, StageUsage,
    SymphonyError,
};
use crate::github::{GithubPullRequest, ProjectItem};
use crate::json::{entries_text, json_text, json_u64, push_entry, quoted, to_json_text, JsonValue};
use crate::review::domain::{ReviewConfig, ReviewFindingsArtifactRecord, ReviewMode, ReviewRoute};
use crate::review::findings::GithubPullRequestFile;
use crate::review::manifest::{
    join_spec, severity_name, severity_rank, ManifestValidationError, ReviewFinding,
    ReviewFindingsManifest,
};
use crate::specification::domain::strings_view;
use crate::text::{
    contains_seq, contains_str, decimal, eq_ignore_ascii_case, eq_ignore_case, lower_seq,
    to_ascii_lowercase, trim, trim_seq,
};

verus! {

/// Where the coordinator polls and how it identifies itself.
#[derive(Debug, Clone)]
pub struct ReviewCoordinatorConfig {
    pub forge_host: String,
    pub repository: String,
    pub owner_instance: String,
    pub workflow_dir: String,
    pub project_owner: String,
    pub project_number: u64,
    pub max_pages: u32,
}

/// Counters of one poll.
#[derive(Debug, Clone, PartialEq, Eq, Structural)]
pub struct ReviewPollSummary {
    pub review_enabled: bool,
    pub candidates_seen: u32,
    pub attempts_started: u32,
    pub attempts_completed: u32,
    pub attempts_failed: u32,
    pub waiting: u32,
    pub preview_published: u32,
    pub automatic_published: u32,
    pub blocked: u32,
}

impl Default for ReviewPollSummary {
    fn default() -> (res: Self)
        ensures
            res == empty_summary(false),
    {
        empty_summary_exec(false)
    }
}

/// A summary with every counter at zero.
pub open spec fn empty_summary(enabled: bool) -> ReviewPollSummary {
    ReviewPollSummary {
        review_enabled: enabled,
        candidates_seen: 0,
        attempts_started: 0,
        attempts_completed: 0,
        attempts_failed: 0,
        waiting: 0,
        preview_published: 0,
        automatic_published: 0,
        blocked: 0,
    }
}

fn empty_summary_exec(enabled: bool) -> (res: ReviewPollSummary)
    ensures
        res == empty_summary(enabled),
{
    ReviewPollSummary {
        review_enabled: enabled,
        candidates_seen: 0,
        attempts_started: 0,
        attempts_completed: 0,
        attempts_failed: 0,
        waiting: 0,
        preview_published: 0,
        automatic_published: 0,
        blocked: 0,
    }
}

/// The coordinator and its collaborators: the factory store, the comment
/// port, the forge and project clients, the worker and an optional event
/// sink.
pub struct ReviewCoordinator<S, C, G, P, W, E> {
    pub store: S,
    pub comments: C,
    pub github: G,
    pub projects: P,
    pub worker: W,
    pub config: ReviewCoordinatorConfig,
    pub events: Option<E>,
}

impl<S, C, G, P, W, E> ReviewCoordinator<S, C, G, P, W, E> {
    pub fn new(
        store: S,
        comments: C,
        github: G,
        projects: P,
        worker: W,
        config: ReviewCoordinatorConfig,
    ) -> (res: Self)
        ensures
            res.store == store,
            res.comments == comments,
            res.github == github,
            res.projects == projects,
            res.worker == worker,
            res.config == config,
            res.events is None,
    {
        ReviewCoordinator { store, comments, github, projects, worker, config, events: None }
    }

    /// The same coordinator, emitting its events to `events`.
    pub fn with_events(self, events: E) -> (res: Self)
        ensures
            res.events == Some(events),
            res.store == self.store,
            res.comments == self.comments,
            res.github == self.github,
            res.projects == self.projects,
            res.worker == self.worker,
            res.config == self.config,
    {
        ReviewCoordinator { events: Some(events), ..self }
    }
}

/// A board item puts the issue in the trigger state when it is the issue's
/// card in the candidate's repository (names compared ignoring ASCII case)
/// and its trimmed status is the trigger state, ignoring ASCII case.
pub open spec fn item_in_trigger_state(
    item: ProjectItem,
    issue_number: u64,
    repository: Seq<char>,
    trigger: Seq<char>,
) -> bool {
    &&& item.issue_number == issue_number
    &&& item.repository matches Some(r) && eq_ignore_case(r@, repository)
    &&& item.status matches Some(s) && eq_ignore_case(trim_seq(s@), trigger)
}

pub fn item_matches(item: &ProjectItem, issue_number: u64, repository: &str, trigger: &str) -> (res:
    bool)
    ensures
        res == item_in_trigger_state(*item, issue_number, repository@, trigger@),
{
    if item.issue_number != issue_number {
        return false;
    }
    let repo_ok = match &item.repository {
        Some(r) => eq_ignore_ascii_case(r.as_str(), repository),
        None => false,
    };
    if !repo_ok {
        return false;
    }
    match &item.status {
        Some(s) => {
            let t = trim(s.as_str());
            eq_ignore_ascii_case(t.as_str(), trigger)
        },
        None => false,
    }
}

/// Whether some board item puts the issue in the trigger state.
pub fn candidate_in_trigger_state(
    items: &Vec<ProjectItem>,
    issue_number: u64,
    repository: &str,
    trigger: &str,
) -> (res: bool)
    ensures
        res == exists|i: int|
            0 <= i < items@.len() && #[trigger] item_in_trigger_state(
                items@[i],
                issue_number,
                repository@,
                trigger@,
            ),
{
    let mut i: usize = 0;
    while i < items.len()
        invariant
            i <= items@.len(),
            forall|j: int|
                0 <= j < i ==> !#[trigger] item_in_trigger_state(
                    items@[j],
                    issue_number,
                    repository@,
                    trigger@,
                ),
        decreases items@.len() - i,
    {
        if item_matches(&items[i], issue_number, repository, trigger) {
            return true;
        }
        i = i + 1;
    }
    false
}

/// How processing one dispatched candidate ended.
#[derive(Debug, Clone, Copy, PartialEq, Eq, Structural)]
pub enum ProcessOutcome {
    Completed,
    Waiting,
    Blocked,
}

/// What became of one candidate in a poll: it was not eligible (its issue
/// number did not parse or it is not in the trigger state), it was
/// processed, or processing failed with an error.
#[derive(Debug, Clone, Copy, PartialEq, Eq, Structural)]
pub enum CandidateStatus {
    NotEligible,
    Processed(ProcessOutcome),
    Failed,
}

/// The counters of a poll summary.
#[derive(Debug, Clone, Copy, PartialEq, Eq, Structural)]
pub enum Tally {
    Waiting,
    Started,
    Completed,
    Failed,
    Blocked,
}

/// Whether a candidate's status counts toward a counter.
pub open spec fn counts_toward(c: CandidateStatus, t: Tally) -> bool {
    match t {
        Tally::Waiting => c == CandidateStatus::NotEligible || c == CandidateStatus::Processed(
            ProcessOutcome::Waiting,
        ),
        Tally::Started => c == CandidateStatus::Processed(ProcessOutcome::Completed) || c
            == CandidateStatus::Processed(ProcessOutcome::Blocked),
        Tally::Completed => c == CandidateStatus::Processed(ProcessOutcome::Completed),
        Tally::Failed => c == CandidateStatus::Processed(ProcessOutcome::Blocked) || c
            == CandidateStatus::Failed,
        Tally::Blocked => c == CandidateStatus::Processed(ProcessOutcome::Blocked),
    }
}

/// How many candidates count toward a counter.
pub open spec fn tally(s: Seq<CandidateStatus>, t: Tally) -> nat
    decreases s.len(),
{
    if s.len() == 0 {
        0
    } else {
        tally(s.drop_last(), t) + if counts_toward(s.last(), t) {
            1nat
        } else {
            0nat
        }
    }
}

pub proof fn lemma_tally_bounded(s: Seq<CandidateStatus>, t: Tally)
    ensures
        tally(s, t) <= s.len(),
    decreases s.len(),
{
    if s.len() > 0 {
        lemma_tally_bounded(s.drop_last(), t);
    }
}

/// The summary of a poll whose candidates ended as `s`.
pub open spec fn poll_summary(
    enabled: bool,
    automatic: bool,
    s: Seq<CandidateStatus>,
) -> ReviewPollSummary {
    ReviewPollSummary {
        review_enabled: enabled,
        candidates_seen: s.len() as u32,
        attempts_started: tally(s, Tally::Started) as u32,
        attempts_completed: tally(s, Tally::Completed) as u32,
        attempts_failed: tally(s, Tally::Failed) as u32,
        waiting: tally(s, Tally::Waiting) as u32,
        preview_published: if automatic {
            0
        } else {
            tally(s, Tally::Completed) as u32
        },
        automatic_published: if automatic {
            tally(s, Tally::Completed) as u32
        } else {
            0
        },
        blocked: tally(s, Tally::Blocked) as u32,
    }
}

/// The summary of a poll: every candidate is counted once as seen, and
/// toward the counters its status belongs to. `automatic` is whether the
/// review mode publishes formally.
pub fn summarize_poll(enabled: bool, automatic: bool, statuses: &Vec<CandidateStatus>) -> (res:
    ReviewPollSummary)
    requires
        statuses@.len() <= u32::MAX,
    ensures
        res == poll_summary(enabled, automatic, statuses@),
{
    let mut summary = empty_summary_exec(enabled);
    let mut i: usize = 0;
    while i < statuses.len()
        invariant
            i <= statuses@.len() <= u32::MAX,
            summary == poll_summary(enabled, automatic, statuses@.take(i as int)),
        decreases statuses@.len() - i,
    {
        let ghost before = statuses@.take(i as int);
        let ghost after = statuses@.take(i + 1);
        proof {
            assert(after.drop_last() =~= before);
            assert(after.last() == statuses@[i as int]);
            lemma_tally_bounded(before, Tally::Waiting);
            lemma_tally_bounded(before, Tally::Started);
            lemma_tally_bounded(before, Tally::Completed);
            lemma_tally_bounded(before, Tally::Failed);
            lemma_tally_bounded(before, Tally::Blocked);
        }
        summary.candidates_seen = summary.candidates_seen + 1;
        match statuses[i] {
            CandidateStatus::NotEligible => {
                summary.waiting = summary.waiting + 1;
            },
            CandidateStatus::Processed(ProcessOutcome::Completed) => {
                summary.attempts_started = summary.attempts_started + 1;
                summary.attempts_completed = summary.attempts_completed + 1;
                if automatic {
                    summary.automatic_published = summary.automatic_published + 1;
                } else {
                    summary.preview_published = summary.preview_published + 1;
                }
            },
            CandidateStatus::Processed(ProcessOutcome::Waiting) => {
                summary.waiting = summary.waiting + 1;
            },
            CandidateStatus::Processed(ProcessOutcome::Blocked) => {
                summary.attempts_started = summary.attempts_started + 1;
                summary.attempts_failed = summary.attempts_failed + 1;
                summary.blocked = summary.blocked + 1;
            },
            CandidateStatus::Failed => {
                summary.attempts_failed = summary.attempts_failed + 1;
            },
        }
        i = i + 1;
    }
    proof {
        assert(statuses@.take(statuses@.len() as int) =~= statuses@);
    }
    summary
}

/// Every candidate of a poll is accounted for exactly once: it waited, was
/// started, or failed before it was started; every started attempt
/// completed or was blocked; every completed attempt was published as a
/// preview or automatically.
pub proof fn lemma_poll_summary_accounts_for_every_candidate(
    enabled: bool,
    automatic: bool,
    s: Seq<CandidateStatus>,
)
    requires
        s.len() <= u32::MAX,
    ensures
        ({
            let r = poll_summary(enabled, automatic, s);
            &&& r.candidates_seen == r.waiting + r.attempts_started + (r.attempts_failed
                - r.blocked)
            &&& r.attempts_started == r.attempts_completed + r.blocked
            &&& r.attempts_completed == r.preview_published + r.automatic_published
            &&& r.blocked <= r.attempts_failed
        }),
    decreases s.len(),
{
    lemma_tally_partition(s);
    lemma_tally_bounded(s, Tally::Waiting);
    lemma_tally_bounded(s, Tally::Started);
    lemma_tally_bounded(s, Tally::Completed);
    lemma_tally_bounded(s, Tally::Failed);
    lemma_tally_bounded(s, Tally::Blocked);
}

proof fn lemma_tally_partition(s: Seq<CandidateStatus>)
    ensures
        s.len() == tally(s, Tally::Waiting) + tally(s, Tally::Started) + tally(s, Tally::Failed)
            - tally(s, Tally::Blocked),
        tally(s, Tally::Started) == tally(s, Tally::Completed) + tally(s, Tally::Blocked),
        tally(s, Tally::Blocked) <= tally(s, Tally::Failed),
    decreases s.len(),
{
    if s.len() > 0 {
        lemma_tally_partition(s.drop_last());
    }
}

/// Whether a candidate is dispatched, and if not, why.
#[derive(Debug, Clone, Copy, PartialEq, Eq, Structural)]
pub enum CandidateGate {
    /// Leave the candidate for a later poll.
    Wait,
    /// A findings artifact exists for this head but lost its publication
    /// intent: recreate the intent and publish it.
    RepublishOrphan,
    /// Review the head.
    Dispatch,
}

/// The rule: a closed pull request, or a head that already failed
/// `max(max_attempts, 1)` times, waits; a head with a findings artifact is
/// republished when that artifact is orphaned and otherwise waits for
/// reconciliation; anything else is dispatched.
pub open spec fn candidate_gate_spec(
    pull_state: Seq<char>,
    failed_attempts: u32,
    max_attempts: u32,
    artifact_exists: bool,
    orphaned_artifact: bool,
) -> CandidateGate {
    if !eq_ignore_case(pull_state, "open"@) {
        CandidateGate::Wait
    } else if failed_attempts >= (if max_attempts > 1 {
        max_attempts
    } else {
        1
    }) {
        CandidateGate::Wait
    } else if artifact_exists {
        if orphaned_artifact {
            CandidateGate::RepublishOrphan
        } else {
            CandidateGate::Wait
        }
    } else {
        CandidateGate::Dispatch
    }
}

pub fn candidate_gate(
    pull_state: &str,
    failed_attempts: u32,
    max_attempts: u32,
    artifact_exists: bool,
    orphaned_artifact: bool,
) -> (res: CandidateGate)
    ensures
        res == candidate_gate_spec(
            pull_state@,
            failed_attempts,
            max_attempts,
            artifact_exists,
            orphaned_artifact,
        ),
{
    if !eq_ignore_ascii_case(pull_state, "open") {
        return CandidateGate::Wait;
    }
    let limit = if max_attempts > 1 {
        max_attempts
    } else {
        1
    };
    if failed_attempts >= limit {
        CandidateGate::Wait
    } else if artifact_exists {
        if orphaned_artifact {
            CandidateGate::RepublishOrphan
        } else {
            CandidateGate::Wait
        }
    } else {
        CandidateGate::Dispatch
    }
}

/// Whether the pull request's head or base moved between two reads.
pub fn pull_revision_changed(before: &GithubPullRequest, after: &GithubPullRequest) -> (res: bool)
    ensures
        res == (before.head.sha@ != after.head.sha@ || before.base.sha@ != after.base.sha@),
{
    !crate::text::str_eq(before.head.sha.as_str(), after.head.sha.as_str())
        || !crate::text::str_eq(before.base.sha.as_str(), after.base.sha.as_str())
}

/// The patch text shown for a file whose patch the forge did not give.
pub const PATCH_UNAVAILABLE: &'static str = "(binary or patch unavailable)\n";

/// One file of the review diff: a git header naming the file, then its
/// patch.
pub open spec fn file_diff(f: GithubPullRequestFile) -> Seq<char> {
    "diff --git a/"@ + f.filename@ + " b/"@ + f.filename@ + "\n--- a/"@ + f.filename@
        + "\n+++ b/"@ + f.filename@ + "\n"@ + match f.patch {
        Some(p) => p@,
        None => PATCH_UNAVAILABLE@,
    }
}

/// The review diff: each file's section, in order.
pub open spec fn review_diff_spec(files: Seq<GithubPullRequestFile>) -> Seq<char>
    decreases files.len(),
{
    if files.len() == 0 {
        Seq::empty()
    } else {
        review_diff_spec(files.drop_last()) + file_diff(files.last())
    }
}

fn append_file_diff(out: &mut String, f: &GithubPullRequestFile)
    ensures
        final(out)@ == old(out)@ + file_diff(*f),
{
    out.append("diff --git a/");
    out.append(f.filename.as_str());
    out.append(" b/");
    out.append(f.filename.as_str());
    out.append("\n--- a/");
    out.append(f.filename.as_str());
    out.append("\n+++ b/");
    out.append(f.filename.as_str());
    out.append("\n");
    match &f.patch {
        Some(p) => out.append(p.as_str()),
        None => out.append(PATCH_UNAVAILABLE),
    }
    assert(final(out)@ =~= old(out)@ + file_diff(*f));
}

/// The diff handed to the review worker.
pub fn render_review_diff(files: &Vec<GithubPullRequestFile>) -> (res: String)
    ensures
        res@ == review_diff_spec(files@),
{
    let mut out = String::new();
    let mut i: usize = 0;
    while i < files.len()
        invariant
            i <= files@.len(),
            out@ == review_diff_spec(files@.take(i as int)),
        decreases files@.len() - i,
    {
        proof {
            assert(files@.take(i + 1).drop_last() =~= files@.take(i as int));
        }
        append_file_diff(&mut out, &files[i]);
        i = i + 1;
    }
    proof {
        assert(files@.take(files@.len() as int) =~= files@);
    }
    out
}

/// The harness name recorded with a claimed attempt.
pub fn harness_label(backend: AgentBackend) -> (res: &'static str)
    ensures
        res@ == (match backend {
            AgentBackend::Codex => "codex"@,
            AgentBackend::KataCli => "pi"@,
        }),
{
    match backend {
        AgentBackend::Codex => "codex",
        AgentBackend::KataCli => "pi",
    }
}

/// An object's entries with one more entry.
pub open spec fn with_field(entries: Seq<char>, key: Seq<char>, value: Seq<char>) -> Seq<char> {
    entries + seq![','] + quoted(key) + seq![':'] + value
}

/// An object's entries with one more entry when there is a value; an
/// absent value is left out.
pub open spec fn with_opt_field(entries: Seq<char>, key: Seq<char>, value: Option<Seq<char>>) -> Seq<
    char,
> {
    match value {
        Some(v) => with_field(entries, key, v),
        None => entries,
    }
}

/// A route as a JSON object.
pub open spec fn route_text(r: ReviewRoute) -> Seq<char> {
    seq!['{'] + quoted("state"@) + seq![':'] + quoted(r.state@) + seq!['}']
}

pub open spec fn opt_route_text(r: Option<ReviewRoute>) -> Option<Seq<char>> {
    match r {
        Some(x) => Some(route_text(x)),
        None => None,
    }
}

/// The compact JSON encoding of a review configuration: its fields in
/// order, modes and severities by their snake-case names, absent optional
/// fields left out.
pub open spec fn review_config_text(c: ReviewConfig) -> Seq<char> {
    let t = quoted("enabled"@) + seq![':'] + (if c.enabled {
        "true"@
    } else {
        "false"@
    });
    let t = with_field(
        t,
        "mode"@,
        quoted(
            match c.mode {
                ReviewMode::Preview => "preview"@,
                ReviewMode::Automatic => "automatic"@,
            },
        ),
    );
    let t = with_field(t, "prompt"@, quoted(c.prompt@));
    let t = with_opt_field(
        t,
        "model"@,
        match c.model {
            Some(m) => Some(quoted(m@)),
            None => None,
        },
    );
    let t = with_field(t, "max_turns"@, decimal(c.max_turns as nat));
    let t = with_field(t, "invocation_timeout_ms"@, decimal(c.invocation_timeout_ms as nat));
    let t = with_field(t, "max_attempts"@, decimal(c.max_attempts as nat));
    let t = with_field(t, "max_reprompts"@, decimal(c.max_reprompts as nat));
    let t = with_field(t, "max_findings"@, decimal(c.max_findings as nat));
    let t = with_field(t, "blocking_severity"@, quoted(severity_name(c.blocking_severity)));
    let t = with_field(t, "trigger_state"@, quoted(c.trigger_state@));
    let t = with_opt_field(t, "completion_route"@, opt_route_text(c.completion_route));
    let t = with_opt_field(t, "changes_requested_route"@, opt_route_text(c.changes_requested_route));
    let t = with_opt_field(
        t,
        "permission_probe_pull_request"@,
        match c.permission_probe_pull_request {
            Some(n) => Some(decimal(n as nat)),
            None => None,
        },
    );
    seq!['{'] + t + seq!['}']
}

fn route_json(r: &ReviewRoute) -> (res: JsonValue)
    ensures
        json_text(res) == route_text(*r),
{
    let mut entries: Vec<(String, JsonValue)> = Vec::new();
    push_entry(&mut entries, "state", JsonValue::Str(r.state.clone()));
    JsonValue::Object(entries)
}

fn push_opt_route(entries: &mut Vec<(String, JsonValue)>, key: &str, r: &Option<ReviewRoute>)
    requires
        old(entries)@.len() > 0,
    ensures
        final(entries)@.len() > 0,
        entries_text(final(entries)@) == with_opt_field(
            entries_text(old(entries)@),
            key@,
            opt_route_text(*r),
        ),
{
    match r {
        Some(route) => push_entry(entries, key, route_json(route)),
        None => {},
    }
}

/// The compact JSON encoding of a review configuration.
pub fn review_config_json_text(config: &ReviewConfig) -> (res: String)
    ensures
        res@ == review_config_text(*config),
{
    let mut e: Vec<(String, JsonValue)> = Vec::new();
    push_entry(&mut e, "enabled", JsonValue::Bool(config.enabled));
    push_entry(&mut e, "mode", JsonValue::Str(config.mode.as_str().to_owned()));
    push_entry(&mut e, "prompt", JsonValue::Str(config.prompt.clone()));
    match &config.model {
        Some(m) => push_entry(&mut e, "model", JsonValue::Str(m.clone())),
        None => {},
    }
    push_entry(&mut e, "max_turns", json_u64(config.max_turns as u64));
    push_entry(&mut e, "invocation_timeout_ms", json_u64(config.invocation_timeout_ms));
    push_entry(&mut e, "max_attempts", json_u64(config.max_attempts as u64));
    push_entry(&mut e, "max_reprompts", json_u64(config.max_reprompts as u64));
    push_entry(&mut e, "max_findings", json_u64(config.max_findings as u64));
    push_entry(&mut e, "blocking_severity", JsonValue::Str(config.blocking_severity.as_str().to_owned()));
    push_entry(&mut e, "trigger_state", JsonValue::Str(config.trigger_state.clone()));
    push_opt_route(&mut e, "completion_route", &config.completion_route);
    push_opt_route(&mut e, "changes_requested_route", &config.changes_requested_route);
    match config.permission_probe_pull_request {
        Some(n) => push_entry(&mut e, "permission_probe_pull_request", json_u64(n)),
        None => {},
    }
    to_json_text(&JsonValue::Object(e))
}

/// The revision of a review configuration: the lowercase hex SHA-256 of
/// the UTF-8 bytes of its compact JSON encoding.
pub fn review_configuration_revision(config: &ReviewConfig) -> (res: String)
    ensures
        res@ == hex_lower(sha256_digest(encode_utf8(review_config_text(*config)))),
{
    let text = review_config_json_text(config);
    sha256_hex(text.as_str().as_bytes())
}

/// Whether some finding is at least as severe as the blocking severity.
pub open spec fn has_blocking_finding(
    findings: Seq<ReviewFinding>,
    blocking: crate::review::manifest::ReviewSeverity,
) -> bool {
    exists|i: int|
        0 <= i < findings.len() && severity_rank(#[trigger] findings[i].severity) <= severity_rank(
            blocking,
        )
}

/// The project state a findings artifact routes its issue to: the
/// changes-requested route when a finding is at least as severe as the
/// blocking severity, else the completion route; the state trimmed.
pub open spec fn route_state_spec(
    artifact: ReviewFindingsArtifactRecord,
    service: ServiceConfig,
) -> Option<Seq<char>> {
    let route = if has_blocking_finding(
        artifact.manifest.findings@,
        service.review.blocking_severity,
    ) {
        service.review.changes_requested_route
    } else {
        service.review.completion_route
    };
    match route {
        Some(r) => Some(trim_seq(r.state@)),
        None => None,
    }
}

pub fn review_route_state(artifact: &ReviewFindingsArtifactRecord, service: &ServiceConfig) -> (res:
    Option<String>)
    ensures
        match res {
            Some(s) => route_state_spec(*artifact, *service) == Some(s@),
            None => route_state_spec(*artifact, *service) is None,
        },
{
    let findings = &artifact.manifest.findings;
    let blocking = service.review.blocking_severity;
    let mut any = false;
    let mut i: usize = 0;
    while i < findings.len()
        invariant
            i <= findings@.len(),
            any == exists|j: int|
                0 <= j < i && severity_rank(#[trigger] findings@[j].severity) <= severity_rank(
                    blocking,
                ),
        decreases findings@.len() - i,
    {
        if findings[i].severity.at_least_as_severe_as(blocking) {
            any = true;
        }
        i = i + 1;
    }
    let route = if any {
        &service.review.changes_requested_route
    } else {
        &service.review.completion_route
    };
    match route {
        Some(r) => Some(trim(r.state.as_str())),
        None => None,
    }
}

/// The fragments of a publication error that mark a conflict no retry can
/// resolve.
pub open spec fn conflict_needles() -> Seq<Seq<char>> {
    seq![
        "marker"@,
        "foreign"@,
        "owned by another"@,
        "head does not match"@,
        "drift"@,
        "conflict"@,
    ]
}

pub open spec fn is_publication_conflict(message: Seq<char>) -> bool {
    exists|i: int|
        0 <= i < conflict_needles().len() && contains_seq(
            lower_seq(message),
            #[trigger] conflict_needles()[i],
        )
}

/// A publication error, by its message: a conflict (not retryable) when the
/// lowercased message holds one of the conflict fragments, else retryable.
pub fn classify_review_publication_error(message: &str) -> (res: FactoryError)
    ensures
        res.message@ == message@,
        res.component@ == "review_publisher"@,
        is_publication_conflict(message@) ==> res.code@ == "review_publication_conflict"@
            && !res.retryable,
        !is_publication_conflict(message@) ==> res.code@ == "review_publication_retryable"@
            && res.retryable,
{
    let lower = to_ascii_lowercase(message);
    let l = lower.as_str();
    let conflict = contains_str(l, "marker") || contains_str(l, "foreign") || contains_str(
        l,
        "owned by another",
    ) || contains_str(l, "head does not match") || contains_str(l, "drift") || contains_str(
        l,
        "conflict",
    );
    proof {
        let n = conflict_needles();
        assert(n[0] == "marker"@);
        assert(n[1] == "foreign"@);
        assert(n[2] == "owned by another"@);
        assert(n[3] == "head does not match"@);
        assert(n[4] == "drift"@);
        assert(n[5] == "conflict"@);
        if is_publication_conflict(message@) {
            let i = choose|i: int|
                0 <= i < n.len() && contains_seq(lower_seq(message@), #[trigger] n[i]);
            assert(0 <= i < 6);
        }
    }
    if conflict {
        FactoryError {
            code: "review_publication_conflict".to_owned(),
            component: "review_publisher".to_owned(),
            message: message.to_owned(),
            retryable: false,
        }
    } else {
        FactoryError {
            code: "review_publication_retryable".to_owned(),
            component: "review_publisher".to_owned(),
            message: message.to_owned(),
            retryable: true,
        }
    }
}

/// The message that marks an attempt interrupted by a moved head or base.
pub const REVIEW_CYCLE_REOPENED_MESSAGE: &'static str =
    "review cycle reopened while worker was running";

/// The code a failed review attempt is recorded with.
pub fn review_attempt_error_code(message: &str) -> (res: &'static str)
    ensures
        contains_seq(message@, REVIEW_CYCLE_REOPENED_MESSAGE@) ==> res@ == "review_cycle_reopened"@,
        !contains_seq(message@, REVIEW_CYCLE_REOPENED_MESSAGE@) ==> res@
            == "review_attempt_failed"@,
{
    if contains_str(message, REVIEW_CYCLE_REOPENED_MESSAGE) {
        "review_cycle_reopened"
    } else {
        "review_attempt_failed"
    }
}

/// A configured review path, before it is resolved on disk: the trimmed
/// value, or an error naming the field when it is blank.
pub fn review_path_input(value: &str, field: &str) -> (res: Result<String, SymphonyError>)
    ensures
        trim_seq(value@).len() == 0 <==> res is Err,
        res matches Ok(p) ==> p@ == trim_seq(value@),
        res matches Err(e) ==> (e matches SymphonyError::InvalidWorkflowConfig(m) && m@ == field@
            + " cannot be empty when review is enabled"@),
{
    let trimmed = trim(value);
    if trimmed.unicode_len() == 0 {
        let mut m = field.to_owned();
        m.append(" cannot be empty when review is enabled");
        return Err(SymphonyError::InvalidWorkflowConfig(m));
    }
    Ok(trimmed)
}

/// What validating one worker output found.
#[derive(Debug, Clone, PartialEq, Eq)]
pub enum ManifestCheck {
    /// The output was not UTF-8; the decoder's message.
    NotUtf8(String),
    /// The manifest did not validate; the validation message.
    Invalid(String),
    Valid,
}

/// What a validation result is to the review loop: an accepted manifest is
/// valid; a rejected one is invalid, with the rejection's text
/// (`review findings manifest rejected: ` and its violations joined by
/// `; `).
pub fn manifest_check(result: &Result<ReviewFindingsManifest, ManifestValidationError>) -> (res:
    ManifestCheck)
    ensures
        (res == ManifestCheck::Valid) == (result is Ok),
        result matches Err(e) ==> res matches ManifestCheck::Invalid(m) && m@
            == "review findings manifest rejected: "@ + join_spec(strings_view(e.violations@), "; "@),
{
    match result {
        Ok(_) => ManifestCheck::Valid,
        Err(e) => ManifestCheck::Invalid(e.to_display_string()),
    }
}

/// What one worker turn came to.
#[derive(Debug, Clone, PartialEq, Eq)]
pub enum WorkerTurnEvent {
    /// The worker could not be run; its error text.
    InvocationFailed(String),
    /// The pull request's head or base moved while the worker ran.
    RevisionChanged,
    /// The worker produced output with this usage.
    Output(StageUsage, ManifestCheck),
}

/// The next step of the review loop.
#[derive(Debug, Clone, PartialEq, Eq)]
pub enum ReviewLoopAction {
    /// Run the worker again with this prompt.
    RunWorker(String),
    /// The revision moved: the attempt is interrupted and the candidate
    /// waits.
    Reopened,
    /// The manifest validated.
    Accept,
    /// Every turn failed: the attempt is blocked with this message.
    Block(String),
}

/// The reprompt loop around the review worker: the turn number (0 for the
/// first run), the last validation or invocation error, and the usage of
/// the turns so far.
#[derive(Debug, Clone, PartialEq, Eq)]
pub struct ReviewAttemptLoop {
    pub base_prompt: String,
    pub max_reprompts: u32,
    pub reprompt: u32,
    pub last_error: Option<String>,
    pub total_usage: StageUsage,
}

pub const REPROMPT_FEEDBACK_PREFIX: &'static str =
    "\n\nPrevious validation feedback (fix the JSON output only): ";

pub const DEFAULT_VALIDATION_FEEDBACK: &'static str = "manifest validation failed";

pub const MANIFEST_NOT_PRODUCED: &'static str = "review manifest was not produced";

/// The prompt of a turn: the base prompt on the first run; later, the base
/// prompt with the last error as feedback.
pub open spec fn turn_prompt(l: ReviewAttemptLoop) -> Seq<char> {
    if l.reprompt == 0 {
        l.base_prompt@
    } else {
        l.base_prompt@ + REPROMPT_FEEDBACK_PREFIX@ + match l.last_error {
            Some(e) => e@,
            None => DEFAULT_VALIDATION_FEEDBACK@,
        }
    }
}

/// The error a turn leaves behind, if it failed without the revision
/// moving.
pub open spec fn turn_error(prev: Option<String>, event: WorkerTurnEvent) -> Option<Seq<char>> {
    match event {
        WorkerTurnEvent::InvocationFailed(e) => Some("worker invocation failed: "@ + e@),
        WorkerTurnEvent::Output(_, ManifestCheck::NotUtf8(e)) => Some(
            "worker output was not UTF-8: "@ + e@,
        ),
        WorkerTurnEvent::Output(_, ManifestCheck::Invalid(e)) => Some(e@),
        _ => match prev {
            Some(p) => Some(p@),
            None => None,
        },
    }
}

impl ReviewAttemptLoop {
    /// The loop before its first turn.
    pub fn start(base_prompt: String, max_reprompts: u32) -> (res: Self)
        ensures
            res.base_prompt == base_prompt,
            res.max_reprompts == max_reprompts,
            res.reprompt == 0,
            res.last_error is None,
            res.total_usage == usage_zero(),
    {
        ReviewAttemptLoop {
            base_prompt,
            max_reprompts,
            reprompt: 0,
            last_error: None,
            total_usage: StageUsage::zero(),
        }
    }

    pub fn prompt_for_turn(&self) -> (res: String)
        ensures
            res@ == turn_prompt(*self),
    {
        let mut p = self.base_prompt.clone();
        if self.reprompt > 0 {
            p.append(REPROMPT_FEEDBACK_PREFIX);
            match &self.last_error {
                Some(e) => p.append(e.as_str()),
                None => p.append(DEFAULT_VALIDATION_FEEDBACK),
            }
        }
        p
    }

    /// Record a turn and decide the next step. A moved revision reopens the
    /// cycle; a valid manifest is accepted; any other turn records its
    /// error and, while reprompts remain, runs the worker again with the
    /// feedback, else blocks with the last error. Output usage adds up,
    /// saturating.
    pub fn record_turn(&mut self, event: WorkerTurnEvent) -> (res: ReviewLoopAction)
        requires
            old(self).reprompt <= old(self).max_reprompts,
        ensures
            final(self).base_prompt == old(self).base_prompt,
            final(self).max_reprompts == old(self).max_reprompts,
            final(self).reprompt <= final(self).max_reprompts,
            final(self).total_usage == match event {
                WorkerTurnEvent::Output(u, _) => usage_sum(old(self).total_usage, u),
                _ => old(self).total_usage,
            },
            event == WorkerTurnEvent::RevisionChanged ==> res == ReviewLoopAction::Reopened,
            event matches WorkerTurnEvent::Output(_, ManifestCheck::Valid) ==> res
                == ReviewLoopAction::Accept,
            !(event == WorkerTurnEvent::RevisionChanged || event matches WorkerTurnEvent::Output(
                _,
                ManifestCheck::Valid,
            )) ==> ({
                let err = turn_error(old(self).last_error, event);
                &&& final(self).last_error matches Some(e) && Some(e@) == err
                &&& if old(self).reprompt < old(self).max_reprompts {
                    &&& final(self).reprompt == old(self).reprompt + 1
                    &&& res matches ReviewLoopAction::RunWorker(p) && p@ == turn_prompt(
                        *final(self),
                    )
                } else {
                    &&& final(self).reprompt == old(self).reprompt
                    &&& res matches ReviewLoopAction::Block(m) && Some(m@) == err
                }
            }),
    {
        match event {
            WorkerTurnEvent::RevisionChanged => {
                return ReviewLoopAction::Reopened;
            },
            WorkerTurnEvent::InvocationFailed(e) => {
                let mut m = "worker invocation failed: ".to_owned();
                m.append(e.as_str());
                self.last_error = Some(m);
            },
            WorkerTurnEvent::Output(u, check) => {
                self.total_usage = self.total_usage.plus(u);
                match check {
                    ManifestCheck::Valid => {
                        return ReviewLoopAction::Accept;
                    },
                    ManifestCheck::NotUtf8(e) => {
                        let mut m = "worker output was not UTF-8: ".to_owned();
                        m.append(e.as_str());
                        self.last_error = Some(m);
                    },
                    ManifestCheck::Invalid(e) => {
                        self.last_error = Some(e);
                    },
                }
            },
        }
        if self.reprompt < self.max_reprompts {
            self.reprompt = self.reprompt + 1;
            ReviewLoopAction::RunWorker(self.prompt_for_turn())
        } else {
            let message = match &self.last_error {
                Some(e) => e.clone(),
                None => MANIFEST_NOT_PRODUCED.to_owned(),
            };
            ReviewLoopAction::Block(message)
        }
    }
}

/// The status a failed publication attempt leaves its intent in: a
/// conflict stops for good; a failure that cannot be retried, or the one
/// that spends the last of `max(max_attempts, 1)` attempts, blocks; any
/// other failure stays pending for another attempt.
pub open spec fn publication_failure_status_spec(
    retry_count: u32,
    error: FactoryError,
    max_attempts: u32,
) -> PublicationStatus {
    let next: int = if retry_count == u32::MAX {
        u32::MAX as int
    } else {
        retry_count + 1
    };
    let limit: int = if max_attempts > 1 {
        max_attempts as int
    } else {
        1
    };
    if error.code@ == "review_publication_conflict"@ {
        PublicationStatus::Conflict
    } else if !error.retryable || next >= limit {
        PublicationStatus::Blocked
    } else {
        PublicationStatus::Pending
    }
}

pub fn publication_failure_status(retry_count: u32, error: &FactoryError, max_attempts: u32) -> (res:
    PublicationStatus)
    ensures
        res == publication_failure_status_spec(retry_count, *error, max_attempts),
{
    let next: u32 = if retry_count == u32::MAX {
        u32::MAX
    } else {
        retry_count + 1
    };
    let limit: u32 = if max_attempts > 1 {
        max_attempts
    } else {
        1
    };
    if crate::text::str_eq(error.code.as_str(), "review_publication_conflict") {
        PublicationStatus::Conflict
    } else if !error.retryable || next >= limit {
        PublicationStatus::Blocked
    } else {
        PublicationStatus::Pending
    }
}

/// A publication is not retried without end: the attempt that reaches the
/// limit blocks it, whatever the error.
pub proof fn lemma_publication_retries_are_bounded(
    retry_count: u32,
    error: FactoryError,
    max_attempts: u32,
)
    requires
        retry_count + 1 >= max_attempts,
    ensures
        publication_failure_status_spec(retry_count, error, max_attempts)
            != PublicationStatus::Pending,
{
}

/// The error recorded when a pending intent's artifact is gone.
pub fn missing_artifact_error(artifact_id: &str) -> (res: FactoryError)
    ensures
        res.code@ == "review_publication_missing_artifact"@,
        res.component@ == "review_publisher"@,
        res.message@ == "review artifact "@ + artifact_id@ + " is missing"@,
        !res.retryable,
{
    let mut m = "review artifact ".to_owned();
    m.append(artifact_id);
    m.append(" is missing");
    FactoryError {
        code: "review_publication_missing_artifact".to_owned(),
        component: "review_publisher".to_owned(),
        message: m,
        retryable: false,
    }
}

/// The error recorded when a pending intent does not name its issue.
pub fn missing_issue_number_error(intent_id: &str) -> (res: FactoryError)
    ensures
        res.code@ == "review_publication_missing_issue_number"@,
        res.component@ == "review_publisher"@,
        res.message@ == "review intent "@ + intent_id@ + " is missing issue_number"@,
        !res.retryable,
{
    let mut m = "review intent ".to_owned();
    m.append(intent_id);
    m.append(" is missing issue_number");
    FactoryError {
        code: "review_publication_missing_issue_number".to_owned(),
        component: "review_publisher".to_owned(),
        message: m,
        retryable: false,
    }
}


/// Severities are ordered Blocking, Major, Minor, Nit from most to least
/// severe, and a finding counts against the threshold when it is at least
/// as severe: a Blocking finding routes the issue to the changes-requested
/// route whatever the threshold, a finding of the threshold's own severity
/// does too, and an artifact whose findings are all less severe than the
/// threshold routes to completion.
pub proof fn lemma_severe_findings_request_changes(
    artifact: ReviewFindingsArtifactRecord,
    service: ServiceConfig,
    i: int,
)
    requires
        0 <= i < artifact.manifest.findings@.len(),
    ensures
        severity_rank(crate::review::manifest::ReviewSeverity::Blocking) < severity_rank(
            crate::review::manifest::ReviewSeverity::Major,
        ) < severity_rank(crate::review::manifest::ReviewSeverity::Minor) < severity_rank(
            crate::review::manifest::ReviewSeverity::Nit,
        ),
        (artifact.manifest.findings@[i].severity == crate::review::manifest::ReviewSeverity::Blocking
            || artifact.manifest.findings@[i].severity == service.review.blocking_severity)
            ==> route_state_spec(artifact, service) == match service.review.changes_requested_route {
            Some(r) => Some(trim_seq(r.state@)),
            None => None,
        },
{
    assert(severity_rank(artifact.manifest.findings@[i].severity) <= severity_rank(
        service.review.blocking_severity,
    ) ==> has_blocking_finding(artifact.manifest.findings@, service.review.blocking_severity));
}

/// With the threshold at Blocking, findings that are all Major or milder
/// route the issue to completion.
pub proof fn lemma_milder_findings_complete(artifact: ReviewFindingsArtifactRecord, service: ServiceConfig)
    requires
        service.review.blocking_severity == crate::review::manifest::ReviewSeverity::Blocking,
        forall|i: int|
            0 <= i < artifact.manifest.findings@.len() ==> #[trigger] artifact.manifest.findings@[i].severity
                != crate::review::manifest::ReviewSeverity::Blocking,
    ensures
        route_state_spec(artifact, service) == match service.review.completion_route {
            Some(r) => Some(trim_seq(r.state@)),
            None => None,
        },
{
    if has_blocking_finding(artifact.manifest.findings@, service.review.blocking_severity) {
        let k = choose|k: int|
            0 <= k < artifact.manifest.findings@.len() && severity_rank(
                #[trigger] artifact.manifest.findings@[k].severity,
            ) <= severity_rank(service.review.blocking_severity);
        assert(artifact.manifest.findings@[k].severity != crate::review::manifest::ReviewSeverity::Blocking);
    }
}

} // verus!
