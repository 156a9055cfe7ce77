//! Review-stage configuration and durable values.

use vstd::prelude::*;

use crate::domain::{usage_zero, FactoryError, PublicationStatus, StageUsage};
use crate::review::manifest::{ReviewFindingsManifest, ReviewSeverity};

verus! {

pub const REVIEW_STAGE_NAME: &'static str = "review";

pub const REVIEW_SCHEMA_VERSION: u32 = 1;

pub const REVIEW_COMMENT_MARKER_PREFIX: &'static str = "<!-- symphony:review:";

pub const REVIEW_COMMENT_MARKER_SUFFIX: &'static str = " -->";

pub const REVIEW_DEFAULT_PROMPT: &'static str = "prompts/agent-review.md";

pub const REVIEW_MAX_FINDINGS_DEFAULT: usize = 50;

pub const REVIEW_MAX_REPROMPTS_DEFAULT: u32 = 2;

/// Whether reviews are only previewed or published for real.
#[derive(Debug, Clone, Copy, PartialEq, Eq, Structural)]
pub enum ReviewMode {
    Preview,
    Automatic,
}

impl ReviewMode {
    pub fn as_str(self) -> (res: &'static str)
        ensures
            res@ == (match self {
                ReviewMode::Preview => "preview"@,
                ReviewMode::Automatic => "automatic"@,
            }),
    {
        match self {
            ReviewMode::Preview => "preview",
            ReviewMode::Automatic => "automatic",
        }
    }
}

impl Default for ReviewMode {
    fn default() -> (res: Self)
        ensures
            res == ReviewMode::Preview,
    {
        ReviewMode::Preview
    }
}

/// The project state a review outcome moves its issue to.
#[derive(Debug, Clone, PartialEq, Eq)]
pub struct ReviewRoute {
    pub state: String,
}

/// Configuration of the review stage.
#[derive(Debug, Clone, PartialEq, Eq)]
pub struct ReviewConfig {
    pub enabled: bool,
    pub mode: ReviewMode,
    pub prompt: String,
    pub model: Option<String>,
    pub max_turns: u32,
    pub invocation_timeout_ms: u64,
    pub max_attempts: u32,
    pub max_reprompts: u32,
    pub max_findings: usize,
    pub blocking_severity: ReviewSeverity,
    pub trigger_state: String,
    pub completion_route: Option<ReviewRoute>,
    pub changes_requested_route: Option<ReviewRoute>,
    pub permission_probe_pull_request: Option<u64>,
}

impl Default for ReviewConfig {
    fn default() -> (res: Self)
        ensures
            !res.enabled,
            res.mode == ReviewMode::Preview,
            res.prompt@ == REVIEW_DEFAULT_PROMPT@,
            res.model is None,
            res.max_turns == 1,
            res.invocation_timeout_ms == 1_800_000,
            res.max_attempts == 3,
            res.max_reprompts == REVIEW_MAX_REPROMPTS_DEFAULT,
            res.max_findings == REVIEW_MAX_FINDINGS_DEFAULT,
            res.blocking_severity == ReviewSeverity::Blocking,
            res.trigger_state@ == "Agent Review"@,
            res.completion_route is None,
            res.changes_requested_route is None,
            res.permission_probe_pull_request is None,
    {
        ReviewConfig {
            enabled: false,
            mode: ReviewMode::Preview,
            prompt: REVIEW_DEFAULT_PROMPT.to_owned(),
            model: None,
            max_turns: 1,
            invocation_timeout_ms: 1_800_000,
            max_attempts: 3,
            max_reprompts: REVIEW_MAX_REPROMPTS_DEFAULT,
            max_findings: REVIEW_MAX_FINDINGS_DEFAULT,
            blocking_severity: ReviewSeverity::Blocking,
            trigger_state: "Agent Review".to_owned(),
            completion_route: None,
            changes_requested_route: None,
            permission_probe_pull_request: None,
        }
    }
}

/// A stored, validated review findings artifact; times are Unix
/// milliseconds.
#[derive(Debug, Clone, PartialEq, Eq)]
pub struct ReviewFindingsArtifactRecord {
    pub artifact_id: String,
    pub run_id: String,
    pub stage_run_id: String,
    pub attempt_id: String,
    pub draft_pr_artifact_id: String,
    pub implementation_artifact_id: String,
    pub spec_artifact_id: String,
    pub schema_version: u32,
    pub reviewed_head_sha: String,
    pub base_sha: String,
    pub manifest: ReviewFindingsManifest,
    pub no_findings: bool,
    pub finding_count: u32,
    pub received_at_ms: i64,
    pub bytes_len: u64,
}

/// A durable intent to publish a findings artifact, with the forge
/// identities it has been bound to. `approved_spec_version` is the version
/// its desired effects recorded, where they recorded one that fits a `u32`.
#[derive(Debug, Clone, PartialEq, Eq)]
pub struct ReviewPublicationIntent {
    pub intent_id: String,
    pub run_id: String,
    pub artifact_id: String,
    pub kind: String,
    pub status: PublicationStatus,
    pub completed_steps: Vec<String>,
    pub retry_count: u32,
    pub last_error: Option<FactoryError>,
    pub comment_id: Option<String>,
    pub publisher_login: Option<String>,
    pub review_id: Option<String>,
    pub review_url: Option<String>,
    pub route_state: Option<String>,
    pub approved_spec_version: Option<u32>,
}

/// A stored finding and its lifecycle across review cycles.
#[derive(Debug, Clone, PartialEq, Eq)]
pub struct ReviewFindingRecord {
    pub finding_record_id: String,
    pub run_id: String,
    pub artifact_id: String,
    pub finding_id: String,
    pub identity_key: String,
    pub reviewed_head_sha: String,
    pub base_sha: String,
    pub lifecycle_state: String,
}

/// Review-stage metric counters.
#[derive(Debug, Clone, Default, PartialEq, Eq)]
pub struct ReviewMetricsAggregate {
    pub total_attempts: u64,
    pub completed_attempts: u64,
    pub failed_attempts: u64,
    pub blocked_publications: u64,
    pub preview_publications: u64,
    pub automatic_publications: u64,
    pub findings: u64,
    pub no_findings: u64,
}

impl ReviewMetricsAggregate {
    /// Review attempts report no token usage of their own.
    pub fn usage(&self) -> (res: StageUsage)
        ensures
            res == usage_zero(),
    {
        StageUsage::zero()
    }
}

} // verus!
