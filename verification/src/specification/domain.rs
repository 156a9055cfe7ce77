//! Values of the specification stage and its configuration.

use vstd::prelude::*;

verus! {

pub const SPEC_STAGE_NAME: &'static str = "spec";

pub const SPEC_SCHEMA_VERSION: u32 = 1;

pub const SPEC_ARTIFACT_MAX_BYTES: usize = 65536;

pub const SPEC_SECTION_MAX_BYTES: usize = 16000;

pub const SPEC_LIST_ITEM_MAX_BYTES: usize = 1000;

pub const SPEC_ACCEPTANCE_CRITERIA_MAX_ITEMS: usize = 50;

pub const SPEC_OPEN_DECISIONS_MAX_ITEMS: usize = 50;

pub const SPEC_FINDINGS_MAX_ITEMS: usize = 30;

pub const SPEC_COMMENT_MARKER_PREFIX: &'static str = "<!-- symphony:spec:";

pub const SPEC_COMMENT_MARKER_SUFFIX: &'static str = " -->";

/// The specification a drafting turn produces.
#[derive(Debug, Clone, PartialEq, Eq)]
pub struct SpecArtifact {
    pub schema_version: u32,
    pub product_behavior: String,
    pub technical_approach: String,
    pub acceptance_criteria: Vec<String>,
    pub open_decisions: Vec<String>,
}

/// The character content of a list of strings.
pub open spec fn strings_view(v: Seq<String>) -> Seq<Seq<char>> {
    v.map_values(|s: String| s@)
}

#[derive(Debug, Clone, Copy, PartialEq, Eq, Structural)]
pub enum ReviewVerdict {
    Pass,
    Revise,
}

#[derive(Debug, Clone, Copy, PartialEq, Eq, Structural)]
pub enum FindingSeverity {
    Blocking,
    Advisory,
}

#[derive(Debug, Clone, Copy, PartialEq, Eq, Structural)]
pub enum FindingSection {
    ProductBehavior,
    TechnicalApproach,
    AcceptanceCriteria,
    OpenDecisions,
    General,
}

/// The name a section is rendered with (its `Debug` form).
pub open spec fn section_name(section: FindingSection) -> Seq<char> {
    match section {
        FindingSection::ProductBehavior => "ProductBehavior"@,
        FindingSection::TechnicalApproach => "TechnicalApproach"@,
        FindingSection::AcceptanceCriteria => "AcceptanceCriteria"@,
        FindingSection::OpenDecisions => "OpenDecisions"@,
        FindingSection::General => "General"@,
    }
}

impl FindingSection {
    pub fn debug_name(self) -> (res: &'static str)
        ensures
            res@ == section_name(self),
    {
        match self {
            FindingSection::ProductBehavior => "ProductBehavior",
            FindingSection::TechnicalApproach => "TechnicalApproach",
            FindingSection::AcceptanceCriteria => "AcceptanceCriteria",
            FindingSection::OpenDecisions => "OpenDecisions",
            FindingSection::General => "General",
        }
    }
}

/// One finding of a spec review turn.
#[derive(Debug, Clone, PartialEq, Eq)]
pub struct ReviewFinding {
    pub severity: FindingSeverity,
    pub section: FindingSection,
    pub summary: String,
    pub recommendation: String,
}

impl ReviewFinding {
    /// A copy of the finding.
    pub fn duplicate(&self) -> (res: Self)
        ensures
            res == *self,
    {
        ReviewFinding {
            severity: self.severity,
            section: self.section,
            summary: self.summary.clone(),
            recommendation: self.recommendation.clone(),
        }
    }
}

/// The output of a spec review turn.
#[derive(Debug, Clone, PartialEq, Eq)]
pub struct ReviewFindings {
    pub schema_version: u32,
    pub verdict: ReviewVerdict,
    pub findings: Vec<ReviewFinding>,
}

/// The blocking findings of a sequence, in order.
pub open spec fn blocking_of(findings: Seq<ReviewFinding>) -> Seq<ReviewFinding> {
    findings.filter(|f: ReviewFinding| f.severity == FindingSeverity::Blocking)
}

impl ReviewFindings {
    /// The blocking findings, in the order they were given.
    pub fn blocking(&self) -> (res: Vec<ReviewFinding>)
        ensures
            res@ == blocking_of(self.findings@),
    {
        let mut out: Vec<ReviewFinding> = Vec::new();
        let mut i: usize = 0;
        while i < self.findings.len()
            invariant
                i <= self.findings@.len(),
                out@ == blocking_of(self.findings@.subrange(0, i as int)),
            decreases self.findings@.len() - i,
        {
            let f = &self.findings[i];
            proof {
                let pre = self.findings@.subrange(0, i as int);
                assert(self.findings@.subrange(0, i + 1) =~= pre.push(self.findings@[i as int]));
                assert(pre.push(self.findings@[i as int]).drop_last() =~= pre);
                reveal(Seq::filter);
            }
            if f.severity == FindingSeverity::Blocking {
                out.push(f.duplicate());
            }
            i = i + 1;
        }
        proof {
            assert(self.findings@.subrange(0, self.findings@.len() as int) =~= self.findings@);
        }
        out
    }

    /// The number of blocking findings.
    pub fn blocking_count(&self) -> (res: usize)
        ensures
            res == blocking_of(self.findings@).len(),
    {
        self.blocking().len()
    }
}

/// Prompt files of the three spec turn kinds, relative to the workflow.
#[derive(Debug, Clone, PartialEq, Eq)]
pub struct SpecPromptsConfig {
    pub draft: String,
    pub review: String,
    pub revise: String,
}

impl Default for SpecPromptsConfig {
    fn default() -> (res: Self)
        ensures
            res.draft@ == "prompts/spec-draft.md"@,
            res.review@ == "prompts/spec-review.md"@,
            res.revise@ == "prompts/spec-revise.md"@,
    {
        SpecPromptsConfig {
            draft: "prompts/spec-draft.md".to_owned(),
            review: "prompts/spec-review.md".to_owned(),
            revise: "prompts/spec-revise.md".to_owned(),
        }
    }
}

/// The labels a maintainer applies to decide on a published spec.
#[derive(Debug, Clone, PartialEq, Eq)]
pub struct SpecDecisionLabels {
    pub approved: String,
    pub revise: String,
}

impl Default for SpecDecisionLabels {
    fn default() -> (res: Self)
        ensures
            res.approved@ == "spec-approved"@,
            res.revise@ == "spec-revise"@,
    {
        SpecDecisionLabels { approved: "spec-approved".to_owned(), revise: "spec-revise".to_owned() }
    }
}

/// Where an approved spec routes its issue.
#[derive(Debug, Clone, PartialEq, Eq)]
pub struct SpecApprovalRoute {
    pub label: String,
    pub state: Option<String>,
}

impl Default for SpecApprovalRoute {
    fn default() -> (res: Self)
        ensures
            res.label@ == "ready-for-agent"@,
            res.state matches Some(s) && s@ == "Todo"@,
    {
        SpecApprovalRoute { label: "ready-for-agent".to_owned(), state: Some("Todo".to_owned()) }
    }
}

/// Configuration of the specification stage.
#[derive(Debug, Clone, PartialEq, Eq)]
pub struct SpecConfig {
    pub enabled: bool,
    pub intake_label: String,
    pub prompts: SpecPromptsConfig,
    pub model: Option<String>,
    pub review_model: Option<String>,
    pub turn_timeout_ms: u64,
    pub max_intake_pages: u32,
    pub max_review_cycles: u32,
    pub max_attempts: u32,
    pub max_revision_requests: u32,
    pub labels: SpecDecisionLabels,
    pub approval_route: SpecApprovalRoute,
}

impl Default for SpecConfig {
    fn default() -> (res: Self)
        ensures
            !res.enabled,
            res.intake_label@ == "ready-to-spec"@,
            res.prompts.draft@ == "prompts/spec-draft.md"@,
            res.prompts.review@ == "prompts/spec-review.md"@,
            res.prompts.revise@ == "prompts/spec-revise.md"@,
            res.model is None,
            res.review_model is None,
            res.turn_timeout_ms == 1_800_000,
            res.max_intake_pages == 100,
            res.max_review_cycles == 3,
            res.max_attempts == 3,
            res.max_revision_requests == 3,
            res.labels.approved@ == "spec-approved"@,
            res.labels.revise@ == "spec-revise"@,
            res.approval_route.label@ == "ready-for-agent"@,
            res.approval_route.state matches Some(s) && s@ == "Todo"@,
    {
        SpecConfig {
            enabled: false,
            intake_label: "ready-to-spec".to_owned(),
            prompts: SpecPromptsConfig::default(),
            model: None,
            review_model: None,
            turn_timeout_ms: 1_800_000,
            max_intake_pages: 100,
            max_review_cycles: 3,
            max_attempts: 3,
            max_revision_requests: 3,
            labels: SpecDecisionLabels::default(),
            approval_route: SpecApprovalRoute::default(),
        }
    }
}

impl SpecConfig {
    /// Every label the spec stage applies or removes itself.
    pub fn managed_labels(&self) -> (res: Vec<String>)
        ensures
            res@.len() == 4,
            res@[0] == self.intake_label,
            res@[1] == self.labels.approved,
            res@[2] == self.labels.revise,
            res@[3] == self.approval_route.label,
    {
        let mut v: Vec<String> = Vec::new();
        v.push(self.intake_label.clone());
        v.push(self.labels.approved.clone());
        v.push(self.labels.revise.clone());
        v.push(self.approval_route.label.clone());
        v
    }
}

#[derive(Debug, Clone, Copy, PartialEq, Eq, Structural)]
pub enum SpecTurnKind {
    Draft,
    Review,
    Revise,
}

impl SpecTurnKind {
    pub fn as_str(self) -> (res: &'static str)
        ensures
            res@ == (match self {
                SpecTurnKind::Draft => "draft"@,
                SpecTurnKind::Review => "review"@,
                SpecTurnKind::Revise => "revise"@,
            }),
    {
        match self {
            SpecTurnKind::Draft => "draft",
            SpecTurnKind::Review => "review",
            SpecTurnKind::Revise => "revise",
        }
    }
}

#[derive(Debug, Clone, Copy, PartialEq, Eq, Structural)]
pub enum SpecTurnStatus {
    Running,
    Completed,
    Failed,
}

impl SpecTurnStatus {
    pub fn as_str(self) -> (res: &'static str)
        ensures
            res@ == (match self {
                SpecTurnStatus::Running => "running"@,
                SpecTurnStatus::Completed => "completed"@,
                SpecTurnStatus::Failed => "failed"@,
            }),
    {
        match self {
            SpecTurnStatus::Running => "running",
            SpecTurnStatus::Completed => "completed",
            SpecTurnStatus::Failed => "failed",
        }
    }
}

#[derive(Debug, Clone, Copy, PartialEq, Eq, Structural)]
pub enum SpecPublicationKind {
    Preview,
    Approval,
    Diagnostic,
}

impl SpecPublicationKind {
    pub fn as_str(self) -> (res: &'static str)
        ensures
            res@ == (match self {
                SpecPublicationKind::Preview => "preview"@,
                SpecPublicationKind::Approval => "approval"@,
                SpecPublicationKind::Diagnostic => "diagnostic"@,
            }),
    {
        match self {
            SpecPublicationKind::Preview => "preview",
            SpecPublicationKind::Approval => "approval",
            SpecPublicationKind::Diagnostic => "diagnostic",
        }
    }
}

#[derive(Debug, Clone, Copy, PartialEq, Eq, Structural)]
pub enum SpecDecision {
    AwaitingDecision,
    RevisionRequested,
    PendingApproval,
    Approved,
    Blocked,
    Conflict,
}

impl SpecDecision {
    pub fn as_str(self) -> (res: &'static str)
        ensures
            res@ == (match self {
                SpecDecision::AwaitingDecision => "awaiting_decision"@,
                SpecDecision::RevisionRequested => "revision_requested"@,
                SpecDecision::PendingApproval => "pending_approval"@,
                SpecDecision::Approved => "approved"@,
                SpecDecision::Blocked => "blocked"@,
                SpecDecision::Conflict => "conflict"@,
            }),
    {
        match self {
            SpecDecision::AwaitingDecision => "awaiting_decision",
            SpecDecision::RevisionRequested => "revision_requested",
            SpecDecision::PendingApproval => "pending_approval",
            SpecDecision::Approved => "approved",
            SpecDecision::Blocked => "blocked",
            SpecDecision::Conflict => "conflict",
        }
    }
}

} // verus!
