//! The review worker: which harness, model and command a review turn runs
//! with, and the contract appended to its prompt.

use vstd::prelude::*;

use crate::domain::{
    clone_opt, clone_strings, AgentBackend, CodexConfig, ServiceConfig, StageUsage,
    SymphonyError, TriageHarness,
};
use crate::review::domain::ReviewConfig;
use crate::specification::domain::SpecArtifact;

verus! {

/// The issue a worker turn is about.
#[derive(Debug, Clone, PartialEq, Eq)]
pub struct TriageIssueIdentity {
    pub id: String,
    pub identifier: String,
    pub title: String,
}

/// Everything one isolated review turn needs. Paths are kept as text; the
/// implementation manifest is carried as its JSON text.
#[derive(Debug, Clone)]
pub struct ReviewWorkerRequest {
    pub attempt_id: String,
    pub workspace_root: String,
    pub repo_path: String,
    pub command: Vec<String>,
    pub prompt: String,
    pub config: ReviewConfig,
    pub model: Option<String>,
    pub harness: TriageHarness,
    pub issue: TriageIssueIdentity,
    pub codex: Option<CodexConfig>,
    pub diff: String,
    pub pull_request_body: String,
    pub approved_spec: SpecArtifact,
    pub implementation_manifest: String,
}

/// What a review turn produced: the raw output file and its token usage.
#[derive(Debug, Clone)]
pub struct ReviewWorkerResult {
    pub output_bytes: Vec<u8>,
    pub usage: StageUsage,
}

/// Runs one isolated review turn.
pub trait ReviewWorker {
    fn run(&self, request: &ReviewWorkerRequest) -> Result<ReviewWorkerResult, SymphonyError>;
}

/// The worker backed by the isolated Pi/Codex process profile; the child
/// environment carries no forge, tracker, SSH, helper or push credentials.
#[derive(Debug, Clone, Copy, Default)]
pub struct LiveReviewWorker;

/// The contract every review prompt ends with.
pub const REVIEW_WORKER_CONTRACT: &'static str = "A4 worker contract: read only the JSON context in the stage-input directory and the cloned repository. Use your file-write tool to write one strict JSON review findings manifest to the exact path in $SYMPHONY_STAGE_OUTPUT (do not merely print it in your reply). Do not modify the repository, invoke forge or tracker APIs, push, approve, merge, or emit prose outside the output file.";

/// The prompt a live review turn is given: the configured prompt, a blank
/// line, then the worker contract.
pub fn review_worker_prompt(prompt: &str) -> (res: String)
    ensures
        res@ == prompt@ + "\n\n"@ + REVIEW_WORKER_CONTRACT@,
{
    let mut out = prompt.to_owned();
    out.append("\n\n");
    out.append(REVIEW_WORKER_CONTRACT);
    out
}

/// The harness of a backend: Codex runs the Codex harness, the Kata CLI
/// runs Pi.
pub open spec fn harness_of(backend: AgentBackend) -> TriageHarness {
    match backend {
        AgentBackend::Codex => TriageHarness::Codex,
        AgentBackend::KataCli => TriageHarness::Pi,
    }
}

pub fn harness_for_service(service: &ServiceConfig) -> (res: TriageHarness)
    ensures
        res == harness_of(service.agent_backend),
{
    match service.agent_backend {
        AgentBackend::Codex => TriageHarness::Codex,
        AgentBackend::KataCli => TriageHarness::Pi,
    }
}

/// The review model: none under Codex; else the review stage's model,
/// falling back to the Pi agent's.
pub open spec fn review_model_spec(service: ServiceConfig) -> Option<String> {
    if service.agent_backend == AgentBackend::Codex {
        None
    } else if service.review.model is Some {
        service.review.model
    } else {
        service.pi_agent.model
    }
}

pub fn model_for_review(service: &ServiceConfig) -> (res: Option<String>)
    ensures
        res == review_model_spec(*service),
{
    if service.agent_backend == AgentBackend::Codex {
        None
    } else if service.review.model.is_some() {
        clone_opt(&service.review.model)
    } else {
        clone_opt(&service.pi_agent.model)
    }
}

/// The command of the configured backend.
pub open spec fn backend_command(service: ServiceConfig) -> Seq<String> {
    match service.agent_backend {
        AgentBackend::Codex => service.codex.command@,
        AgentBackend::KataCli => service.pi_agent.command@,
    }
}

pub const EMPTY_REVIEW_COMMAND: &'static str = "review worker command is empty";

/// The backend's command, or an error when it is empty.
pub fn command_for_review(service: &ServiceConfig) -> (res: Result<Vec<String>, SymphonyError>)
    ensures
        backend_command(*service).len() == 0 <==> res is Err,
        res matches Ok(c) ==> c@ == backend_command(*service),
        res matches Err(e) ==> (e matches SymphonyError::InvalidWorkflowConfig(m)
            && m@ == EMPTY_REVIEW_COMMAND@),
{
    let command = match service.agent_backend {
        AgentBackend::Codex => clone_strings(&service.codex.command),
        AgentBackend::KataCli => clone_strings(&service.pi_agent.command),
    };
    if command.len() == 0 {
        return Err(SymphonyError::InvalidWorkflowConfig(EMPTY_REVIEW_COMMAND.to_owned()));
    }
    Ok(command)
}

} // verus!
