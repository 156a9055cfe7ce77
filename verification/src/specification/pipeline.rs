//! The draft → review → revise loop of one spec attempt, as a state machine.
//!
//! The agent turns themselves run elsewhere (each in a fresh, isolated
//! workspace). This module decides which turn runs next, with which inputs,
//! what a turn's output must look like, and when the attempt is finished.

use vstd::prelude::*;

use crate::domain::{usage_sum, usage_zero, StageUsage};
use crate::specification::artifact::{
    findings_violation, spec_parts_violation, spec_violation, validate_findings, validate_spec, SpecValidationError,
};
use crate::specification::domain::{
    blocking_of, strings_view, ReviewFinding, ReviewFindings, ReviewVerdict, SpecArtifact,
    SpecTurnKind, SPEC_LIST_ITEM_MAX_BYTES, SPEC_OPEN_DECISIONS_MAX_ITEMS,
};
use crate::text::{trim, trim_seq, truncate_utf8_bytes, truncate_utf8_spec};

verus! {

/// The prompts of the three turn kinds.
#[derive(Debug, Clone)]
pub struct SpecPipelinePrompts {
    pub draft: String,
    pub review: String,
    pub revise: String,
}

/// Configuration of one spec attempt.
#[derive(Debug, Clone)]
pub struct SpecPipelineConfig {
    pub max_review_cycles: u32,
    pub turn_timeout_ms: u64,
    pub harness: String,
    pub draft_model: Option<String>,
    pub review_model: Option<String>,
    pub prompts: SpecPipelinePrompts,
}

/// A human revision request seeds the attempt with the prior spec.
#[derive(Debug, Clone)]
pub struct SeededRevision {
    pub prior_version: u32,
    pub prior_spec: SpecArtifact,
    pub feedback: Vec<String>,
}

/// What a turn handed back.
#[derive(Debug, Clone)]
pub enum SpecTurnOutput {
    Spec(SpecArtifact),
    Findings(ReviewFindings),
}

/// The next turn to run: its ordinal, kind, prompt, model and the only
/// inputs its isolated workspace may see (besides the issue context).
#[derive(Debug, Clone)]
pub struct SpecTurnPlan {
    pub ordinal: u32,
    pub kind: SpecTurnKind,
    pub prompt: String,
    pub model: Option<String>,
    pub turn_timeout_ms: u64,
    pub current_spec: Option<SpecArtifact>,
    pub blocking_findings: Option<Vec<ReviewFinding>>,
    pub prior_version: Option<u32>,
    pub human_feedback: Option<Vec<String>>,
}

/// Why an attempt stopped without a spec.
#[derive(Debug, Clone, PartialEq, Eq)]
pub enum PipelineError {
    InvalidWorkflowConfig(String),
    TriageError(String),
}

/// The result of a finished attempt.
#[derive(Debug, Clone)]
pub struct SpecPipelineResult {
    pub artifact: SpecArtifact,
    pub review_cycles: u32,
    pub unresolved_blocking_findings: Vec<ReviewFinding>,
    pub usage: StageUsage,
}

/// An attempt in progress: exactly one turn is outstanding.
#[derive(Debug, Clone)]
pub struct SpecPipelineRun {
    pub config: SpecPipelineConfig,
    pub next_ordinal: u32,
    pub review_cycles: u32,
    pub current: Option<SpecArtifact>,
    pub usage: StageUsage,
    pub pending: SpecTurnKind,
}

/// What follows a turn.
#[derive(Debug, Clone)]
pub enum PipelineStep {
    Run(SpecTurnPlan),
    Finished(SpecPipelineResult),
    Failed(PipelineError),
}

/// The largest review-cycle cap whose turn ordinals still fit in a `u32`.
/// The shape of a run between turns: fewer review cycles than the cap, and
/// ordinals that count the turns run so far.
pub open spec fn run_wf(r: SpecPipelineRun) -> bool {
    &&& 1 <= r.config.max_review_cycles
    &&& r.review_cycles < r.config.max_review_cycles
    &&& r.config.turn_timeout_ms > 0
    &&& (r.pending == SpecTurnKind::Review ==> r.current is Some && r.next_ordinal == 2
        * r.review_cycles + 3)
    &&& (r.pending != SpecTurnKind::Review ==> r.next_ordinal == 2 * r.review_cycles + 2)
}

/// What validating the spec finds once the review cap records the
/// unresolved blocking findings among its open decisions.
pub open spec fn capped_violation(current: SpecArtifact, blocking: Seq<ReviewFinding>) -> Option<
    (Seq<char>, Seq<char>),
> {
    spec_parts_violation(
        current.schema_version,
        current.product_behavior@,
        current.technical_approach@,
        strings_view(current.acceptance_criteria@),
        with_unresolved(strings_view(current.open_decisions@), blocking),
    )
}

/// Two artifacts with the same content.
pub open spec fn same_artifact(a: SpecArtifact, b: SpecArtifact) -> bool {
    &&& a.schema_version == b.schema_version
    &&& a.product_behavior == b.product_behavior
    &&& a.technical_approach == b.technical_approach
    &&& a.acceptance_criteria@ == b.acceptance_criteria@
    &&& a.open_decisions@ == b.open_decisions@
}

/// The plan of a review turn: the current spec and nothing else.
pub open spec fn is_review_plan(p: SpecTurnPlan, config: SpecPipelineConfig, ordinal: u32, current: SpecArtifact) -> bool {
    &&& p.ordinal == ordinal
    &&& p.kind == SpecTurnKind::Review
    &&& p.prompt == config.prompts.review
    &&& p.model == config.review_model
    &&& p.turn_timeout_ms == config.turn_timeout_ms
    &&& p.current_spec matches Some(c) && same_artifact(c, current)
    &&& p.blocking_findings is None
    &&& p.prior_version is None
    &&& p.human_feedback is None
}

/// The plan of a revise turn answering review findings.
pub open spec fn is_revise_plan(
    p: SpecTurnPlan,
    config: SpecPipelineConfig,
    ordinal: u32,
    current: SpecArtifact,
    blocking: Seq<ReviewFinding>,
) -> bool {
    &&& p.ordinal == ordinal
    &&& p.kind == SpecTurnKind::Revise
    &&& p.prompt == config.prompts.revise
    &&& p.model == config.draft_model
    &&& p.turn_timeout_ms == config.turn_timeout_ms
    &&& p.current_spec matches Some(c) && same_artifact(c, current)
    &&& p.blocking_findings matches Some(b) && b@ == blocking
    &&& p.prior_version is None
    &&& p.human_feedback is None
}

/// The rendered form of a validation error.
pub open spec fn violation_text(v: (Seq<char>, Seq<char>)) -> Seq<char> {
    v.0 + ": "@ + v.1
}

/// The error text of a rejected turn or cap post-processing.
pub open spec fn error_text(e: PipelineError) -> Seq<char> {
    match e {
        PipelineError::InvalidWorkflowConfig(m) => m@,
        PipelineError::TriageError(m) => m@,
    }
}

pub open spec fn kind_text(kind: SpecTurnKind) -> Seq<char> {
    match kind {
        SpecTurnKind::Draft => "draft"@,
        SpecTurnKind::Review => "review"@,
        SpecTurnKind::Revise => "revise"@,
    }
}

/// The open-decision line recording one unresolved finding.
pub open spec fn unresolved_line(f: ReviewFinding) -> Seq<char> {
    truncate_utf8_spec(
        "Unresolved review finding: "@ + trim_seq(f.summary@) + " — "@ + trim_seq(
            f.recommendation@,
        ),
        SPEC_LIST_ITEM_MAX_BYTES as nat,
    )
}

/// The open decisions after recording `blocking`, up to the list's cap.
pub open spec fn with_unresolved(decisions: Seq<Seq<char>>, blocking: Seq<ReviewFinding>) -> Seq<
    Seq<char>,
>
    decreases blocking.len(),
{
    if blocking.len() == 0 || decisions.len() >= SPEC_OPEN_DECISIONS_MAX_ITEMS {
        decisions
    } else {
        with_unresolved(decisions.push(unresolved_line(blocking[0])), blocking.drop_first())
    }
}

/// Record unresolved blocking findings as open decisions once the review
/// cap is reached, never growing the list past its maximum.
pub fn append_unresolved_to_open_decisions(artifact: &mut SpecArtifact, blocking: &Vec<ReviewFinding>)
    ensures
        strings_view(final(artifact).open_decisions@) == with_unresolved(
            strings_view(old(artifact).open_decisions@),
            blocking@,
        ),
        final(artifact).schema_version == old(artifact).schema_version,
        final(artifact).product_behavior == old(artifact).product_behavior,
        final(artifact).technical_approach == old(artifact).technical_approach,
        final(artifact).acceptance_criteria == old(artifact).acceptance_criteria,
{
    assert(blocking@.subrange(0, blocking@.len() as int) =~= blocking@);
    let mut i: usize = 0;
    while i < blocking.len()
        invariant
            i <= blocking@.len(),
            with_unresolved(strings_view(artifact.open_decisions@), blocking@.subrange(i as int, blocking@.len() as int))
                == with_unresolved(strings_view(old(artifact).open_decisions@), blocking@),
            artifact.schema_version == old(artifact).schema_version,
            artifact.product_behavior == old(artifact).product_behavior,
            artifact.technical_approach == old(artifact).technical_approach,
            artifact.acceptance_criteria == old(artifact).acceptance_criteria,
        decreases blocking@.len() - i,
    {
        let ghost rest = blocking@.subrange(i as int, blocking@.len() as int);
        if artifact.open_decisions.len() >= SPEC_OPEN_DECISIONS_MAX_ITEMS {
            proof {
                assert(with_unresolved(strings_view(artifact.open_decisions@), rest) == strings_view(artifact.open_decisions@));
            }
            return;
        }
        let f = &blocking[i];
        let mut line = "Unresolved review finding: ".to_owned();
        let summary = trim(f.summary.as_str());
        line.append(summary.as_str());
        line.append(" — ");
        let recommendation = trim(f.recommendation.as_str());
        line.append(recommendation.as_str());
        let item = truncate_utf8_bytes(line.as_str(), SPEC_LIST_ITEM_MAX_BYTES);
        let ghost before = strings_view(artifact.open_decisions@);
        artifact.open_decisions.push(item);
        proof {
            assert(rest[0] == blocking@[i as int]);
            assert(strings_view(artifact.open_decisions@) =~= before.push(unresolved_line(rest[0])));
            assert(rest.drop_first() =~= blocking@.subrange(i + 1, blocking@.len() as int));
        }
        i = i + 1;
    }
    proof {
        assert(blocking@.subrange(i as int, blocking@.len() as int) =~= Seq::<ReviewFinding>::empty());
    }
}

/// The review cap makes its own check of the post-processed spec.
pub open spec fn capped_artifact(a: SpecArtifact, blocking: Seq<ReviewFinding>) -> bool {
    true
}

fn copy_strings(v: &Vec<String>) -> (res: Vec<String>)
    ensures
        res@ == v@,
{
    let mut out: Vec<String> = Vec::new();
    let mut i: usize = 0;
    while i < v.len()
        invariant
            i <= v@.len(),
            out@ == v@.subrange(0, i as int),
        decreases v@.len() - i,
    {
        out.push(v[i].clone());
        proof {
            assert(v@.subrange(0, i + 1) =~= v@.subrange(0, i as int).push(v@[i as int]));
        }
        i = i + 1;
    }
    proof {
        assert(v@.subrange(0, v@.len() as int) =~= v@);
    }
    out
}

/// A copy of a spec artifact.
pub fn copy_artifact(a: &SpecArtifact) -> (res: SpecArtifact)
    ensures
        res.schema_version == a.schema_version,
        res.product_behavior == a.product_behavior,
        res.technical_approach == a.technical_approach,
        res.acceptance_criteria@ == a.acceptance_criteria@,
        res.open_decisions@ == a.open_decisions@,
{
    SpecArtifact {
        schema_version: a.schema_version,
        product_behavior: a.product_behavior.clone(),
        technical_approach: a.technical_approach.clone(),
        acceptance_criteria: copy_strings(&a.acceptance_criteria),
        open_decisions: copy_strings(&a.open_decisions),
    }
}

/// Begin an attempt: check the configuration and plan the first turn, a
/// draft, or a revise turn when a human revision request seeds it.
pub fn start_pipeline(config: SpecPipelineConfig, seed: Option<SeededRevision>) -> (res: Result<
    (SpecPipelineRun, SpecTurnPlan),
    PipelineError,
>)
    ensures
        config.max_review_cycles == 0 ==> (res matches Err(PipelineError::InvalidWorkflowConfig(m))
            && m@ == "spec.max_review_cycles must be greater than 0"@),
        config.max_review_cycles > 0 && config.turn_timeout_ms == 0 ==> (res matches Err(
            PipelineError::InvalidWorkflowConfig(m),
        ) && m@ == "spec.turn_timeout_ms must be greater than 0"@),
        config.max_review_cycles > 0 && config.turn_timeout_ms > 0 ==> (res matches Ok((run, plan))
            && run_wf(run) && run.config == config && run.review_cycles == 0 && run.current is None
            && run.usage == usage_zero() && plan.ordinal == 1 && plan.turn_timeout_ms
            == config.turn_timeout_ms && plan.model == config.draft_model
            && plan.blocking_findings is None && run.pending == plan.kind && match seed {
            Some(s) => plan.kind == SpecTurnKind::Revise && plan.prompt == config.prompts.revise
                && plan.current_spec == Some(s.prior_spec) && plan.prior_version == Some(
                s.prior_version,
            ) && plan.human_feedback == Some(s.feedback),
            None => plan.kind == SpecTurnKind::Draft && plan.prompt == config.prompts.draft
                && plan.current_spec is None && plan.prior_version is None
                && plan.human_feedback is None,
        }),
{
    if config.max_review_cycles == 0 {
        return Err(
            PipelineError::InvalidWorkflowConfig(
                "spec.max_review_cycles must be greater than 0".to_owned(),
            ),
        );
    }
    if config.turn_timeout_ms == 0 {
        return Err(
            PipelineError::InvalidWorkflowConfig(
                "spec.turn_timeout_ms must be greater than 0".to_owned(),
            ),
        );
    }
    let plan = match seed {
        Some(s) => SpecTurnPlan {
            ordinal: 1,
            kind: SpecTurnKind::Revise,
            prompt: config.prompts.revise.clone(),
            model: config.draft_model.clone(),
            turn_timeout_ms: config.turn_timeout_ms,
            current_spec: Some(s.prior_spec),
            blocking_findings: None,
            prior_version: Some(s.prior_version),
            human_feedback: Some(s.feedback),
        },
        None => SpecTurnPlan {
            ordinal: 1,
            kind: SpecTurnKind::Draft,
            prompt: config.prompts.draft.clone(),
            model: config.draft_model.clone(),
            turn_timeout_ms: config.turn_timeout_ms,
            current_spec: None,
            blocking_findings: None,
            prior_version: None,
            human_feedback: None,
        },
    };
    let run = SpecPipelineRun {
        pending: plan.kind,
        config,
        next_ordinal: 2,
        review_cycles: 0,
        current: None,
        usage: StageUsage::zero(),
    };
    Ok((run, plan))
}

fn triage_error(prefix: &str, middle: &str, suffix: &str) -> (res: PipelineError)
    ensures
        res matches PipelineError::TriageError(m) && m@ == prefix@ + middle@ + suffix@,
{
    let mut m = prefix.to_owned();
    m.append(middle);
    m.append(suffix);
    PipelineError::TriageError(m)
}

fn invalid_output_error(prefix: &str, e: &SpecValidationError) -> (res: PipelineError)
    ensures
        res matches PipelineError::TriageError(m) && m@ == prefix@ + violation_text(
            (e.field@, e.message@),
        ),
{
    let mut m = prefix.to_owned();
    let shown = e.to_display_string();
    m.append(shown.as_str());
    assert(m@ =~= prefix@ + violation_text((e.field@, e.message@)));
    PipelineError::TriageError(m)
}

/// Accept the outcome of the outstanding turn and decide what follows.
///
/// A spec turn must yield a valid spec; it is then reviewed. A review turn
/// must yield valid findings and completes one review cycle: a pass ends
/// the attempt, the cap ends it with the blocking findings recorded as open
/// decisions, anything else plans a revise turn answering them.
pub fn advance_pipeline(run: &mut SpecPipelineRun, output: SpecTurnOutput, usage: StageUsage) -> (res: PipelineStep)
    requires
        run_wf(*old(run)),
        old(run).next_ordinal < u32::MAX,
    ensures
        final(run).config == old(run).config,
        res is Run ==> run_wf(*final(run)),
        old(run).pending != SpecTurnKind::Review ==> match output {
            SpecTurnOutput::Findings(_) => res matches PipelineStep::Failed(e) && error_text(e)
                == "spec "@ + kind_text(old(run).pending) + " turn produced findings instead of a spec artifact"@,
            SpecTurnOutput::Spec(a) => match spec_violation(a) {
                Some(v) => res matches PipelineStep::Failed(e) && error_text(e) == "spec "@
                    + kind_text(old(run).pending) + " turn produced invalid output: "@
                    + violation_text(v),
                None => res matches PipelineStep::Run(plan) && is_review_plan(
                    plan,
                    old(run).config,
                    old(run).next_ordinal,
                    a,
                ) && (final(run).current matches Some(c) && same_artifact(c, a)) && final(run).pending == SpecTurnKind::Review
                    && final(run).review_cycles == old(run).review_cycles && final(run).usage
                    == usage_sum(old(run).usage, usage),
            },
        },
        old(run).pending == SpecTurnKind::Review ==> match output {
            SpecTurnOutput::Spec(_) => res matches PipelineStep::Failed(e) && error_text(e)
                == "spec review turn produced a spec instead of findings"@,
            SpecTurnOutput::Findings(f) => match findings_violation(f) {
                Some(v) => res matches PipelineStep::Failed(e) && error_text(e)
                    == "spec review turn produced invalid output: "@ + violation_text(v),
                None => {
                    let cycles = old(run).review_cycles + 1;
                    let total = usage_sum(old(run).usage, usage);
                    let current = old(run).current.unwrap();
                    let blocking = blocking_of(f.findings@);
                    if f.verdict == ReviewVerdict::Pass {
                        res matches PipelineStep::Finished(out) && out.artifact == current
                            && out.review_cycles == cycles && out.unresolved_blocking_findings@.len() == 0
                            && out.usage == total
                    } else if cycles >= old(run).config.max_review_cycles {
                        match capped_violation(current, blocking) {
                            Some(v) => res matches PipelineStep::Failed(e) && error_text(e)
                                == "spec cap post-processing validation failed: "@ + violation_text(v),
                            None => res matches PipelineStep::Finished(out) && out.review_cycles
                                == cycles && out.unresolved_blocking_findings@ == blocking
                                && out.usage == total && out.artifact.schema_version
                                == current.schema_version && out.artifact.product_behavior
                                == current.product_behavior && out.artifact.technical_approach
                                == current.technical_approach && out.artifact.acceptance_criteria@
                                == current.acceptance_criteria@ && strings_view(
                                out.artifact.open_decisions@,
                            ) == with_unresolved(strings_view(current.open_decisions@), blocking)
                                && spec_violation(out.artifact) is None,
                        }
                    } else {
                        res matches PipelineStep::Run(plan) && is_revise_plan(
                            plan,
                            old(run).config,
                            old(run).next_ordinal,
                            current,
                            blocking,
                        ) && (final(run).current matches Some(c) && same_artifact(c, current)) && final(run).pending
                            == SpecTurnKind::Revise && final(run).review_cycles == cycles
                            && final(run).usage == total
                    }
                },
            },
        },
{
    match run.pending {
        SpecTurnKind::Review => {
            let findings = match output {
                SpecTurnOutput::Spec(_) => {
                    return PipelineStep::Failed(
                        PipelineError::TriageError(
                            "spec review turn produced a spec instead of findings".to_owned(),
                        ),
                    );
                },
                SpecTurnOutput::Findings(f) => f,
            };
            match validate_findings(&findings) {
                Err(e) => {
                    return PipelineStep::Failed(
                        invalid_output_error("spec review turn produced invalid output: ", &e),
                    );
                },
                Ok(()) => {},
            }
            let cycles: u32 = run.review_cycles + 1;
            let total = run.usage.plus(usage);
            let current = run.current.take().unwrap();
            let blocking = findings.blocking();
            if findings.verdict == ReviewVerdict::Pass {
                return PipelineStep::Finished(
                    SpecPipelineResult {
                        artifact: current,
                        review_cycles: cycles,
                        unresolved_blocking_findings: Vec::new(),
                        usage: total,
                    },
                );
            }
            if cycles >= run.config.max_review_cycles {
                let mut capped = current;
                append_unresolved_to_open_decisions(&mut capped, &blocking);
                match validate_spec(&capped) {
                    Err(e) => {
                        return PipelineStep::Failed(
                            invalid_output_error("spec cap post-processing validation failed: ", &e),
                        );
                    },
                    Ok(()) => {},
                }
                proof {
                    assert(capped.open_decisions@ == capped.open_decisions@);
                }
                return PipelineStep::Finished(
                    SpecPipelineResult {
                        artifact: capped,
                        review_cycles: cycles,
                        unresolved_blocking_findings: blocking,
                        usage: total,
                    },
                );
            }
            let kept = copy_artifact(&current);
            let plan = SpecTurnPlan {
                ordinal: run.next_ordinal,
                kind: SpecTurnKind::Revise,
                prompt: run.config.prompts.revise.clone(),
                model: run.config.draft_model.clone(),
                turn_timeout_ms: run.config.turn_timeout_ms,
                current_spec: Some(current),
                blocking_findings: Some(blocking),
                prior_version: None,
                human_feedback: None,
            };
            run.current = Some(kept);
            run.next_ordinal = run.next_ordinal + 1;
            run.review_cycles = cycles;
            run.usage = total;
            run.pending = SpecTurnKind::Revise;
            PipelineStep::Run(plan)
        },
        kind => {
            let artifact = match output {
                SpecTurnOutput::Findings(_) => {
                    return PipelineStep::Failed(
                        triage_error(
                            "spec ",
                            kind.as_str(),
                            " turn produced findings instead of a spec artifact",
                        ),
                    );
                },
                SpecTurnOutput::Spec(a) => a,
            };
            match validate_spec(&artifact) {
                Err(e) => {
                    let mut prefix = "spec ".to_owned();
                    prefix.append(kind.as_str());
                    prefix.append(" turn produced invalid output: ");
                    return PipelineStep::Failed(invalid_output_error(prefix.as_str(), &e));
                },
                Ok(()) => {},
            }
            let kept = copy_artifact(&artifact);
            let plan = SpecTurnPlan {
                ordinal: run.next_ordinal,
                kind: SpecTurnKind::Review,
                prompt: run.config.prompts.review.clone(),
                model: run.config.review_model.clone(),
                turn_timeout_ms: run.config.turn_timeout_ms,
                current_spec: Some(artifact),
                blocking_findings: None,
                prior_version: None,
                human_feedback: None,
            };
            run.current = Some(kept);
            run.next_ordinal = run.next_ordinal + 1;
            run.usage = run.usage.plus(usage);
            run.pending = SpecTurnKind::Review;
            PipelineStep::Run(plan)
        },
    }
}

/// Trim a model name, dropping it when nothing is left.
pub open spec fn non_empty_spec(value: Seq<char>) -> Option<Seq<char>> {
    if trim_seq(value).len() == 0 {
        None
    } else {
        Some(trim_seq(value))
    }
}

pub open spec fn opt_str_view(o: Option<&str>) -> Option<Seq<char>> {
    match o {
        Some(s) => Some(s@),
        None => None,
    }
}

pub open spec fn opt_string_view(o: Option<String>) -> Option<Seq<char>> {
    match o {
        Some(s) => Some(s@),
        None => None,
    }
}

/// The first present, non-blank model name.
pub open spec fn first_model(a: Option<Seq<char>>, b: Option<Seq<char>>) -> Option<Seq<char>> {
    match a {
        Some(v) if non_empty_spec(v) is Some => non_empty_spec(v),
        _ => match b {
            Some(v) => non_empty_spec(v),
            None => None,
        },
    }
}

pub fn non_empty(value: &str) -> (res: Option<String>)
    ensures
        opt_string_view(res) == non_empty_spec(value@),
{
    let t = trim(value);
    if t.as_str().is_empty() {
        None
    } else {
        Some(t)
    }
}

/// Model precedence of the drafting/revision turns and of review turns:
/// drafting uses `spec_model`, else the agent's model; review uses
/// `review_model`, else the drafting model.
pub fn resolve_models(spec_model: Option<&str>, review_model: Option<&str>, agent_model: Option<&str>) -> (res: (
    Option<String>,
    Option<String>,
))
    ensures
        opt_string_view(res.0) == first_model(opt_str_view(spec_model), opt_str_view(agent_model)),
        opt_string_view(res.1) == match first_model(opt_str_view(review_model), None) {
            Some(m) => Some(m),
            None => first_model(opt_str_view(spec_model), opt_str_view(agent_model)),
        },
{
    let from_spec = match spec_model {
        Some(m) => non_empty(m),
        None => None,
    };
    let draft = match from_spec {
        Some(m) => Some(m),
        None => match agent_model {
            Some(m) => non_empty(m),
            None => None,
        },
    };
    let from_review = match review_model {
        Some(m) => non_empty(m),
        None => None,
    };
    let review = match from_review {
        Some(m) => Some(m),
        None => match &draft {
            Some(d) => Some(d.clone()),
            None => None,
        },
    };
    (draft, review)
}

} // verus!
