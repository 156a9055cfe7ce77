//! The owned, versioned issue comment that publishes a spec.

use vstd::prelude::*;

use crate::specification::domain::{section_name, strings_view, ReviewFinding, SpecArtifact};
use crate::text::{append_decimal, decimal, trim, trim_seq};

verus! {

/// What the comment asks of the maintainer.
#[derive(Debug, Clone)]
pub enum SpecCommentState<'a> {
    Preview,
    AwaitingDecision,
    Diagnostic(&'a str),
    ApprovalPending,
    Approved { route_label: &'a str, project_state: Option<&'a str> },
}

/// The hidden marker that identifies a publication's comment.
pub open spec fn marker_text(intent_id: Seq<char>) -> Seq<char> {
    "<!-- symphony:spec:"@ + intent_id + " -->"@
}

/// The marker of the comment owned by publication intent `intent_id`.
pub fn marker(intent_id: &str) -> (res: String)
    ensures
        res@ == marker_text(intent_id@),
{
    let mut out = "<!-- symphony:spec:".to_owned();
    out.append(intent_id);
    out.append(" -->");
    out
}

/// One `- item` line per item, each item trimmed.
pub open spec fn bullet_lines(items: Seq<Seq<char>>) -> Seq<char>
    decreases items.len(),
{
    if items.len() == 0 {
        Seq::empty()
    } else {
        bullet_lines(items.drop_last()) + "- "@ + trim_seq(items.last()) + "\n"@
    }
}

/// One line per unresolved finding: section, summary and recommendation.
pub open spec fn finding_lines(findings: Seq<ReviewFinding>) -> Seq<char>
    decreases findings.len(),
{
    if findings.len() == 0 {
        Seq::empty()
    } else {
        finding_lines(findings.drop_last()) + "- **"@ + section_name(findings.last().section)
            + ":** "@ + trim_seq(findings.last().summary@) + " — "@ + trim_seq(
            findings.last().recommendation@,
        ) + "\n"@
    }
}

/// The open decisions section body.
pub open spec fn open_decisions_text(decisions: Seq<Seq<char>>) -> Seq<char> {
    if decisions.len() == 0 {
        "_None._\n"@
    } else {
        bullet_lines(decisions)
    }
}

/// The unresolved findings section, present only when there are some.
pub open spec fn unresolved_text(findings: Seq<ReviewFinding>) -> Seq<char> {
    if findings.len() == 0 {
        Seq::empty()
    } else {
        "\n### Unresolved blocking review findings\n\n"@ + finding_lines(findings)
    }
}

/// The closing call to action.
pub open spec fn state_text(state: SpecCommentState, version: nat) -> Seq<char> {
    match state {
        SpecCommentState::Preview => "**Preview:** Symphony does not act on decision labels yet. Review this specification and leave feedback.\n"@,
        SpecCommentState::AwaitingDecision => "Apply `spec-approved` to approve, or add a feedback comment and apply `spec-revise` to request changes.\n"@,
        SpecCommentState::Diagnostic(message) => "**Action required:** "@ + trim_seq(message@)
            + "\n"@,
        SpecCommentState::ApprovalPending => "**Approval pending:** version "@ + decimal(version)
            + " is being routed to implementation.\n"@,
        SpecCommentState::Approved { route_label, project_state } => "**Approved — implementation-ready:** version "@
            + decimal(version) + "; applied `"@ + route_label@ + "`"@ + match project_state {
            Some(s) => " and project state `"@ + s@ + "`"@,
            None => Seq::empty(),
        } + ".\n"@,
    }
}

/// The whole comment.
pub open spec fn spec_comment_text(
    intent_id: Seq<char>,
    run_id: Seq<char>,
    stage_run_id: Seq<char>,
    attempt: nat,
    version: nat,
    artifact: SpecArtifact,
    unresolved: Seq<ReviewFinding>,
    state: SpecCommentState,
) -> Seq<char> {
    marker_text(intent_id) + "\n## Symphony specification\n\n"@ + "**Version:** "@ + decimal(
        version,
    ) + " · **Factory run:** `"@ + run_id + "` · **Attempt:** "@ + decimal(attempt) + " (`"@
        + stage_run_id + "`)\n\n"@ + "### Product behavior\n\n"@ + trim_seq(
        artifact.product_behavior@,
    ) + "\n\n### Technical approach\n\n"@ + trim_seq(artifact.technical_approach@)
        + "\n\n### Acceptance criteria\n\n"@ + bullet_lines(
        strings_view(artifact.acceptance_criteria@),
    ) + "\n### Open decisions\n\n"@ + open_decisions_text(strings_view(artifact.open_decisions@))
        + unresolved_text(unresolved) + "\n---\n"@ + state_text(state, version)
}

fn append_bullets(out: &mut String, items: &Vec<String>)
    ensures
        final(out)@ == old(out)@ + bullet_lines(strings_view(items@)),
{
    let ghost start = out@;
    let mut i: usize = 0;
    while i < items.len()
        invariant
            i <= items@.len(),
            out@ == start + bullet_lines(strings_view(items@.subrange(0, i as int))),
        decreases items@.len() - i,
    {
        let ghost before = out@;
        out.append("- ");
        let t = trim(items[i].as_str());
        out.append(t.as_str());
        out.append("\n");
        proof {
            let sub = strings_view(items@.subrange(0, i + 1));
            assert(sub.drop_last() =~= strings_view(items@.subrange(0, i as int)));
            assert(sub.last() == items@[i as int]@);
            assert(out@ =~= start + bullet_lines(sub));
        }
        i = i + 1;
    }
    proof {
        assert(items@.subrange(0, items@.len() as int) =~= items@);
    }
}

fn append_findings(out: &mut String, findings: &Vec<ReviewFinding>)
    ensures
        final(out)@ == old(out)@ + finding_lines(findings@),
{
    let ghost start = out@;
    let mut i: usize = 0;
    while i < findings.len()
        invariant
            i <= findings@.len(),
            out@ == start + finding_lines(findings@.subrange(0, i as int)),
        decreases findings@.len() - i,
    {
        let f = &findings[i];
        out.append("- **");
        out.append(f.section.debug_name());
        out.append(":** ");
        let summary = trim(f.summary.as_str());
        out.append(summary.as_str());
        out.append(" — ");
        let recommendation = trim(f.recommendation.as_str());
        out.append(recommendation.as_str());
        out.append("\n");
        proof {
            let sub = findings@.subrange(0, i + 1);
            assert(sub.drop_last() =~= findings@.subrange(0, i as int));
            assert(sub.last() == findings@[i as int]);
            assert(out@ =~= start + finding_lines(sub));
        }
        i = i + 1;
    }
    proof {
        assert(findings@.subrange(0, findings@.len() as int) =~= findings@);
    }
}

fn append_state(out: &mut String, state: &SpecCommentState, version: u32)
    ensures
        final(out)@ == old(out)@ + state_text(*state, version as nat),
{
    let ghost start = out@;
    match state {
        SpecCommentState::Preview => out.append(
            "**Preview:** Symphony does not act on decision labels yet. Review this specification and leave feedback.\n",
        ),
        SpecCommentState::AwaitingDecision => out.append(
            "Apply `spec-approved` to approve, or add a feedback comment and apply `spec-revise` to request changes.\n",
        ),
        SpecCommentState::Diagnostic(message) => {
            out.append("**Action required:** ");
            let t = trim(message);
            out.append(t.as_str());
            out.append("\n");
            assert(out@ =~= start + state_text(*state, version as nat));
        },
        SpecCommentState::ApprovalPending => {
            out.append("**Approval pending:** version ");
            append_decimal(out, version as u64);
            out.append(" is being routed to implementation.\n");
            assert(out@ =~= start + state_text(*state, version as nat));
        },
        SpecCommentState::Approved { route_label, project_state } => {
            out.append("**Approved — implementation-ready:** version ");
            append_decimal(out, version as u64);
            out.append("; applied `");
            out.append(route_label);
            out.append("`");
            match project_state {
                Some(s) => {
                    out.append(" and project state `");
                    out.append(s);
                    out.append("`");
                },
                None => {},
            }
            out.append(".\n");
            assert(out@ =~= start + state_text(*state, version as nat));
        },
    }
}

/// Render the owned spec comment for publication intent `intent_id`.
pub fn render_spec_comment(
    intent_id: &str,
    run_id: &str,
    stage_run_id: &str,
    attempt: u32,
    version: u32,
    artifact: &SpecArtifact,
    unresolved: &Vec<ReviewFinding>,
    state: SpecCommentState,
) -> (res: String)
    ensures
        res@ == spec_comment_text(
            intent_id@,
            run_id@,
            stage_run_id@,
            attempt as nat,
            version as nat,
            *artifact,
            unresolved@,
            state,
        ),
{
    let mut out = marker(intent_id);
    out.append("\n## Symphony specification\n\n");
    out.append("**Version:** ");
    append_decimal(&mut out, version as u64);
    out.append(" · **Factory run:** `");
    out.append(run_id);
    out.append("` · **Attempt:** ");
    append_decimal(&mut out, attempt as u64);
    out.append(" (`");
    out.append(stage_run_id);
    out.append("`)\n\n");
    out.append("### Product behavior\n\n");
    let behavior = trim(artifact.product_behavior.as_str());
    out.append(behavior.as_str());
    out.append("\n\n### Technical approach\n\n");
    let approach = trim(artifact.technical_approach.as_str());
    out.append(approach.as_str());
    out.append("\n\n### Acceptance criteria\n\n");
    append_bullets(&mut out, &artifact.acceptance_criteria);
    out.append("\n### Open decisions\n\n");
    if artifact.open_decisions.len() == 0 {
        out.append("_None._\n");
    } else {
        append_bullets(&mut out, &artifact.open_decisions);
    }
    if unresolved.len() != 0 {
        let ghost before = out@;
        out.append("\n### Unresolved blocking review findings\n\n");
        append_findings(&mut out, unresolved);
        assert(out@ =~= before + unresolved_text(unresolved@));
    } else {
        assert(out@ =~= out@ + unresolved_text(unresolved@));
    }
    out.append("\n---\n");
    append_state(&mut out, &state, version);
    out
}

} // verus!

verus! {

/// The comment an issue outside the configured project gets: its marker,
/// the heading, and what to do about it.
pub open spec fn ineligible_body_text(intent_id: Seq<char>, intake_label: Seq<char>) -> Seq<char> {
    marker_text(intent_id)
        + "\n## Symphony specification\n\nThis issue is not a member of the configured GitHub Project. Add it to the project and leave `"@
        + intake_label + "` applied."@
}

pub fn ineligible_diagnostic_body(intent_id: &str, intake_label: &str) -> (res: String)
    ensures
        res@ == ineligible_body_text(intent_id@, intake_label@),
{
    let mut out = marker(intent_id);
    out.append(
        "\n## Symphony specification\n\nThis issue is not a member of the configured GitHub Project. Add it to the project and leave `",
    );
    out.append(intake_label);
    out.append("` applied.");
    out
}

/// A diagnostic is published once per condition: nothing is done again
/// while the run's diagnostic was applied with the same message.
pub open spec fn diagnostic_unchanged_spec(
    existing_applied: bool,
    existing_message: Option<Seq<char>>,
    message: Seq<char>,
) -> bool {
    existing_applied && existing_message == Some(message)
}

/// Whether a diagnostic needs no new publication; `existing_applied` and
/// `existing_message` describe the run's diagnostic intent, if it has one.
pub fn diagnostic_unchanged(existing_applied: bool, existing_message: Option<&str>, message: &str) -> (res:
    bool)
    ensures
        res == diagnostic_unchanged_spec(
            existing_applied,
            match existing_message {
                Some(m) => Some(m@),
                None => None,
            },
            message@,
        ),
{
    existing_applied && match existing_message {
        Some(m) => crate::text::str_eq(m, message),
        None => false,
    }
}

} // verus!
