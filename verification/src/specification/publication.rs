//! What reconciling a durable spec publication intent does on the forge:
//! which issue it targets, which owned comment it writes, which labels it
//! removes and adds, the project state it sets, and the step that completes
//! it. The effects come from the intent's recorded desired effects.

use vstd::prelude::*;

use crate::domain::SymphonyError;
use crate::json::{field_string, get_field, json_get, str_field, JsonValue};
use crate::orchestrator::events::opt_view;
use crate::specification::domain::{strings_view, SpecPublicationKind};

verus! {

/// The owned comment a publication writes.
#[derive(Debug, Clone, PartialEq, Eq)]
pub enum SpecPublicationComment {
    /// The spec, waiting for a human decision.
    AwaitingDecision,
    /// The spec with an action the human must take.
    Diagnostic(String),
    /// The notice that the issue is not on the project board.
    NotInProject { intake_label: String },
    /// The approved spec and where it was routed.
    Approved { route_label: String, project_state: Option<String> },
}

/// The forge effects of a publication, in the order they are applied:
/// labels removed, a label added, a project state set, the approval pinned,
/// the comment written, and the step recorded as complete.
#[derive(Debug, Clone, PartialEq, Eq)]
pub struct SpecPublicationPlan {
    pub issue_number: u64,
    pub remove_labels: Vec<String>,
    pub add_label: Option<String>,
    pub project_state: Option<String>,
    pub pin_approval: bool,
    pub comment: SpecPublicationComment,
    pub completion_step: String,
}

/// `Value::as_u64` of a field.
pub open spec fn u64_field(v: JsonValue, key: Seq<char>) -> Option<u64> {
    match json_get(v, key) {
        Some(JsonValue::Number { unsigned, .. }) => unsigned,
        _ => None,
    }
}

/// A string field, or a default when it is absent or not a string.
pub open spec fn str_field_or(v: JsonValue, key: Seq<char>, default: Seq<char>) -> Seq<char> {
    match str_field(v, key) {
        Some(s) => s,
        None => default,
    }
}

/// Whether a plan's comment is the given one, by text.
pub open spec fn comment_is(
    c: SpecPublicationComment,
    diagnostic: Option<Seq<char>>,
    not_in_project: Option<Seq<char>>,
    approved: Option<(Seq<char>, Option<Seq<char>>)>,
) -> bool {
    match c {
        SpecPublicationComment::AwaitingDecision => diagnostic is None && not_in_project is None
            && approved is None,
        SpecPublicationComment::Diagnostic(m) => diagnostic == Some(m@),
        SpecPublicationComment::NotInProject { intake_label } => not_in_project == Some(
            intake_label@,
        ),
        SpecPublicationComment::Approved { route_label, project_state } => approved == Some(
            (route_label@, opt_view(project_state)),
        ),
    }
}

/// What reconciling a spec publication intent does. Every intent needs an
/// `issue_number`. A preview writes the spec awaiting a decision and
/// removes the revise label when the intent names one. A diagnostic writes
/// its message over the spec, or, with no spec, the notice that the issue is
/// off the project board. An approval removes the intake, approved and
/// revise labels, adds its route label, sets its project state if it has
/// one, pins the approved spec and writes the approved spec. A preview or
/// approval without a spec, and an approval without a route label, are
/// errors. Absent labels default to `ready-to-spec`, `spec-approved` and
/// `spec-revise`, and an absent message to a generic instruction.
pub open spec fn publication_plan_ok(
    intent_id: Seq<char>,
    kind: SpecPublicationKind,
    has_artifact: bool,
    effects: JsonValue,
    res: Result<SpecPublicationPlan, SymphonyError>,
) -> bool {
    let intake = str_field_or(effects, "intake_label"@, "ready-to-spec"@);
    let approved = str_field_or(effects, "approved_label"@, "spec-approved"@);
    let revise = str_field_or(effects, "revise_label"@, "spec-revise"@);
    match u64_field(effects, "issue_number"@) {
        None => res matches Err(SymphonyError::StorageError(m)) && m@ == "spec intent "@ + intent_id
            + " is missing issue_number"@,
        Some(n) => match kind {
            SpecPublicationKind::Preview => if !has_artifact {
                res matches Err(SymphonyError::StorageError(m)) && m@ == "spec preview intent "@
                    + intent_id + " has no artifact"@
            } else {
                res matches Ok(p) && p.issue_number == n && strings_view(p.remove_labels@)
                    == match str_field(effects, "revise_label"@) {
                    Some(r) => seq![r],
                    None => Seq::<Seq<char>>::empty(),
                } && p.add_label is None && p.project_state is None && !p.pin_approval
                    && p.comment == SpecPublicationComment::AwaitingDecision
                    && p.completion_step@ == "spec_comment"@
            },
            SpecPublicationKind::Diagnostic => res matches Ok(p) && p.issue_number == n
                && p.remove_labels@.len() == 0 && p.add_label is None && p.project_state is None
                && !p.pin_approval && p.completion_step@ == "diagnostic_comment"@ && if has_artifact {
                comment_is(
                    p.comment,
                    Some(
                        str_field_or(
                            effects,
                            "message"@,
                            "Review the issue labels and feedback, then retry."@,
                        ),
                    ),
                    None,
                    None,
                )
            } else {
                comment_is(p.comment, None, Some(intake), None)
            },
            SpecPublicationKind::Approval => if !has_artifact {
                res matches Err(SymphonyError::StorageError(m)) && m@ == "spec approval intent "@
                    + intent_id + " has no artifact"@
            } else {
                match str_field(effects, "route_label"@) {
                    None => res matches Err(SymphonyError::StorageError(m)) && m@
                        == "spec approval intent is missing route_label"@,
                    Some(route) => res matches Ok(p) && p.issue_number == n && strings_view(
                        p.remove_labels@,
                    ) == seq![intake, approved, revise] && opt_view(p.add_label) == Some(route)
                        && opt_view(p.project_state) == str_field(effects, "project_state"@)
                        && p.pin_approval && comment_is(
                        p.comment,
                        None,
                        None,
                        Some((route, str_field(effects, "project_state"@))),
                    ) && p.completion_step@ == "comment_final"@,
                }
            },
        },
    }
}

fn u64_field_exec(v: &JsonValue, key: &str) -> (res: Option<u64>)
    ensures
        res == u64_field(*v, key@),
{
    match get_field(v, key) {
        Some(JsonValue::Number { unsigned, .. }) => *unsigned,
        _ => None,
    }
}

fn field_or(v: &JsonValue, key: &str, default: &str) -> (res: String)
    ensures
        res@ == str_field_or(*v, key@, default@),
{
    match field_string(v, key) {
        Some(s) => s,
        None => default.to_owned(),
    }
}

fn storage_error(a: &str, b: &str, c: &str) -> (res: SymphonyError)
    ensures
        res matches SymphonyError::StorageError(m) && m@ == a@ + b@ + c@,
{
    let mut m = a.to_owned();
    m.append(b);
    m.append(c);
    SymphonyError::StorageError(m)
}

/// The forge effects of reconciling a spec publication intent, from its
/// kind, whether its spec artifact was found, and its desired effects.
pub fn spec_publication_plan(
    intent_id: &str,
    kind: SpecPublicationKind,
    has_artifact: bool,
    desired_effects: &JsonValue,
) -> (res: Result<SpecPublicationPlan, SymphonyError>)
    ensures
        publication_plan_ok(intent_id@, kind, has_artifact, *desired_effects, res),
{
    let issue_number = match u64_field_exec(desired_effects, "issue_number") {
        Some(n) => n,
        None => {
            return Err(storage_error("spec intent ", intent_id, " is missing issue_number"));
        },
    };
    match kind {
        SpecPublicationKind::Preview => {
            if !has_artifact {
                return Err(storage_error("spec preview intent ", intent_id, " has no artifact"));
            }
            let mut remove_labels: Vec<String> = Vec::new();
            match field_string(desired_effects, "revise_label") {
                Some(r) => remove_labels.push(r),
                None => {},
            }
            proof {
                assert(strings_view(remove_labels@) =~= match str_field(
                    *desired_effects,
                    "revise_label"@,
                ) {
                    Some(r) => seq![r],
                    None => Seq::<Seq<char>>::empty(),
                });
            }
            Ok(
                SpecPublicationPlan {
                    issue_number,
                    remove_labels,
                    add_label: None,
                    project_state: None,
                    pin_approval: false,
                    comment: SpecPublicationComment::AwaitingDecision,
                    completion_step: "spec_comment".to_owned(),
                },
            )
        },
        SpecPublicationKind::Diagnostic => {
            let comment = if has_artifact {
                SpecPublicationComment::Diagnostic(
                    field_or(
                        desired_effects,
                        "message",
                        "Review the issue labels and feedback, then retry.",
                    ),
                )
            } else {
                SpecPublicationComment::NotInProject {
                    intake_label: field_or(desired_effects, "intake_label", "ready-to-spec"),
                }
            };
            let remove_labels: Vec<String> = Vec::new();
            Ok(
                SpecPublicationPlan {
                    issue_number,
                    remove_labels,
                    add_label: None,
                    project_state: None,
                    pin_approval: false,
                    comment,
                    completion_step: "diagnostic_comment".to_owned(),
                },
            )
        },
        SpecPublicationKind::Approval => {
            if !has_artifact {
                return Err(storage_error("spec approval intent ", intent_id, " has no artifact"));
            }
            let route = match field_string(desired_effects, "route_label") {
                Some(r) => r,
                None => {
                    return Err(
                        SymphonyError::StorageError(
                            "spec approval intent is missing route_label".to_owned(),
                        ),
                    );
                },
            };
            let mut remove_labels: Vec<String> = Vec::new();
            remove_labels.push(field_or(desired_effects, "intake_label", "ready-to-spec"));
            remove_labels.push(field_or(desired_effects, "approved_label", "spec-approved"));
            remove_labels.push(field_or(desired_effects, "revise_label", "spec-revise"));
            let project_state = field_string(desired_effects, "project_state");
            let ghost removed = remove_labels@;
            proof {
                assert(strings_view(removed) =~= seq![
                    str_field_or(*desired_effects, "intake_label"@, "ready-to-spec"@),
                    str_field_or(*desired_effects, "approved_label"@, "spec-approved"@),
                    str_field_or(*desired_effects, "revise_label"@, "spec-revise"@),
                ]);
            }
            Ok(
                SpecPublicationPlan {
                    issue_number,
                    remove_labels,
                    add_label: Some(route.clone()),
                    project_state: project_state.clone(),
                    pin_approval: true,
                    comment: SpecPublicationComment::Approved { route_label: route, project_state },
                    completion_step: "comment_final".to_owned(),
                },
            )
        },
    }
}

} // verus!
