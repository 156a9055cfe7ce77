//! The ordered human-decision table of a published spec.

use vstd::prelude::*;

use crate::specification::domain::SpecConfig;
use crate::text::{contains_seq, contains_str, eq_ignore_ascii_case, eq_ignore_case};

verus! {

/// An issue comment as the intake sees it; times are Unix milliseconds.
#[derive(Debug, Clone, PartialEq, Eq)]
pub struct IntakeComment {
    pub id: u64,
    pub author_login: String,
    pub body: String,
    pub created_at_ms: i64,
    pub updated_at_ms: i64,
}

impl IntakeComment {
    pub fn duplicate(&self) -> (res: Self)
        ensures
            res == *self,
    {
        IntakeComment {
            id: self.id,
            author_login: self.author_login.clone(),
            body: self.body.clone(),
            created_at_ms: self.created_at_ms,
            updated_at_ms: self.updated_at_ms,
        }
    }
}

/// The one branch of the decision table that applies.
#[derive(Debug, Clone, PartialEq, Eq)]
pub enum DecisionAction {
    NoDecision,
    Conflict,
    Revise { feedback: Vec<IntakeComment> },
    ReviseWithoutFeedback,
    Approve,
    StaleApproval,
    ColdRevision,
}

/// Everything the decision table reads.
pub struct DecisionInput<'a> {
    pub labels: &'a [String],
    pub comments: &'a [IntakeComment],
    pub publisher_login: &'a str,
    pub published_at_ms: i64,
    pub revision_is_current: bool,
    pub intake_revision_changed: bool,
    pub config: &'a SpecConfig,
}

/// The Symphony marker every Symphony-authored comment carries.
pub open spec fn symphony_marker() -> Seq<char> {
    "<!-- symphony:"@
}

/// A comment is Symphony's own only when it is authored by the publisher
/// and carries a Symphony marker: Symphony commonly runs with a
/// maintainer's own token, so the author alone says nothing.
pub open spec fn publisher_owned(comment: IntakeComment, publisher_login: Seq<char>) -> bool {
    eq_ignore_case(comment.author_login@, publisher_login) && contains_seq(
        comment.body@,
        symphony_marker(),
    )
}

pub fn is_publisher_owned(comment: &IntakeComment, publisher_login: &str) -> (res: bool)
    ensures
        res == publisher_owned(*comment, publisher_login@),
{
    eq_ignore_ascii_case(comment.author_login.as_str(), publisher_login) && contains_str(
        comment.body.as_str(),
        "<!-- symphony:",
    )
}

/// Some label equals `wanted`, ignoring ASCII case.
pub open spec fn has_label_spec(labels: Seq<String>, wanted: Seq<char>) -> bool {
    exists|i: int| 0 <= i < labels.len() && eq_ignore_case(#[trigger] labels[i]@, wanted)
}

pub fn has_label(labels: &[String], wanted: &str) -> (res: bool)
    ensures
        res == has_label_spec(labels@, wanted@),
{
    let mut i: usize = 0;
    while i < labels.len()
        invariant
            i <= labels@.len(),
            forall|j: int| 0 <= j < i ==> !eq_ignore_case(#[trigger] labels@[j]@, wanted@),
        decreases labels@.len() - i,
    {
        if eq_ignore_ascii_case(labels[i].as_str(), wanted) {
            return true;
        }
        i = i + 1;
    }
    false
}

/// Human feedback on a published spec: comments not owned by the publisher
/// that were created or edited after publication.
pub open spec fn is_feedback(c: IntakeComment, publisher_login: Seq<char>, published_at_ms: i64) -> bool {
    !publisher_owned(c, publisher_login) && (c.created_at_ms > published_at_ms || c.updated_at_ms
        > published_at_ms)
}

pub open spec fn feedback_of(
    comments: Seq<IntakeComment>,
    publisher_login: Seq<char>,
    published_at_ms: i64,
) -> Seq<IntakeComment> {
    comments.filter(|c: IntakeComment| is_feedback(c, publisher_login, published_at_ms))
}

/// The decision table, evaluated top to bottom.
pub open spec fn decision_spec(input: DecisionInput) -> DecisionAction {
    let approved = has_label_spec(input.labels@, input.config.labels.approved@);
    let revise = has_label_spec(input.labels@, input.config.labels.revise@);
    if approved && revise {
        DecisionAction::Conflict
    } else if revise {
        if feedback_of(input.comments@, input.publisher_login@, input.published_at_ms).len()
            == 0 {
            DecisionAction::ReviseWithoutFeedback
        } else {
            DecisionAction::Revise { feedback: arbitrary() }
        }
    } else if approved {
        if input.revision_is_current {
            DecisionAction::Approve
        } else {
            DecisionAction::StaleApproval
        }
    } else if input.intake_revision_changed && has_label_spec(
        input.labels@,
        input.config.intake_label@,
    ) {
        DecisionAction::ColdRevision
    } else {
        DecisionAction::NoDecision
    }
}

/// Two actions are the same branch of the table.
pub open spec fn same_branch(a: DecisionAction, b: DecisionAction) -> bool {
    match (a, b) {
        (DecisionAction::Revise { .. }, DecisionAction::Revise { .. }) => true,
        _ => a == b,
    }
}

/// Evaluate exactly one branch of the ordered human-decision table.
pub fn detect_decision(input: DecisionInput<'_>) -> (res: DecisionAction)
    ensures
        same_branch(res, decision_spec(input)),
        res matches DecisionAction::Revise { feedback } ==> feedback@ == feedback_of(
            input.comments@,
            input.publisher_login@,
            input.published_at_ms,
        ),
{
    let approved = has_label(input.labels, input.config.labels.approved.as_str());
    let revise = has_label(input.labels, input.config.labels.revise.as_str());
    if approved && revise {
        return DecisionAction::Conflict;
    }
    if revise {
        let mut feedback: Vec<IntakeComment> = Vec::new();
        let ghost cs = input.comments@;
        let ghost login = input.publisher_login@;
        let mut i: usize = 0;
        while i < input.comments.len()
            invariant
                cs == input.comments@,
                login == input.publisher_login@,
                i <= cs.len(),
                feedback@ == feedback_of(cs.subrange(0, i as int), login, input.published_at_ms),
            decreases cs.len() - i,
        {
            let c = &input.comments[i];
            proof {
                let pre = cs.subrange(0, i as int);
                assert(cs.subrange(0, i + 1) =~= pre.push(cs[i as int]));
                assert(pre.push(cs[i as int]).drop_last() =~= pre);
                reveal(Seq::filter);
            }
            if !is_publisher_owned(c, input.publisher_login) && (c.created_at_ms
                > input.published_at_ms || c.updated_at_ms > input.published_at_ms) {
                feedback.push(c.duplicate());
            }
            i = i + 1;
        }
        proof {
            assert(cs.subrange(0, cs.len() as int) =~= cs);
        }
        if feedback.len() == 0 {
            return DecisionAction::ReviseWithoutFeedback;
        } else {
            return DecisionAction::Revise { feedback };
        }
    }
    if approved {
        if input.revision_is_current {
            return DecisionAction::Approve;
        } else {
            return DecisionAction::StaleApproval;
        }
    }
    if input.intake_revision_changed && has_label(input.labels, input.config.intake_label.as_str()) {
        return DecisionAction::ColdRevision;
    }
    DecisionAction::NoDecision
}


/// The human decision on a published spec, read from the issue: both the
/// approved and the revise label are a conflict; the revise label alone
/// asks for a revision; the approved label alone approves the current
/// revision or is stale; with neither, a new spec attempt runs only when
/// the intake revision changed and the intake label is still there, and
/// otherwise there is nothing to do.
pub proof fn lemma_decision_table(input: DecisionInput, res: DecisionAction)
    requires
        same_branch(res, decision_spec(input)),
    ensures
        ({
            let approved = has_label_spec(input.labels@, input.config.labels.approved@);
            let revise = has_label_spec(input.labels@, input.config.labels.revise@);
            let intake = has_label_spec(input.labels@, input.config.intake_label@);
            &&& approved && revise ==> res == DecisionAction::Conflict
            &&& revise && !approved ==> (res is Revise || res is ReviseWithoutFeedback)
            &&& approved && !revise ==> res == (if input.revision_is_current {
                DecisionAction::Approve
            } else {
                DecisionAction::StaleApproval
            })
            &&& !approved && !revise && !input.intake_revision_changed ==> res
                == DecisionAction::NoDecision
            &&& !approved && !revise && !intake ==> res == DecisionAction::NoDecision
            &&& !approved && !revise && input.intake_revision_changed && intake ==> res
                == DecisionAction::ColdRevision
            &&& res == DecisionAction::ColdRevision ==> input.intake_revision_changed && intake
                && !approved && !revise
        }),
{
}


/// The feedback a revision request carries is exactly the comments, in
/// order, that are not Symphony's own and were written or edited after the
/// spec was published.
pub proof fn lemma_feedback_is_new_human_comments(
    comments: Seq<IntakeComment>,
    publisher_login: Seq<char>,
    published_at_ms: i64,
)
    ensures
        forall|k: int|
            0 <= k < feedback_of(comments, publisher_login, published_at_ms).len() ==> {
                let c = #[trigger] feedback_of(comments, publisher_login, published_at_ms)[k];
                &&& comments.contains(c)
                &&& !publisher_owned(c, publisher_login)
                &&& (c.created_at_ms > published_at_ms || c.updated_at_ms > published_at_ms)
            },
        forall|i: int|
            0 <= i < comments.len() && !publisher_owned(#[trigger] comments[i], publisher_login) && (
            comments[i].created_at_ms > published_at_ms || comments[i].updated_at_ms
                > published_at_ms) ==> feedback_of(comments, publisher_login, published_at_ms).contains(
                comments[i],
            ),
{
    let pred = |c: IntakeComment| is_feedback(c, publisher_login, published_at_ms);
    comments.filter_lemma(pred);
    assert forall|k: int|
        0 <= k < feedback_of(comments, publisher_login, published_at_ms).len() implies comments.contains(
        #[trigger] feedback_of(comments, publisher_login, published_at_ms)[k],
    ) by {
        let f = comments.filter(pred);
        assert(f.contains(f[k]));
        comments.lemma_filter_contains_rev(pred, f[k]);
    }
    assert forall|i: int|
        0 <= i < comments.len() && !publisher_owned(#[trigger] comments[i], publisher_login) && (
        comments[i].created_at_ms > published_at_ms || comments[i].updated_at_ms > published_at_ms)
        implies feedback_of(comments, publisher_login, published_at_ms).contains(comments[i]) by {
        comments.lemma_filter_contains(pred, i);
    }
}

} // verus!
