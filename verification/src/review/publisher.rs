//! Idempotent, marker-owned publication of review findings: the marker, the
//! ownership rules for existing comments and reviews, the inline comments of
//! a formal review, and the checks that keep a publication on its revision.

use vstd::prelude::*;

use crate::domain::{new_v7_uuid_string, PublicationStatus, SymphonyError};
use crate::github::{
    author_login, author_of, GithubIssueComment, GithubPullRequestReview,
    GithubPullRequestReviewComment,
};
use crate::review::domain::{
    ReviewFindingRecord, ReviewFindingsArtifactRecord, ReviewPublicationIntent,
    REVIEW_COMMENT_MARKER_PREFIX, REVIEW_COMMENT_MARKER_SUFFIX,
};
use crate::review::manifest::{category_name, severity_name, ReviewFinding};
use crate::text::{
    contains_seq, contains_str, eq_ignore_ascii_case, eq_ignore_case, starts_with_seq, str_eq,
    u64_to_string,
};

verus! {

pub const REVIEW_PREVIEW_COMMENT_STEP: &'static str = "review_preview_comment";

pub const REVIEW_PUBLICATION_LEASE_SECONDS: i64 = 900;

pub const REVIEW_CREATED_STEP: &'static str = "review_created";

pub const FINDINGS_RECORDED_STEP: &'static str = "findings_recorded";

/// The forge operations an atomic pull-request review needs.
pub trait ReviewPort {
    fn authenticated_login(&self) -> Result<String, SymphonyError>;

    fn list_pull_request_reviews(&self, number: u64, max_pages: u32) -> Result<
        Vec<GithubPullRequestReview>,
        SymphonyError,
    >;

    fn pull_request_head_sha(&self, number: u64) -> Result<String, SymphonyError>;

    fn create_pull_request_review(
        &self,
        number: u64,
        commit_id: &str,
        body: &str,
        comments: &Vec<GithubPullRequestReviewComment>,
    ) -> Result<GithubPullRequestReview, SymphonyError>;
}

/// Publishes findings through a comment port under one owner identity.
#[derive(Clone)]
pub struct ReviewPublisher<C> {
    pub comments: C,
    pub owner_instance: String,
}

pub const REVIEW_PUBLISHER_OWNER_PREFIX: &'static str = "review-publisher-";

impl<C> ReviewPublisher<C> {
    /// A publisher with a fresh owner identity, `review-publisher-` and a
    /// time-ordered UUID.
    pub fn new(comments: C) -> (res: Self)
        ensures
            res.comments == comments,
            starts_with_seq(res.owner_instance@, REVIEW_PUBLISHER_OWNER_PREFIX@),
            res.owner_instance@.len() == REVIEW_PUBLISHER_OWNER_PREFIX@.len() + 36,
    {
        let mut owner = REVIEW_PUBLISHER_OWNER_PREFIX.to_owned();
        let id = new_v7_uuid_string();
        owner.append(id.as_str());
        proof {
            assert(owner@.subrange(0, REVIEW_PUBLISHER_OWNER_PREFIX@.len() as int)
                =~= REVIEW_PUBLISHER_OWNER_PREFIX@);
        }
        Self::with_owner(comments, owner)
    }

    pub fn with_owner(comments: C, owner_instance: String) -> (res: Self)
        ensures
            res.comments == comments,
            res.owner_instance == owner_instance,
    {
        ReviewPublisher { comments, owner_instance }
    }
}

/// The hidden marker that identifies an intent's comment or review.
pub open spec fn marker_spec(intent_id: Seq<char>) -> Seq<char> {
    REVIEW_COMMENT_MARKER_PREFIX@ + intent_id + REVIEW_COMMENT_MARKER_SUFFIX@
}

pub fn review_comment_marker(intent_id: &str) -> (res: String)
    ensures
        res@ == marker_spec(intent_id@),
{
    let mut m = REVIEW_COMMENT_MARKER_PREFIX.to_owned();
    m.append(intent_id);
    m.append(REVIEW_COMMENT_MARKER_SUFFIX);
    m
}

/// Whether a step is among the completed ones.
pub fn has_step(steps: &Vec<String>, step: &str) -> (res: bool)
    ensures
        res == exists|i: int| 0 <= i < steps@.len() && #[trigger] steps@[i]@ == step@,
{
    let mut i: usize = 0;
    while i < steps.len()
        invariant
            i <= steps@.len(),
            forall|j: int| 0 <= j < i ==> #[trigger] steps@[j]@ != step@,
        decreases steps@.len() - i,
    {
        if str_eq(steps[i].as_str(), step) {
            return true;
        }
        i = i + 1;
    }
    false
}

/// Only preview intents are published as a preview comment.
pub fn check_preview_kind(kind: &str) -> (res: Result<(), SymphonyError>)
    ensures
        res is Ok <==> kind@ == "preview"@,
        res matches Err(e) ==> (e matches SymphonyError::TriageError(m) && m@
            == "review preview publisher cannot reconcile kind="@ + kind@),
{
    if str_eq(kind, "preview") {
        Ok(())
    } else {
        let mut m = "review preview publisher cannot reconcile kind=".to_owned();
        m.append(kind);
        Err(SymphonyError::TriageError(m))
    }
}

/// Only automatic and formal intents are published as a formal review.
pub fn check_formal_kind(kind: &str) -> (res: Result<(), SymphonyError>)
    ensures
        res is Ok <==> (kind@ == "automatic"@ || kind@ == "formal"@),
        res matches Err(e) ==> (e matches SymphonyError::TriageError(m) && m@
            == "formal review publisher cannot reconcile kind="@ + kind@),
{
    if str_eq(kind, "automatic") || str_eq(kind, "formal") {
        Ok(())
    } else {
        let mut m = "formal review publisher cannot reconcile kind=".to_owned();
        m.append(kind);
        Err(SymphonyError::TriageError(m))
    }
}

/// A preview intent needs no more work once it is applied with its comment
/// step recorded.
pub fn preview_already_published(intent: &ReviewPublicationIntent) -> (res: bool)
    ensures
        res == (intent.status == PublicationStatus::Applied && exists|i: int|
            0 <= i < intent.completed_steps@.len() && #[trigger] intent.completed_steps@[i]@
                == REVIEW_PREVIEW_COMMENT_STEP@),
{
    intent.status == PublicationStatus::Applied && has_step(
        &intent.completed_steps,
        REVIEW_PREVIEW_COMMENT_STEP,
    )
}

/// The intent is bound to a forge review: its id, URL and publisher login
/// are all recorded.
pub open spec fn bound_identity_spec(intent: ReviewPublicationIntent) -> bool {
    intent.review_id is Some && intent.review_url is Some && intent.publisher_login is Some
}

pub fn bound_identity(intent: &ReviewPublicationIntent) -> (res: bool)
    ensures
        res == bound_identity_spec(*intent),
{
    intent.review_id.is_some() && intent.review_url.is_some() && intent.publisher_login.is_some()
}

/// A bound intent must be resumed by the login it was bound to (compared
/// ignoring ASCII case).
pub fn check_publisher_identity(durable_login: &str, publisher_login: &str) -> (res: Result<
    (),
    SymphonyError,
>)
    ensures
        res is Ok <==> eq_ignore_case(durable_login@, publisher_login@),
        res matches Err(e) ==> (e matches SymphonyError::TriageError(m) && m@
            == "formal review publisher identity conflict: durable login "@ + durable_login@
            + " does not match authenticated login "@ + publisher_login@),
{
    if eq_ignore_ascii_case(durable_login, publisher_login) {
        Ok(())
    } else {
        let mut m = "formal review publisher identity conflict: durable login ".to_owned();
        m.append(durable_login);
        m.append(" does not match authenticated login ");
        m.append(publisher_login);
        Err(SymphonyError::TriageError(m))
    }
}

/// The error raised when the live head moved away from the reviewed head;
/// `context` says at which point of the publication.
pub fn head_reopened_error(context: &str, live_head: &str, expected_head: &str) -> (res:
    SymphonyError)
    ensures
        res matches SymphonyError::TriageError(m) && m@ == "review cycle reopened "@ + context@
            + ": live head "@ + live_head@ + " does not match expected "@ + expected_head@,
{
    let mut m = "review cycle reopened ".to_owned();
    m.append(context);
    m.append(": live head ");
    m.append(live_head);
    m.append(" does not match expected ");
    m.append(expected_head);
    SymphonyError::TriageError(m)
}

/// Whether a body carries the marker.
pub open spec fn carries_marker(body: Option<String>, marker: Seq<char>) -> bool {
    body matches Some(b) && contains_seq(b@, marker)
}

fn body_carries_marker(body: &Option<String>, marker: &str) -> (res: bool)
    ensures
        res == carries_marker(*body, marker@),
{
    match body {
        Some(b) => contains_str(b.as_str(), marker),
        None => false,
    }
}

/// Among existing reviews, the one this publisher already created for the
/// marker, scanning in order: a marked review by another login, or on
/// another head, is an error; so is a second marked review. `owned` is the
/// index of the marked review found so far.
pub open spec fn owned_review_from(
    reviews: Seq<GithubPullRequestReview>,
    start: int,
    marker: Seq<char>,
    login: Seq<char>,
    head: Seq<char>,
    owned: Option<int>,
) -> Result<Option<int>, Seq<char>>
    decreases reviews.len() - start,
{
    if start >= reviews.len() || start < 0 {
        Ok(owned)
    } else {
        let r = reviews[start];
        if !carries_marker(r.body, marker) {
            owned_review_from(reviews, start + 1, marker, login, head, owned)
        } else if !eq_ignore_case(author_of(r.user), login) {
            Err("formal review marker "@ + marker + " is owned by another GitHub login "@
                + author_of(r.user))
        } else if r.commit_id@ != head {
            Err("formal review marker "@ + marker + " conflict: head "@ + r.commit_id@
                + " does not match expected "@ + head)
        } else if owned is Some {
            Err("multiple formal reviews found for marker "@ + marker)
        } else {
            owned_review_from(reviews, start + 1, marker, login, head, Some(start))
        }
    }
}

/// The index of the review this publisher owns for the marker, if any.
pub fn select_owned_review(
    reviews: &Vec<GithubPullRequestReview>,
    marker: &str,
    publisher_login: &str,
    reviewed_head: &str,
) -> (res: Result<Option<usize>, SymphonyError>)
    ensures
        match owned_review_from(reviews@, 0, marker@, publisher_login@, reviewed_head@, None) {
            Ok(o) => res matches Ok(r) && (match o {
                Some(k) => r == Some(k as usize),
                None => r is None,
            }),
            Err(m) => res matches Err(e) && e matches SymphonyError::TriageError(em) && em@ == m,
        },
{
    let mut owned: Option<usize> = None;
    let mut i: usize = 0;
    while i < reviews.len()
        invariant
            i <= reviews@.len(),
            owned matches Some(k) ==> k < i,
            owned_review_from(reviews@, 0, marker@, publisher_login@, reviewed_head@, None)
                == owned_review_from(
                reviews@,
                i as int,
                marker@,
                publisher_login@,
                reviewed_head@,
                match owned {
                    Some(k) => Some(k as int),
                    None => None,
                },
            ),
        decreases reviews@.len() - i,
    {
        let r = &reviews[i];
        if body_carries_marker(&r.body, marker) {
            let author = author_login(&r.user);
            if !eq_ignore_ascii_case(author, publisher_login) {
                let mut m = "formal review marker ".to_owned();
                m.append(marker);
                m.append(" is owned by another GitHub login ");
                m.append(author);
                return Err(SymphonyError::TriageError(m));
            }
            if !str_eq(r.commit_id.as_str(), reviewed_head) {
                let mut m = "formal review marker ".to_owned();
                m.append(marker);
                m.append(" conflict: head ");
                m.append(r.commit_id.as_str());
                m.append(" does not match expected ");
                m.append(reviewed_head);
                return Err(SymphonyError::TriageError(m));
            }
            if owned.is_some() {
                let mut m = "multiple formal reviews found for marker ".to_owned();
                m.append(marker);
                return Err(SymphonyError::TriageError(m));
            }
            owned = Some(i);
        }
        i = i + 1;
    }
    Ok(owned)
}

/// The first comment that carries the marker and was written by the
/// publisher's login (compared ignoring ASCII case), from `start` on.
pub open spec fn first_owned_comment(
    comments: Seq<GithubIssueComment>,
    start: int,
    marker: Seq<char>,
    login: Seq<char>,
) -> Option<u64>
    decreases comments.len() - start,
{
    if start >= comments.len() || start < 0 {
        None
    } else if carries_marker(comments[start].body, marker) && eq_ignore_case(
        author_of(comments[start].user),
        login,
    ) {
        Some(comments[start].id)
    } else {
        first_owned_comment(comments, start + 1, marker, login)
    }
}

/// The id of the comment this publisher owns for an intent, if any.
pub fn find_owned_marker(comments: &Vec<GithubIssueComment>, intent_id: &str, publisher_login: &str) -> (res:
    Option<u64>)
    ensures
        res == first_owned_comment(comments@, 0, marker_spec(intent_id@), publisher_login@),
{
    let marker = review_comment_marker(intent_id);
    let mut i: usize = 0;
    while i < comments.len()
        invariant
            i <= comments@.len(),
            marker@ == marker_spec(intent_id@),
            first_owned_comment(comments@, 0, marker@, publisher_login@) == first_owned_comment(
                comments@,
                i as int,
                marker@,
                publisher_login@,
            ),
        decreases comments@.len() - i,
    {
        let c = &comments[i];
        if body_carries_marker(&c.body, marker.as_str()) && eq_ignore_ascii_case(
            author_login(&c.user),
            publisher_login,
        ) {
            return Some(c.id);
        }
        i = i + 1;
    }
    None
}

/// An existing comment may only be updated when the publisher wrote it.
pub fn check_comment_owner(comment_id: u64, author: &str, publisher_login: &str) -> (res: Result<
    (),
    SymphonyError,
>)
    ensures
        res is Ok <==> eq_ignore_case(author@, publisher_login@),
        res matches Err(e) ==> (e matches SymphonyError::TriageError(m) && m@
            == "review publication comment "@ + crate::text::decimal(comment_id as nat)
            + " is not owned by publisher "@ + publisher_login@),
{
    if eq_ignore_ascii_case(author, publisher_login) {
        Ok(())
    } else {
        let mut m = "review publication comment ".to_owned();
        let id = u64_to_string(comment_id);
        m.append(id.as_str());
        m.append(" is not owned by publisher ");
        m.append(publisher_login);
        Err(SymphonyError::TriageError(m))
    }
}

/// After an update the comment is bound again unless the intent already
/// records a comment bound to this login.
pub fn needs_comment_rebind(intent: &ReviewPublicationIntent, publisher_login: &str) -> (res:
    bool)
    ensures
        res == (intent.comment_id is None || !(intent.publisher_login matches Some(l) && l@
            == publisher_login@)),
{
    if intent.comment_id.is_none() {
        return true;
    }
    match &intent.publisher_login {
        Some(l) => !str_eq(l.as_str(), publisher_login),
        None => true,
    }
}

/// A finding persists from an earlier cycle of the same artifact.
pub open spec fn is_persisting(
    records: Seq<ReviewFindingRecord>,
    artifact_id: Seq<char>,
    finding_id: Seq<char>,
) -> bool {
    exists|j: int|
        0 <= j < records.len() && (#[trigger] records[j]).artifact_id@ == artifact_id
            && records[j].finding_id@ == finding_id && records[j].lifecycle_state@
            == "persisting"@
}

/// The findings that get an inline comment: all but the persisting ones,
/// in order.
pub open spec fn commented_findings(
    findings: Seq<ReviewFinding>,
    records: Seq<ReviewFindingRecord>,
    artifact_id: Seq<char>,
) -> Seq<ReviewFinding>
    decreases findings.len(),
{
    if findings.len() == 0 {
        Seq::empty()
    } else {
        let rest = commented_findings(findings.drop_last(), records, artifact_id);
        if is_persisting(records, artifact_id, findings.last().finding_id@) {
            rest
        } else {
            rest.push(findings.last())
        }
    }
}

/// The body of a finding's inline comment.
pub open spec fn inline_comment_body(f: ReviewFinding) -> Seq<char> {
    "**"@ + severity_name(f.severity) + "** ("@ + category_name(f.category) + ")\n\n"@ + f.claim@
        + "\n\n**Why:** "@ + f.rationale@ + "\n\n**Suggested remediation:** "@ + f.remediation@
        + match f.acceptance_criterion {
        Some(c) => "\n\n**Acceptance criterion:** "@ + c@,
        None => Seq::empty(),
    }
}

/// The inline comment of a finding: anchored on the right side at its end
/// line (its line when it has none), spanning from its line when it covers
/// several lines.
pub open spec fn renders_finding(c: GithubPullRequestReviewComment, f: ReviewFinding) -> bool {
    let end = match f.end_line {
        Some(e) => e,
        None => f.line,
    };
    &&& c.path@ == f.path@
    &&& c.line == end
    &&& c.side@ == "RIGHT"@
    &&& if end > f.line {
        c.start_line == Some(f.line) && (c.start_side matches Some(s) && s@ == "RIGHT"@)
    } else {
        c.start_line is None && c.start_side is None
    }
    &&& c.body@ == inline_comment_body(f)
}

fn render_inline_comment(f: &ReviewFinding) -> (res: GithubPullRequestReviewComment)
    ensures
        renders_finding(res, *f),
{
    let end_line = match f.end_line {
        Some(e) => e,
        None => f.line,
    };
    let multiline = end_line > f.line;
    let mut body = "**".to_owned();
    body.append(f.severity.as_str());
    body.append("** (");
    body.append(f.category.as_str());
    body.append(")\n\n");
    body.append(f.claim.as_str());
    body.append("\n\n**Why:** ");
    body.append(f.rationale.as_str());
    body.append("\n\n**Suggested remediation:** ");
    body.append(f.remediation.as_str());
    match &f.acceptance_criterion {
        Some(c) => {
            body.append("\n\n**Acceptance criterion:** ");
            body.append(c.as_str());
        },
        None => {},
    }
    assert(body@ =~= inline_comment_body(*f));
    GithubPullRequestReviewComment {
        path: f.path.clone(),
        line: end_line,
        side: "RIGHT".to_owned(),
        start_line: if multiline {
            Some(f.line)
        } else {
            None
        },
        start_side: if multiline {
            Some("RIGHT".to_owned())
        } else {
            None
        },
        body,
    }
}

fn finding_persists(records: &Vec<ReviewFindingRecord>, artifact_id: &str, finding_id: &str) -> (res:
    bool)
    ensures
        res == is_persisting(records@, artifact_id@, finding_id@),
{
    let mut i: usize = 0;
    while i < records.len()
        invariant
            i <= records@.len(),
            forall|j: int|
                0 <= j < i ==> !((#[trigger] records@[j]).artifact_id@ == artifact_id@
                    && records@[j].finding_id@ == finding_id@ && records@[j].lifecycle_state@
                    == "persisting"@),
        decreases records@.len() - i,
    {
        let r = &records[i];
        if str_eq(r.artifact_id.as_str(), artifact_id) && str_eq(r.finding_id.as_str(), finding_id)
            && str_eq(r.lifecycle_state.as_str(), "persisting") {
            return true;
        }
        i = i + 1;
    }
    false
}

/// The inline comments of a formal review: one per finding that does not
/// persist from an earlier cycle, in the manifest's order.
pub fn render_review_comments(
    artifact: &ReviewFindingsArtifactRecord,
    finding_records: &Vec<ReviewFindingRecord>,
) -> (res: Vec<GithubPullRequestReviewComment>)
    ensures
        ({
            let kept = commented_findings(
                artifact.manifest.findings@,
                finding_records@,
                artifact.artifact_id@,
            );
            &&& res@.len() == kept.len()
            &&& forall|i: int| 0 <= i < kept.len() ==> renders_finding(#[trigger] res@[i], kept[i])
        }),
{
    let findings = &artifact.manifest.findings;
    let mut out: Vec<GithubPullRequestReviewComment> = Vec::new();
    let mut i: usize = 0;
    while i < findings.len()
        invariant
            i <= findings@.len(),
            ({
                let kept = commented_findings(
                    findings@.take(i as int),
                    finding_records@,
                    artifact.artifact_id@,
                );
                &&& out@.len() == kept.len()
                &&& forall|k: int| 0 <= k < kept.len() ==> renders_finding(#[trigger] out@[k], kept[k])
            }),
        decreases findings@.len() - i,
    {
        proof {
            assert(findings@.take(i + 1).drop_last() =~= findings@.take(i as int));
            assert(findings@.take(i + 1).last() == findings@[i as int]);
        }
        let f = &findings[i];
        if !finding_persists(finding_records, artifact.artifact_id.as_str(), f.finding_id.as_str()) {
            let c = render_inline_comment(f);
            out.push(c);
        }
        i = i + 1;
    }
    proof {
        assert(findings@.take(findings@.len() as int) =~= findings@);
    }
    out
}

proof fn lemma_owned_review_stays_owned(
    reviews: Seq<GithubPullRequestReview>,
    start: int,
    marker: Seq<char>,
    login: Seq<char>,
    head: Seq<char>,
    owned: Option<int>,
)
    requires
        owned is Some,
    ensures
        owned_review_from(reviews, start, marker, login, head, owned) != Ok::<Option<int>, Seq<char>>(
            None,
        ),
    decreases reviews.len() - start,
{
    if 0 <= start < reviews.len() {
        lemma_owned_review_stays_owned(reviews, start + 1, marker, login, head, owned);
    }
}

proof fn lemma_created_review_found_from(
    reviews: Seq<GithubPullRequestReview>,
    created: GithubPullRequestReview,
    start: int,
    marker: Seq<char>,
    login: Seq<char>,
    head: Seq<char>,
    owned: Option<int>,
)
    requires
        0 <= start <= reviews.len(),
        carries_marker(created.body, marker),
        eq_ignore_case(author_of(created.user), login),
        created.commit_id@ == head,
        owned_review_from(reviews, start, marker, login, head, owned) == Ok::<
            Option<int>,
            Seq<char>,
        >(None),
    ensures
        owned_review_from(reviews.push(created), start, marker, login, head, owned) == Ok::<
            Option<int>,
            Seq<char>,
        >(Some(reviews.len() as int)),
    decreases reviews.len() - start,
{
    let all = reviews.push(created);
    if start == reviews.len() {
        assert(all[start] == created);
        assert(owned is None);
        assert(owned_review_from(all, start + 1, marker, login, head, Some(start)) == Ok::<
            Option<int>,
            Seq<char>,
        >(Some(start)));
    } else {
        assert(all[start] == reviews[start]);
        let r = reviews[start];
        if !carries_marker(r.body, marker) {
            lemma_created_review_found_from(reviews, created, start + 1, marker, login, head, owned);
        } else {
            lemma_owned_review_stays_owned(reviews, start + 1, marker, login, head, Some(start));
        }
    }
}

/// A formal review the publisher creates with an intent's marker, on the
/// reviewed head, is the one adopted afterwards where none was owned before:
/// a second publication of the same intent adopts it rather than creating
/// another.
pub proof fn lemma_created_review_is_adopted(
    reviews: Seq<GithubPullRequestReview>,
    created: GithubPullRequestReview,
    marker: Seq<char>,
    login: Seq<char>,
    head: Seq<char>,
)
    requires
        owned_review_from(reviews, 0, marker, login, head, None) == Ok::<Option<int>, Seq<char>>(
            None,
        ),
        carries_marker(created.body, marker),
        eq_ignore_case(author_of(created.user), login),
        created.commit_id@ == head,
    ensures
        owned_review_from(reviews.push(created), 0, marker, login, head, None) == Ok::<
            Option<int>,
            Seq<char>,
        >(Some(reviews.len() as int)),
{
    lemma_created_review_found_from(reviews, created, 0, marker, login, head, None);
}

proof fn lemma_posted_comment_found_from(
    comments: Seq<GithubIssueComment>,
    posted: GithubIssueComment,
    start: int,
    marker: Seq<char>,
    login: Seq<char>,
)
    requires
        0 <= start <= comments.len(),
        carries_marker(posted.body, marker),
        eq_ignore_case(author_of(posted.user), login),
    ensures
        first_owned_comment(comments.push(posted), start, marker, login) == match first_owned_comment(
            comments,
            start,
            marker,
            login,
        ) {
            Some(id) => Some(id),
            None => Some(posted.id),
        },
    decreases comments.len() - start,
{
    let all = comments.push(posted);
    if start == comments.len() {
        assert(all[start] == posted);
    } else {
        assert(all[start] == comments[start]);
        lemma_posted_comment_found_from(comments, posted, start + 1, marker, login);
    }
}

/// The comment the publisher posts with an intent's marker is the one
/// found for that intent afterwards, where none was found before, and a
/// comment found before stays the one found: a second publication of the
/// same preview updates its comment rather than posting another.
pub proof fn lemma_posted_preview_comment_is_found(
    comments: Seq<GithubIssueComment>,
    posted: GithubIssueComment,
    intent_id: Seq<char>,
    login: Seq<char>,
)
    requires
        carries_marker(posted.body, marker_spec(intent_id)),
        eq_ignore_case(author_of(posted.user), login),
    ensures
        first_owned_comment(comments.push(posted), 0, marker_spec(intent_id), login)
            == match first_owned_comment(comments, 0, marker_spec(intent_id), login) {
            Some(id) => Some(id),
            None => Some(posted.id),
        },
{
    lemma_posted_comment_found_from(comments, posted, 0, marker_spec(intent_id), login);
}

} // verus!
