//! The check an issue in Agent Review must pass: its workspace branch is
//! pushed and has an open pull request into the expected base. The commands
//! run outside; each step here turns a command's outcome into the next
//! step or the verdict.

use vstd::prelude::*;

use crate::domain::{normalize_issue_state, normalize_state};
use crate::orchestrator::issue::{invalid_agent_review_note, invalid_agent_review_note_text, Issue};
use crate::text::{
    contains_seq, contains_str, eq_ignore_ascii_case, eq_ignore_case, lower_seq, str_eq,
    to_ascii_lowercase, trim, trim_seq,
};

verus! {

/// What a finished command printed; both streams are trimmed.
#[derive(Debug, Clone, PartialEq, Eq)]
pub struct CommandOutcome {
    pub success: bool,
    pub stdout: String,
    pub stderr: String,
}

/// The verdict of the check.
#[derive(Debug, Clone, PartialEq, Eq)]
pub enum AgentReviewPrStatus {
    Valid { branch: String, pr_url: String },
    Missing { branch: Option<String>, reason: String },
    /// The check could not complete (a timeout, a missing binary); the
    /// issue is not moved back on such a failure.
    CheckFailed { reason: String },
}

/// The fields of `gh pr view --json url,state,headRefName,baseRefName`.
#[derive(Debug, Clone, PartialEq, Eq)]
pub struct PullRequestViewSummary {
    pub url: String,
    pub state: String,
    pub head_ref_name: String,
    pub base_ref_name: String,
}

/// `git branch --show-current`.
pub fn branch_command() -> (res: (&'static str, Vec<&'static str>))
    ensures
        res.0@ == "git"@,
        res.1@.len() == 2 && res.1@[0]@ == "branch"@ && res.1@[1]@ == "--show-current"@,
{
    ("git", vec!["branch", "--show-current"])
}

/// `git ls-remote --exit-code --heads origin <branch>`.
pub fn remote_branch_command(branch: &str) -> (res: (&'static str, Vec<&str>))
    ensures
        res.0@ == "git"@,
        res.1@.len() == 5 && res.1@[0]@ == "ls-remote"@ && res.1@[1]@ == "--exit-code"@
            && res.1@[2]@ == "--heads"@ && res.1@[3]@ == "origin"@ && res.1@[4]@ == branch@,
{
    ("git", vec!["ls-remote", "--exit-code", "--heads", "origin", branch])
}

/// `gh pr view --json url,state,headRefName,baseRefName`.
pub fn pr_view_command() -> (res: (&'static str, Vec<&'static str>))
    ensures
        res.0@ == "gh"@,
        res.1@.len() == 4 && res.1@[0]@ == "pr"@ && res.1@[1]@ == "view"@ && res.1@[2]@
            == "--json"@ && res.1@[3]@ == "url,state,headRefName,baseRefName"@,
{
    ("gh", vec!["pr", "view", "--json", "url,state,headRefName,baseRefName"])
}

/// The verdict's reason, whatever its kind.
pub open spec fn status_view(s: AgentReviewPrStatus) -> (nat, Option<Seq<char>>, Seq<char>) {
    match s {
        AgentReviewPrStatus::Valid { branch, pr_url } => (0, Some(branch@), pr_url@),
        AgentReviewPrStatus::Missing { branch, reason } => (
            1,
            match branch {
                Some(b) => Some(b@),
                None => None,
            },
            reason@,
        ),
        AgentReviewPrStatus::CheckFailed { reason } => (2, None, reason@),
    }
}

/// A stream's text, or the other one's when it is empty.
pub open spec fn detail_of(primary: Seq<char>, fallback: Seq<char>) -> Seq<char> {
    if primary.len() == 0 {
        fallback
    } else {
        primary
    }
}

/// The current branch: a failed run is a check failure; a failing command
/// means no branch; a detached or empty branch is missing; else the
/// trimmed branch.
pub open spec fn branch_step_spec(result: Result<CommandOutcome, String>) -> Result<
    Seq<char>,
    (nat, Option<Seq<char>>, Seq<char>),
> {
    match result {
        Err(e) => Err((2, None, "could not determine current branch: "@ + e@)),
        Ok(o) => if !o.success {
            Err((1, None, "could not determine current branch: "@ + detail_of(o.stderr@, o.stdout@)))
        } else if trim_seq(o.stdout@).len() == 0 || trim_seq(o.stdout@) == "HEAD"@ {
            Err((1, None, "current branch is detached or empty"@))
        } else {
            Ok(trim_seq(o.stdout@))
        },
    }
}

fn append_detail(out: &mut String, primary: &String, fallback: &String)
    ensures
        final(out)@ == old(out)@ + detail_of(primary@, fallback@),
{
    if primary.unicode_len() == 0 {
        out.append(fallback.as_str());
    } else {
        out.append(primary.as_str());
    }
}

pub fn branch_step(result: Result<CommandOutcome, String>) -> (res: Result<String, AgentReviewPrStatus>)
    ensures
        match branch_step_spec(result) {
            Ok(b) => res matches Ok(r) && r@ == b,
            Err(v) => res matches Err(s) && status_view(s) == v,
        },
{
    match result {
        Err(e) => {
            let mut m = "could not determine current branch: ".to_owned();
            m.append(e.as_str());
            Err(AgentReviewPrStatus::CheckFailed { reason: m })
        },
        Ok(o) => {
            if !o.success {
                let mut m = "could not determine current branch: ".to_owned();
                append_detail(&mut m, &o.stderr, &o.stdout);
                return Err(AgentReviewPrStatus::Missing { branch: None, reason: m });
            }
            let branch = trim(o.stdout.as_str());
            if branch.unicode_len() == 0 || str_eq(branch.as_str(), "HEAD") {
                return Err(
                    AgentReviewPrStatus::Missing {
                        branch: None,
                        reason: "current branch is detached or empty".to_owned(),
                    },
                );
            }
            Ok(branch)
        },
    }
}

/// The remote branch: a failed run is a check failure; a failing command
/// means the branch is not on `origin`.
pub open spec fn remote_step_spec(branch: Seq<char>, result: Result<CommandOutcome, String>) -> Option<
    (nat, Option<Seq<char>>, Seq<char>),
> {
    match result {
        Err(e) => Some((2, None, "could not verify remote branch: "@ + e@)),
        Ok(o) => if o.success {
            None
        } else {
            let detail = if o.stderr@.len() > 0 {
                o.stderr@
            } else if o.stdout@.len() > 0 {
                o.stdout@
            } else {
                "ref not found"@
            };
            Some((1, Some(branch), "remote branch is missing on origin ("@ + detail + ")"@))
        },
    }
}

pub fn remote_step(branch: &str, result: Result<CommandOutcome, String>) -> (res: Option<
    AgentReviewPrStatus,
>)
    ensures
        match remote_step_spec(branch@, result) {
            None => res is None,
            Some(v) => res matches Some(s) && status_view(s) == v,
        },
{
    match result {
        Err(e) => {
            let mut m = "could not verify remote branch: ".to_owned();
            m.append(e.as_str());
            Some(AgentReviewPrStatus::CheckFailed { reason: m })
        },
        Ok(o) => {
            if o.success {
                return None;
            }
            let mut m = "remote branch is missing on origin (".to_owned();
            if o.stderr.unicode_len() > 0 {
                m.append(o.stderr.as_str());
            } else if o.stdout.unicode_len() > 0 {
                m.append(o.stdout.as_str());
            } else {
                m.append("ref not found");
            }
            m.append(")");
            Some(AgentReviewPrStatus::Missing { branch: Some(branch.to_owned()), reason: m })
        },
    }
}

/// The pull-request lookup: a failed run is a check failure; a failing
/// command means no open pull request (said plainly when `gh` found none
/// for the branch); a successful one hands its output on to be decoded.
pub open spec fn pr_view_step_spec(branch: Seq<char>, result: Result<CommandOutcome, String>) -> Result<
    Seq<char>,
    (nat, Option<Seq<char>>, Seq<char>),
> {
    match result {
        Err(e) => Err((2, None, "could not verify open PR: "@ + e@)),
        Ok(o) => if o.success {
            Ok(o.stdout@)
        } else {
            let detail = detail_of(o.stderr@, o.stdout@);
            if contains_seq(lower_seq(detail), "no pull requests found for branch"@) {
                Err((1, Some(branch), "no open PR found for current branch `"@ + branch + "`"@))
            } else {
                Err((1, Some(branch), "could not verify open PR: "@ + detail))
            }
        },
    }
}

pub fn pr_view_step(branch: &str, result: Result<CommandOutcome, String>) -> (res: Result<
    String,
    AgentReviewPrStatus,
>)
    ensures
        match pr_view_step_spec(branch@, result) {
            Ok(out) => res matches Ok(r) && r@ == out,
            Err(v) => res matches Err(s) && status_view(s) == v,
        },
{
    match result {
        Err(e) => {
            let mut m = "could not verify open PR: ".to_owned();
            m.append(e.as_str());
            Err(AgentReviewPrStatus::CheckFailed { reason: m })
        },
        Ok(o) => {
            if o.success {
                return Ok(o.stdout);
            }
            let mut detail = String::new();
            append_detail(&mut detail, &o.stderr, &o.stdout);
            let lower = to_ascii_lowercase(detail.as_str());
            let reason = if contains_str(lower.as_str(), "no pull requests found for branch") {
                let mut m = "no open PR found for current branch `".to_owned();
                m.append(branch);
                m.append("`");
                m
            } else {
                let mut m = "could not verify open PR: ".to_owned();
                m.append(detail.as_str());
                m
            };
            Err(AgentReviewPrStatus::Missing { branch: Some(branch.to_owned()), reason })
        },
    }
}

/// The verdict on the decoded pull request: undecodable output, a pull
/// request that is not open, one from another branch, or one into another
/// base than the expected one (when a non-blank one is configured) is
/// missing; else the check passes with the pull request's URL.
pub open spec fn pr_summary_status_spec(
    branch: Seq<char>,
    expected_base: Option<Seq<char>>,
    decoded: Result<PullRequestViewSummary, String>,
) -> (nat, Option<Seq<char>>, Seq<char>) {
    match decoded {
        Err(e) => (1, Some(branch), "could not parse `gh pr view` output: "@ + e@),
        Ok(pr) => if !eq_ignore_case(pr.state@, "OPEN"@) {
            (1, Some(branch), "PR exists but is not open (state: "@ + pr.state@ + ")"@)
        } else if pr.head_ref_name@ != branch {
            (
                1,
                Some(branch),
                "PR head branch `"@ + pr.head_ref_name@ + "` does not match current branch `"@
                    + branch + "`"@,
            )
        } else if expected_base matches Some(b) && trim_seq(b).len() > 0 && pr.base_ref_name@
            != trim_seq(b) {
            (
                1,
                Some(branch),
                "PR base branch `"@ + pr.base_ref_name@ + "` does not match expected `"@
                    + trim_seq(expected_base.unwrap()) + "`"@,
            )
        } else {
            (0, Some(branch), pr.url@)
        },
    }
}

pub fn pr_summary_status(
    branch: &str,
    expected_base: Option<&str>,
    decoded: Result<PullRequestViewSummary, String>,
) -> (res: AgentReviewPrStatus)
    ensures
        status_view(res) == pr_summary_status_spec(
            branch@,
            match expected_base {
                Some(b) => Some(b@),
                None => None,
            },
            decoded,
        ),
{
    let pr = match decoded {
        Err(e) => {
            let mut m = "could not parse `gh pr view` output: ".to_owned();
            m.append(e.as_str());
            return AgentReviewPrStatus::Missing { branch: Some(branch.to_owned()), reason: m };
        },
        Ok(pr) => pr,
    };
    if !eq_ignore_ascii_case(pr.state.as_str(), "OPEN") {
        let mut m = "PR exists but is not open (state: ".to_owned();
        m.append(pr.state.as_str());
        m.append(")");
        return AgentReviewPrStatus::Missing { branch: Some(branch.to_owned()), reason: m };
    }
    if !str_eq(pr.head_ref_name.as_str(), branch) {
        let mut m = "PR head branch `".to_owned();
        m.append(pr.head_ref_name.as_str());
        m.append("` does not match current branch `");
        m.append(branch);
        m.append("`");
        return AgentReviewPrStatus::Missing { branch: Some(branch.to_owned()), reason: m };
    }
    match expected_base {
        Some(b) => {
            let base = trim(b);
            if base.unicode_len() > 0 && !str_eq(pr.base_ref_name.as_str(), base.as_str()) {
                let mut m = "PR base branch `".to_owned();
                m.append(pr.base_ref_name.as_str());
                m.append("` does not match expected `");
                m.append(base.as_str());
                m.append("`");
                return AgentReviewPrStatus::Missing { branch: Some(branch.to_owned()), reason: m };
            }
        },
        None => {},
    }
    AgentReviewPrStatus::Valid { branch: branch.to_owned(), pr_url: pr.url }
}

/// Where the check stands: the command it runs next.
#[derive(Debug, Clone, PartialEq, Eq)]
pub enum PrCheckStage {
    /// Read the workspace's current branch.
    ReadBranch,
    /// Confirm the branch exists on `origin`.
    ConfirmRemote { branch: String },
    /// View the branch's pull request.
    ViewPullRequest { branch: String },
}

/// What a command's outcome leads to: the next command, the pull
/// request's view to judge for the branch, or the verdict.
#[derive(Debug, Clone, PartialEq, Eq)]
pub enum PrCheckProgress {
    Next(PrCheckStage),
    Judge { branch: String, view: String },
    Done(AgentReviewPrStatus),
}

/// The command a stage runs: the branch, the remote branch, then the
/// pull request.
pub fn pr_check_command(stage: &PrCheckStage) -> (res: (&'static str, Vec<&str>))
    ensures
        match *stage {
            PrCheckStage::ReadBranch => res.0@ == "git"@ && res.1@.len() == 2 && res.1@[0]@
                == "branch"@ && res.1@[1]@ == "--show-current"@,
            PrCheckStage::ConfirmRemote { branch } => res.0@ == "git"@ && res.1@.len() == 5
                && res.1@[0]@ == "ls-remote"@ && res.1@[1]@ == "--exit-code"@ && res.1@[2]@
                == "--heads"@ && res.1@[3]@ == "origin"@ && res.1@[4]@ == branch@,
            PrCheckStage::ViewPullRequest { .. } => res.0@ == "gh"@ && res.1@.len() == 4
                && res.1@[0]@ == "pr"@ && res.1@[1]@ == "view"@ && res.1@[2]@ == "--json"@
                && res.1@[3]@ == "url,state,headRefName,baseRefName"@,
        },
{
    match stage {
        PrCheckStage::ReadBranch => branch_command(),
        PrCheckStage::ConfirmRemote { branch } => remote_branch_command(branch.as_str()),
        PrCheckStage::ViewPullRequest { .. } => pr_view_command(),
    }
}

/// Take in the outcome of a stage's command: a branch read leads to
/// confirming it on the remote, a confirmed branch to viewing its pull
/// request, and the view to judging it; any failing step ends the check
/// with its verdict.
pub fn pr_check_advance(stage: PrCheckStage, result: Result<CommandOutcome, String>) -> (res:
    PrCheckProgress)
    ensures
        match stage {
            PrCheckStage::ReadBranch => match branch_step_spec(result) {
                Ok(b) => res matches PrCheckProgress::Next(PrCheckStage::ConfirmRemote { branch })
                    && branch@ == b,
                Err(v) => res matches PrCheckProgress::Done(s) && status_view(s) == v,
            },
            PrCheckStage::ConfirmRemote { branch } => match remote_step_spec(branch@, result) {
                None => res == PrCheckProgress::Next(PrCheckStage::ViewPullRequest { branch }),
                Some(v) => res matches PrCheckProgress::Done(s) && status_view(s) == v,
            },
            PrCheckStage::ViewPullRequest { branch } => match pr_view_step_spec(branch@, result) {
                Ok(out) => res matches PrCheckProgress::Judge { branch: b, view } && b == branch
                    && view@ == out,
                Err(v) => res matches PrCheckProgress::Done(s) && status_view(s) == v,
            },
        },
{
    match stage {
        PrCheckStage::ReadBranch => match branch_step(result) {
            Ok(branch) => PrCheckProgress::Next(PrCheckStage::ConfirmRemote { branch }),
            Err(s) => PrCheckProgress::Done(s),
        },
        PrCheckStage::ConfirmRemote { branch } => match remote_step(branch.as_str(), result) {
            None => PrCheckProgress::Next(PrCheckStage::ViewPullRequest { branch }),
            Some(s) => PrCheckProgress::Done(s),
        },
        PrCheckStage::ViewPullRequest { branch } => match pr_view_step(branch.as_str(), result) {
            Ok(view) => PrCheckProgress::Judge { branch, view },
            Err(s) => PrCheckProgress::Done(s),
        },
    }
}

} // verus!

verus! {

/// The state whose issues must have an open pull request.
pub const AGENT_REVIEW_STATE: &'static str = "agent review";

/// The state an issue without an open pull request is moved back to.
pub const AGENT_REVIEW_FALLBACK_STATE: &'static str = "In Progress";

/// Whether an issue in this state is held to the pull-request check.
pub fn needs_agent_review_check(state: &str) -> (res: bool)
    ensures
        res == (normalize_state(state@) == AGENT_REVIEW_STATE@),
{
    let normalized = normalize_issue_state(state);
    str_eq(normalized.as_str(), AGENT_REVIEW_STATE)
}

/// What the check's verdict does to the issue about to be dispatched.
#[derive(Debug, Clone, PartialEq, Eq)]
pub enum AgentReviewGate {
    /// Dispatch it.
    Proceed,
    /// Leave it alone this time: the check itself failed.
    Skip,
    /// Move it back to `In Progress` and leave the note on it.
    Demote { note: String },
}

/// A valid pull request lets the issue through; a check that could not
/// complete skips it without moving it; a missing or mismatched pull
/// request moves it back, with a note naming the branch and the reason.
pub fn agent_review_gate(issue: &Issue, status: AgentReviewPrStatus) -> (res: AgentReviewGate)
    ensures
        match status {
            AgentReviewPrStatus::Valid { .. } => res == AgentReviewGate::Proceed,
            AgentReviewPrStatus::CheckFailed { .. } => res == AgentReviewGate::Skip,
            AgentReviewPrStatus::Missing { branch, reason } => res matches AgentReviewGate::Demote {
                note,
            } && note@ == invalid_agent_review_note_text(
                *issue,
                match branch {
                    Some(b) => Some(b@),
                    None => None,
                },
                reason@,
            ),
        },
{
    match status {
        AgentReviewPrStatus::Valid { .. } => AgentReviewGate::Proceed,
        AgentReviewPrStatus::CheckFailed { .. } => AgentReviewGate::Skip,
        AgentReviewPrStatus::Missing { branch, reason } => {
            let b: Option<&str> = match &branch {
                Some(x) => Some(x.as_str()),
                None => None,
            };
            AgentReviewGate::Demote { note: invalid_agent_review_note(issue, b, reason.as_str()) }
        },
    }
}

} // verus!
