//! The review worker's findings manifest and its validation against the
//! pinned revision and the reviewed diff.

use vstd::prelude::*;

use crate::specification::domain::strings_view;
use crate::text::{append_decimal, decimal, is_blank, is_blank_str, str_eq};

verus! {

pub const REVIEW_SCHEMA_VERSION: u32 = 1;

pub const REVIEW_MANIFEST_MAX_BYTES: usize = 262144;

/// Finding severities, most severe first.
#[derive(Debug, Clone, Copy, PartialEq, Eq, PartialOrd, Ord, Structural)]
pub enum ReviewSeverity {
    Blocking,
    Major,
    Minor,
    Nit,
}

/// The position of a severity in the order most severe first.
pub open spec fn severity_rank(s: ReviewSeverity) -> nat {
    match s {
        ReviewSeverity::Blocking => 0,
        ReviewSeverity::Major => 1,
        ReviewSeverity::Minor => 2,
        ReviewSeverity::Nit => 3,
    }
}

/// The wire name of a severity.
pub open spec fn severity_name(s: ReviewSeverity) -> Seq<char> {
    match s {
        ReviewSeverity::Blocking => "blocking"@,
        ReviewSeverity::Major => "major"@,
        ReviewSeverity::Minor => "minor"@,
        ReviewSeverity::Nit => "nit"@,
    }
}

impl ReviewSeverity {
    pub fn rank(self) -> (res: u8)
        ensures
            res == severity_rank(self),
    {
        match self {
            ReviewSeverity::Blocking => 0,
            ReviewSeverity::Major => 1,
            ReviewSeverity::Minor => 2,
            ReviewSeverity::Nit => 3,
        }
    }

    /// At least as severe as `other` (`self <= other` in declaration order).
    pub fn at_least_as_severe_as(self, other: ReviewSeverity) -> (res: bool)
        ensures
            res == (severity_rank(self) <= severity_rank(other)),
    {
        self.rank() <= other.rank()
    }

    pub fn as_str(self) -> (res: &'static str)
        ensures
            res@ == severity_name(self),
    {
        match self {
            ReviewSeverity::Blocking => "blocking",
            ReviewSeverity::Major => "major",
            ReviewSeverity::Minor => "minor",
            ReviewSeverity::Nit => "nit",
        }
    }
}

impl Default for ReviewSeverity {
    fn default() -> (res: Self)
        ensures
            res == ReviewSeverity::Blocking,
    {
        ReviewSeverity::Blocking
    }
}

#[derive(Debug, Clone, Copy, PartialEq, Eq, Structural)]
pub enum ReviewFindingCategory {
    Correctness,
    Security,
    SpecConformance,
    TestCoverage,
    Maintainability,
}

/// The wire (kebab-case) name of a category.
pub open spec fn category_name(c: ReviewFindingCategory) -> Seq<char> {
    match c {
        ReviewFindingCategory::Correctness => "correctness"@,
        ReviewFindingCategory::Security => "security"@,
        ReviewFindingCategory::SpecConformance => "spec-conformance"@,
        ReviewFindingCategory::TestCoverage => "test-coverage"@,
        ReviewFindingCategory::Maintainability => "maintainability"@,
    }
}

impl ReviewFindingCategory {
    pub fn as_str(self) -> (res: &'static str)
        ensures
            res@ == category_name(self),
    {
        match self {
            ReviewFindingCategory::Correctness => "correctness",
            ReviewFindingCategory::Security => "security",
            ReviewFindingCategory::SpecConformance => "spec-conformance",
            ReviewFindingCategory::TestCoverage => "test-coverage",
            ReviewFindingCategory::Maintainability => "maintainability",
        }
    }
}

/// One finding of the review worker. `confidence_valid` records whether
/// the worker's confidence is a finite number in `0..=1`.
#[derive(Debug, Clone, PartialEq, Eq)]
pub struct ReviewFinding {
    pub finding_id: String,
    pub severity: ReviewSeverity,
    pub category: ReviewFindingCategory,
    pub path: String,
    pub line: u32,
    pub end_line: Option<u32>,
    pub claim: String,
    pub rationale: String,
    pub remediation: String,
    pub acceptance_criterion: Option<String>,
    pub confidence_valid: bool,
}

/// The review worker's output.
#[derive(Debug, Clone, PartialEq, Eq)]
pub struct ReviewFindingsManifest {
    pub schema_version: u32,
    pub reviewed_head_sha: String,
    pub base_sha: String,
    pub spec_conformance_summary: String,
    pub no_findings: bool,
    pub findings: Vec<ReviewFinding>,
}

/// An inclusive line range GitHub accepts on the right side of the diff.
#[derive(Debug, Clone, Copy, PartialEq, Eq, Structural)]
pub struct ReviewedLineRange {
    pub start: u32,
    pub end: u32,
}

impl ReviewedLineRange {
    pub fn new(start: u32, end: u32) -> (res: Self)
        ensures
            res.start == start && res.end == end,
    {
        ReviewedLineRange { start, end }
    }

    /// The range covers `start..=end`.
    pub fn contains(self, start: u32, end: u32) -> (res: bool)
        ensures
            res == (self.start <= start && end <= self.end),
    {
        self.start <= start && end <= self.end
    }
}

/// A changed file as it exists at the reviewed head. A zero line count and
/// no ranges stand for a deleted file.
#[derive(Debug, Clone, PartialEq, Eq)]
pub struct ReviewedFile {
    pub path: String,
    pub line_count: u32,
    pub right_side_ranges: Vec<ReviewedLineRange>,
}

impl ReviewedFile {
    pub fn new(path: String, line_count: u32, right_side_ranges: Vec<ReviewedLineRange>) -> (res: Self)
        ensures
            res.path == path && res.line_count == line_count && res.right_side_ranges
                == right_side_ranges,
    {
        ReviewedFile { path, line_count, right_side_ranges }
    }
}

/// Every rule the manifest breaks.
#[derive(Debug, Clone, PartialEq, Eq)]
pub struct ManifestValidationError {
    pub violations: Vec<String>,
}

/// `items` joined by `sep`.
pub open spec fn join_spec(items: Seq<Seq<char>>, sep: Seq<char>) -> Seq<char>
    decreases items.len(),
{
    if items.len() == 0 {
        Seq::empty()
    } else if items.len() == 1 {
        items[0]
    } else {
        join_spec(items.drop_last(), sep) + sep + items.last()
    }
}

/// `[a, b, ...].join(sep)`.
pub fn join_strings(items: &Vec<String>, sep: &str) -> (res: String)
    ensures
        res@ == join_spec(strings_view(items@), sep@),
{
    let mut out = String::new();
    let mut i: usize = 0;
    while i < items.len()
        invariant
            i <= items@.len(),
            out@ == join_spec(strings_view(items@.subrange(0, i as int)), sep@),
        decreases items@.len() - i,
    {
        let ghost before = out@;
        if i != 0 {
            out.append(sep);
        }
        out.append(items[i].as_str());
        proof {
            let sub = strings_view(items@.subrange(0, i + 1));
            assert(sub.drop_last() =~= strings_view(items@.subrange(0, i as int)));
            if i == 0 {
                assert(out@ =~= sub[0]);
            } else {
                assert(out@ =~= join_spec(sub.drop_last(), sep@) + sep@ + sub.last());
            }
        }
        i = i + 1;
    }
    proof {
        assert(items@.subrange(0, items@.len() as int) =~= items@);
    }
    out
}

impl ManifestValidationError {
    pub fn one(message: String) -> (res: Self)
        ensures
            res.violations@ == seq![message],
    {
        let mut v: Vec<String> = Vec::new();
        v.push(message);
        ManifestValidationError { violations: v }
    }

    /// `review findings manifest rejected: a; b; ...`.
    pub fn to_display_string(&self) -> (res: String)
        ensures
            res@ == "review findings manifest rejected: "@ + join_spec(
                strings_view(self.violations@),
                "; "@,
            ),
    {
        let mut out = "review findings manifest rejected: ".to_owned();
        let joined = join_strings(&self.violations, "; ");
        out.append(joined.as_str());
        out
    }
}

/// `[message]` when `cond` holds, nothing otherwise.
pub open spec fn when(cond: bool, message: Seq<char>) -> Seq<Seq<char>> {
    if cond {
        seq![message]
    } else {
        Seq::empty()
    }
}

/// The manifest-level rules, in the order they are reported.
pub open spec fn top_violations(
    m: ReviewFindingsManifest,
    head: Seq<char>,
    base: Seq<char>,
    max_findings: nat,
) -> Seq<Seq<char>> {
    when(
        m.schema_version != REVIEW_SCHEMA_VERSION,
        "schema_version must be "@ + decimal(REVIEW_SCHEMA_VERSION as nat) + ", got "@ + decimal(
            m.schema_version as nat,
        ),
    ) + when(
        m.reviewed_head_sha@ != head,
        "reviewed_head_sha does not match the pinned head "@ + head,
    ) + when(m.base_sha@ != base, "base_sha does not match the pinned base "@ + base) + when(
        is_blank(m.spec_conformance_summary@),
        "spec_conformance_summary must not be empty"@,
    ) + when(
        m.findings@.len() == 0 && !m.no_findings,
        "an empty findings list requires an explicit no_findings affirmation"@,
    ) + when(
        m.findings@.len() != 0 && m.no_findings,
        "no_findings cannot be true when findings are present"@,
    ) + when(
        m.findings@.len() > max_findings,
        "manifest has "@ + decimal(m.findings@.len()) + " findings; configured maximum is "@
            + decimal(max_findings),
    )
}

/// The file a finding's path names: the last listed one with that path.
pub open spec fn lookup_file(files: Seq<ReviewedFile>, path: Seq<char>) -> Option<ReviewedFile>
    decreases files.len(),
{
    if files.len() == 0 {
        None
    } else if files.last().path@ == path {
        Some(files.last())
    } else {
        lookup_file(files.drop_last(), path)
    }
}

/// A non-blank id already used by an earlier finding.
pub open spec fn duplicated_id(findings: Seq<ReviewFinding>, i: int) -> bool {
    exists|j: int|
        0 <= j < i && !is_blank(#[trigger] findings[j].finding_id@) && findings[j].finding_id@
            == findings[i].finding_id@
}

/// How violations of finding `i` are labelled.
pub open spec fn finding_label(i: nat, id: Seq<char>) -> Seq<char> {
    if is_blank(id) {
        "finding["@ + decimal(i) + "]"@
    } else {
        "finding "@ + id
    }
}

/// Some right-side range covers `start..=end`.
pub open spec fn anchored(ranges: Seq<ReviewedLineRange>, start: u32, end: u32) -> bool {
    exists|k: int| 0 <= k < ranges.len() && #[trigger] ranges[k].start <= start && end <= ranges[k].end
}

/// The anchor rules of a finding whose file is in the diff.
pub open spec fn anchor_violations(f: ReviewFinding, file: ReviewedFile, label: Seq<char>) -> Seq<
    Seq<char>,
> {
    let line_resolves = f.line > 0 && f.line <= file.line_count;
    let end = match f.end_line {
        Some(e) => e,
        None => f.line,
    };
    let end_resolves = end >= f.line && end <= file.line_count;
    when(
        !line_resolves,
        label + ": line "@ + decimal(f.line as nat) + " does not resolve in "@ + f.path@
            + " at the reviewed head (1..="@ + decimal(file.line_count as nat) + ")"@,
    ) + when(
        f.end_line is Some && !end_resolves,
        label + ": end_line "@ + decimal(end as nat) + " must be between line "@ + decimal(
            f.line as nat,
        ) + " and "@ + decimal(file.line_count as nat),
    ) + when(
        line_resolves && end_resolves && !anchored(file.right_side_ranges@, f.line, end),
        label + ": anchor "@ + decimal(f.line as nat) + "..="@ + decimal(end as nat)
            + " is absent from the right side of the reviewed diff for "@ + f.path@,
    )
}

/// The content rules of a finding whose file is in the diff.
pub open spec fn content_violations(f: ReviewFinding, label: Seq<char>) -> Seq<Seq<char>> {
    when(is_blank(f.claim@), label + ": claim must not be empty"@) + when(
        is_blank(f.rationale@),
        label + ": rationale must not be empty"@,
    ) + when(is_blank(f.remediation@), label + ": remediation must not be empty"@) + when(
        f.acceptance_criterion matches Some(c) && is_blank(c@),
        label + ": acceptance_criterion must not be empty when present"@,
    ) + when(
        !f.confidence_valid,
        label + ": confidence must be a finite number from 0 through 1"@,
    )
}

/// Every rule finding `i` breaks, in the order they are reported.
pub open spec fn finding_violations(findings: Seq<ReviewFinding>, i: int, files: Seq<ReviewedFile>) -> Seq<
    Seq<char>,
> {
    let f = findings[i];
    let label = finding_label(i as nat, f.finding_id@);
    let id_part = if is_blank(f.finding_id@) {
        seq![label + ": finding_id must not be empty"@]
    } else if duplicated_id(findings, i) {
        seq![label + ": finding_id is duplicated"@]
    } else {
        Seq::empty()
    };
    match lookup_file(files, f.path@) {
        None => id_part.push(label + ": path "@ + f.path@ + " is absent from the reviewed diff"@),
        Some(file) => id_part + anchor_violations(f, file, label) + content_violations(f, label),
    }
}

/// The violations of the first `k` findings.
pub open spec fn findings_violations_upto(
    findings: Seq<ReviewFinding>,
    files: Seq<ReviewedFile>,
    k: int,
) -> Seq<Seq<char>>
    decreases k,
{
    if k <= 0 {
        Seq::empty()
    } else {
        findings_violations_upto(findings, files, k - 1) + finding_violations(findings, k - 1, files)
    }
}

/// Every violation of a manifest.
pub open spec fn manifest_violations(
    m: ReviewFindingsManifest,
    head: Seq<char>,
    base: Seq<char>,
    files: Seq<ReviewedFile>,
    max_findings: nat,
) -> Seq<Seq<char>> {
    top_violations(m, head, base, max_findings) + findings_violations_upto(
        m.findings@,
        files,
        m.findings@.len() as int,
    )
}

fn push_when(out: &mut Vec<String>, cond: bool, message: String)
    ensures
        strings_view(final(out)@) == strings_view(old(out)@) + when(cond, message@),
{
    let ghost before = strings_view(out@);
    if cond {
        out.push(message);
        assert(strings_view(out@) =~= before + when(cond, message@));
    } else {
        assert(strings_view(out@) =~= before + when(cond, message@));
    }
}

fn append_all(out: &mut Vec<String>, more: Vec<String>)
    ensures
        strings_view(final(out)@) == strings_view(old(out)@) + strings_view(more@),
{
    let ghost start = strings_view(out@);
    let mut i: usize = 0;
    while i < more.len()
        invariant
            i <= more@.len(),
            strings_view(out@) == start + strings_view(more@.subrange(0, i as int)),
        decreases more@.len() - i,
    {
        let ghost before = out@;
        out.push(more[i].clone());
        proof {
            assert(strings_view(out@) =~= strings_view(before).push(more@[i as int]@));
            assert(strings_view(more@.subrange(0, i + 1)) =~= strings_view(
                more@.subrange(0, i as int),
            ).push(more@[i as int]@));
            assert(strings_view(out@) =~= start + strings_view(more@.subrange(0, i + 1)));
        }
        i = i + 1;
    }
    proof {
        assert(more@.subrange(0, more@.len() as int) =~= more@);
    }
}

fn with_suffix(prefix: &str, suffix: &str) -> (res: String)
    ensures
        res@ == prefix@ + suffix@,
{
    let mut out = prefix.to_owned();
    out.append(suffix);
    out
}

fn label_for(i: usize, id: &str) -> (res: String)
    ensures
        res@ == finding_label(i as nat, id@),
{
    if is_blank_str(id) {
        let mut out = "finding[".to_owned();
        append_decimal(&mut out, i as u64);
        out.append("]");
        out
    } else {
        with_suffix("finding ", id)
    }
}

fn is_duplicated(findings: &Vec<ReviewFinding>, i: usize) -> (res: bool)
    requires
        i < findings@.len(),
    ensures
        res == duplicated_id(findings@, i as int),
{
    let mut j: usize = 0;
    while j < i
        invariant
            i < findings@.len(),
            j <= i,
            forall|k: int|
                0 <= k < j ==> !(!is_blank(#[trigger] findings@[k].finding_id@)
                    && findings@[k].finding_id@ == findings@[i as int].finding_id@),
        decreases i - j,
    {
        if !is_blank_str(findings[j].finding_id.as_str()) && str_eq(
            findings[j].finding_id.as_str(),
            findings[i].finding_id.as_str(),
        ) {
            return true;
        }
        j = j + 1;
    }
    false
}

fn find_file<'a>(files: &'a Vec<ReviewedFile>, path: &str) -> (res: Option<&'a ReviewedFile>)
    ensures
        match res {
            Some(f) => lookup_file(files@, path@) == Some(*f),
            None => lookup_file(files@, path@) is None,
        },
{
    let mut k: usize = files.len();
    assert(files@.subrange(0, k as int) =~= files@);
    while k > 0
        invariant
            k <= files@.len(),
            lookup_file(files@, path@) == lookup_file(files@.subrange(0, k as int), path@),
        decreases k,
    {
        proof {
            let sub = files@.subrange(0, k as int);
            assert(sub.drop_last() =~= files@.subrange(0, k - 1));
            assert(sub.last() == files@[k - 1]);
        }
        if str_eq(files[k - 1].path.as_str(), path) {
            return Some(&files[k - 1]);
        }
        k = k - 1;
    }
    None
}

fn is_anchored(ranges: &Vec<ReviewedLineRange>, start: u32, end: u32) -> (res: bool)
    ensures
        res == anchored(ranges@, start, end),
{
    let mut k: usize = 0;
    while k < ranges.len()
        invariant
            k <= ranges@.len(),
            forall|j: int| 0 <= j < k ==> !(#[trigger] ranges@[j].start <= start && end <= ranges@[j].end),
        decreases ranges@.len() - k,
    {
        if ranges[k].contains(start, end) {
            return true;
        }
        k = k + 1;
    }
    false
}

fn anchor_checks(f: &ReviewFinding, file: &ReviewedFile, label: &str) -> (res: Vec<String>)
    ensures
        strings_view(res@) == anchor_violations(*f, *file, label@),
{
    let mut out: Vec<String> = Vec::new();
    let line_resolves = f.line > 0 && f.line <= file.line_count;
    let end: u32 = match f.end_line {
        Some(e) => e,
        None => f.line,
    };
    let end_resolves = end >= f.line && end <= file.line_count;
    let mut m1 = with_suffix(label, ": line ");
    append_decimal(&mut m1, f.line as u64);
    m1.append(" does not resolve in ");
    m1.append(f.path.as_str());
    m1.append(" at the reviewed head (1..=");
    append_decimal(&mut m1, file.line_count as u64);
    m1.append(")");
    push_when(&mut out, !line_resolves, m1);
    let mut m2 = with_suffix(label, ": end_line ");
    append_decimal(&mut m2, end as u64);
    m2.append(" must be between line ");
    append_decimal(&mut m2, f.line as u64);
    m2.append(" and ");
    append_decimal(&mut m2, file.line_count as u64);
    push_when(&mut out, f.end_line.is_some() && !end_resolves, m2);
    let mut m3 = with_suffix(label, ": anchor ");
    append_decimal(&mut m3, f.line as u64);
    m3.append("..=");
    append_decimal(&mut m3, end as u64);
    m3.append(" is absent from the right side of the reviewed diff for ");
    m3.append(f.path.as_str());
    let cond3 = line_resolves && end_resolves && !is_anchored(&file.right_side_ranges, f.line, end);
    push_when(&mut out, cond3, m3);
    proof {
        assert(strings_view(out@) =~= anchor_violations(*f, *file, label@));
    }
    out
}

fn content_checks(f: &ReviewFinding, label: &str) -> (res: Vec<String>)
    ensures
        strings_view(res@) == content_violations(*f, label@),
{
    let mut out: Vec<String> = Vec::new();
    push_when(&mut out, is_blank_str(f.claim.as_str()), with_suffix(label, ": claim must not be empty"));
    push_when(
        &mut out,
        is_blank_str(f.rationale.as_str()),
        with_suffix(label, ": rationale must not be empty"),
    );
    push_when(
        &mut out,
        is_blank_str(f.remediation.as_str()),
        with_suffix(label, ": remediation must not be empty"),
    );
    let blank_criterion = match &f.acceptance_criterion {
        Some(c) => is_blank_str(c.as_str()),
        None => false,
    };
    push_when(
        &mut out,
        blank_criterion,
        with_suffix(label, ": acceptance_criterion must not be empty when present"),
    );
    push_when(
        &mut out,
        !f.confidence_valid,
        with_suffix(label, ": confidence must be a finite number from 0 through 1"),
    );
    proof {
        assert(strings_view(out@) =~= content_violations(*f, label@));
    }
    out
}

fn finding_checks(findings: &Vec<ReviewFinding>, i: usize, files: &Vec<ReviewedFile>) -> (res: Vec<String>)
    requires
        i < findings@.len(),
    ensures
        strings_view(res@) == finding_violations(findings@, i as int, files@),
{
    let f = &findings[i];
    let label = label_for(i, f.finding_id.as_str());
    let mut out: Vec<String> = Vec::new();
    if is_blank_str(f.finding_id.as_str()) {
        out.push(with_suffix(label.as_str(), ": finding_id must not be empty"));
    } else if is_duplicated(findings, i) {
        out.push(with_suffix(label.as_str(), ": finding_id is duplicated"));
    }
    let ghost id_part = strings_view(out@);
    match find_file(files, f.path.as_str()) {
        None => {
            let mut m = with_suffix(label.as_str(), ": path ");
            m.append(f.path.as_str());
            m.append(" is absent from the reviewed diff");
            out.push(m);
            proof {
                assert(strings_view(out@) =~= finding_violations(findings@, i as int, files@));
            }
        },
        Some(file) => {
            let anchors = anchor_checks(f, file, label.as_str());
            append_all(&mut out, anchors);
            let contents = content_checks(f, label.as_str());
            append_all(&mut out, contents);
            proof {
                assert(strings_view(out@) =~= finding_violations(findings@, i as int, files@));
            }
        },
    }
    out
}

/// Validate a decoded manifest. The pinned SHAs and the changed-file
/// inventory come from Symphony, never from the worker, so a valid-looking
/// manifest cannot review another commit or anchor outside the diff.
/// Every violation is reported, not only the first.
#[verifier::spinoff_prover]
#[verifier::rlimit(40)]
pub fn validate_review_manifest(
    manifest: &ReviewFindingsManifest,
    expected_head_sha: &str,
    expected_base_sha: &str,
    changed_files: &Vec<ReviewedFile>,
    max_findings: usize,
) -> (res: Result<(), ManifestValidationError>)
    ensures
        match res {
            Ok(()) => manifest_violations(
                *manifest,
                expected_head_sha@,
                expected_base_sha@,
                changed_files@,
                max_findings as nat,
            ).len() == 0,
            Err(e) => strings_view(e.violations@) == manifest_violations(
                *manifest,
                expected_head_sha@,
                expected_base_sha@,
                changed_files@,
                max_findings as nat,
            ) && e.violations@.len() > 0,
        },
{
    let mut v: Vec<String> = Vec::new();
    let mut m1 = "schema_version must be ".to_owned();
    append_decimal(&mut m1, REVIEW_SCHEMA_VERSION as u64);
    m1.append(", got ");
    append_decimal(&mut m1, manifest.schema_version as u64);
    push_when(&mut v, manifest.schema_version != REVIEW_SCHEMA_VERSION, m1);
    push_when(
        &mut v,
        !str_eq(manifest.reviewed_head_sha.as_str(), expected_head_sha),
        with_suffix("reviewed_head_sha does not match the pinned head ", expected_head_sha),
    );
    push_when(
        &mut v,
        !str_eq(manifest.base_sha.as_str(), expected_base_sha),
        with_suffix("base_sha does not match the pinned base ", expected_base_sha),
    );
    push_when(
        &mut v,
        is_blank_str(manifest.spec_conformance_summary.as_str()),
        "spec_conformance_summary must not be empty".to_owned(),
    );
    push_when(
        &mut v,
        manifest.findings.len() == 0 && !manifest.no_findings,
        "an empty findings list requires an explicit no_findings affirmation".to_owned(),
    );
    push_when(
        &mut v,
        manifest.findings.len() != 0 && manifest.no_findings,
        "no_findings cannot be true when findings are present".to_owned(),
    );
    let mut m7 = "manifest has ".to_owned();
    append_decimal(&mut m7, manifest.findings.len() as u64);
    m7.append(" findings; configured maximum is ");
    append_decimal(&mut m7, max_findings as u64);
    push_when(&mut v, manifest.findings.len() > max_findings, m7);
    let ghost top = strings_view(v@);
    proof {
        assert(top =~= top_violations(
            *manifest,
            expected_head_sha@,
            expected_base_sha@,
            max_findings as nat,
        ));
    }
    let mut i: usize = 0;
    while i < manifest.findings.len()
        invariant
            i <= manifest.findings@.len(),
            top == top_violations(
                *manifest,
                expected_head_sha@,
                expected_base_sha@,
                max_findings as nat,
            ),
            strings_view(v@) == top + findings_violations_upto(
                manifest.findings@,
                changed_files@,
                i as int,
            ),
        decreases manifest.findings@.len() - i,
    {
        let more = finding_checks(&manifest.findings, i, changed_files);
        append_all(&mut v, more);
        proof {
            assert(strings_view(v@) =~= top + findings_violations_upto(
                manifest.findings@,
                changed_files@,
                i + 1,
            ));
        }
        i = i + 1;
    }
    if v.len() == 0 {
        Ok(())
    } else {
        Err(ManifestValidationError { violations: v })
    }
}

/// What decoding the worker's output made of it, reduced to its error text.
pub open spec fn decoded_error<T>(decoded: Result<T, String>) -> Option<Seq<char>> {
    match decoded {
        Ok(_) => None,
        Err(m) => Some(m@),
    }
}

/// Accept the worker's raw manifest `raw`, given what strict JSON decoding
/// made of it: refuse oversized output, then undecodable output, then
/// validate the manifest.
pub fn parse_and_validate_review_manifest(
    raw: &str,
    decoded: Result<ReviewFindingsManifest, String>,
    expected_head_sha: &str,
    expected_base_sha: &str,
    changed_files: &Vec<ReviewedFile>,
    max_findings: usize,
) -> (res: Result<ReviewFindingsManifest, ManifestValidationError>)
    ensures
        raw.len() > REVIEW_MANIFEST_MAX_BYTES ==> (res matches Err(e)
            && strings_view(e.violations@) == seq![
            "manifest is "@ + decimal(raw.len() as nat) + " bytes; maximum is "@ + decimal(
                REVIEW_MANIFEST_MAX_BYTES as nat,
            ),
        ]),
        raw.len() <= REVIEW_MANIFEST_MAX_BYTES ==> match decoded {
            Err(m) => res matches Err(e) && strings_view(e.violations@) == seq![
                "manifest is not valid strict JSON: "@ + m@,
            ],
            Ok(m) => match res {
                Ok(r) => r == m && manifest_violations(
                    m,
                    expected_head_sha@,
                    expected_base_sha@,
                    changed_files@,
                    max_findings as nat,
                ).len() == 0,
                Err(e) => strings_view(e.violations@) == manifest_violations(
                    m,
                    expected_head_sha@,
                    expected_base_sha@,
                    changed_files@,
                    max_findings as nat,
                ) && e.violations@.len() > 0,
            },
        },
{
    let len: usize = raw.len();
    if len > REVIEW_MANIFEST_MAX_BYTES {
        let mut m = "manifest is ".to_owned();
        append_decimal(&mut m, len as u64);
        m.append(" bytes; maximum is ");
        append_decimal(&mut m, REVIEW_MANIFEST_MAX_BYTES as u64);
        let e = ManifestValidationError::one(m);
        proof {
            assert(strings_view(e.violations@) =~= seq![m@]);
        }
        return Err(e);
    }
    match decoded {
        Err(message) => {
            let e = ManifestValidationError::one(
                with_suffix("manifest is not valid strict JSON: ", message.as_str()),
            );
            proof {
                assert(strings_view(e.violations@) =~= seq![e.violations@[0]@]);
            }
            Err(e)
        },
        Ok(manifest) => {
            match validate_review_manifest(
                &manifest,
                expected_head_sha,
                expected_base_sha,
                changed_files,
                max_findings,
            ) {
                Ok(()) => Ok(manifest),
                Err(e) => Err(e),
            }
        },
    }
}

} // verus!
