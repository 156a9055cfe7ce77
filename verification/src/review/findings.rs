//! The changed-file inventory of a pull request, derived from its patches,
//! and the rendering of findings.

use vstd::prelude::*;

use crate::review::domain::ReviewFindingsArtifactRecord;
use crate::review::manifest::{
    category_name, severity_name, ReviewFinding, ReviewSeverity, ReviewedFile, ReviewedLineRange,
};
use crate::review::publisher::{marker_spec, review_comment_marker};
use crate::text::{append_decimal, decimal, push_char, trim, trim_seq};
use crate::text::{
    char_index, eq_ignore_ascii_case, eq_ignore_case, find_char_from, lemma_char_index,
    lines_spec, parse_unsigned, parse_unsigned_spec, split_lines, split_words, starts_with_seq,
    starts_with_str, trim_start, trim_start_seq, words,
};

verus! {

/// A changed file of a pull request as the forge lists it.
#[derive(Debug, Clone, Default, PartialEq, Eq)]
pub struct GithubPullRequestFile {
    pub filename: String,
    pub status: String,
    pub additions: u64,
    pub deletions: u64,
    pub patch: Option<String>,
}

/// The first word that starts with `+`.
pub open spec fn first_plus_word(ws: Seq<Seq<char>>) -> Option<Seq<char>>
    decreases ws.len(),
{
    if ws.len() == 0 {
        None
    } else if starts_with_seq(ws[0], "+"@) {
        Some(ws[0])
    } else {
        first_plus_word(ws.drop_first())
    }
}

/// The new-file `(start, count)` of a unified-diff hunk header such as
/// `@@ -2,3 +10,4 @@`; a missing or unreadable count means 1.
pub open spec fn hunk_header_spec(line: Seq<char>) -> Option<(u32, u32)> {
    let t = trim_start_seq(line);
    if !starts_with_seq(t, "@@ "@) {
        None
    } else {
        match first_plus_word(words(t.skip(3))) {
            None => None,
            Some(w) => {
                let p = w.skip(1);
                let ci = char_index(p, ',');
                match parse_unsigned_spec(p.take(ci as int), u32::MAX as nat) {
                    None => None,
                    Some(start) => {
                        let count = if ci < p.len() {
                            let after = p.skip(ci + 1 as int);
                            match parse_unsigned_spec(
                                after.take(char_index(after, ',') as int),
                                u32::MAX as nat,
                            ) {
                                Some(c) => c,
                                None => 1,
                            }
                        } else {
                            1
                        };
                        Some((start as u32, count as u32))
                    },
                }
            },
        }
    }
}

fn parse_plus_word(w: &str) -> (res: Option<(u32, u32)>)
    requires
        starts_with_seq(w@, "+"@),
    ensures
        res == ({
            let p = w@.skip(1);
            let ci = char_index(p, ',');
            match parse_unsigned_spec(p.take(ci as int), u32::MAX as nat) {
                None => None,
                Some(start) => {
                    let count = if ci < p.len() {
                        let after = p.skip(ci + 1 as int);
                        match parse_unsigned_spec(
                            after.take(char_index(after, ',') as int),
                            u32::MAX as nat,
                        ) {
                            Some(c) => c,
                            None => 1,
                        }
                    } else {
                        1
                    };
                    Some((start as u32, count as u32))
                },
            }
        }),
{
    let wn: usize = w.unicode_len();
    proof {
        reveal_strlit("+");
    }
    let p = w.substring_char(1, wn);
    let pn: usize = p.unicode_len();
    let ci: usize = find_char_from(p, pn, 0, ',');
    proof {
        assert(p@.subrange(0, pn as int) =~= p@);
        assert(p@ =~= w@.skip(1));
        lemma_char_index(p@, ',');
    }
    let first = p.substring_char(0, ci);
    proof {
        assert(first@ =~= p@.take(ci as int));
    }
    let start = match parse_unsigned(first, 4294967295u64) {
        None => {
            return None;
        },
        Some(v) => v,
    };
    let count: u64 = if ci < pn {
        proof {
            lemma_char_index(p@.subrange(ci + 1, pn as int), ',');
        }
        let ci2: usize = find_char_from(p, pn, ci + 1, ',');
        let seg = p.substring_char(ci + 1, ci2);
        proof {
            let after = p@.skip(ci + 1 as int);
            assert(p@.subrange(ci + 1, pn as int) =~= after);
            lemma_char_index(after, ',');
            assert(seg@ =~= after.take(char_index(after, ',') as int));
        }
        match parse_unsigned(seg, 4294967295u64) {
            Some(c) => c,
            None => 1,
        }
    } else {
        1
    };
    Some((start as u32, count as u32))
}

/// The new-file `(start, count)` of a hunk header line.
pub fn parse_new_hunk_header(line: &str) -> (res: Option<(u32, u32)>)
    ensures
        res == hunk_header_spec(line@),
{
    let t = trim_start(line);
    if !starts_with_str(t.as_str(), "@@ ") {
        return None;
    }
    let tn: usize = t.as_str().unicode_len();
    proof {
        reveal_strlit("@@ ");
    }
    let rest = t.as_str().substring_char(3, tn);
    proof {
        assert(rest@ =~= t@.skip(3));
    }
    let ws = split_words(rest);
    let ghost wv = ws@.map_values(|w: String| w@);
    let mut i: usize = 0;
    assert(wv.subrange(0, wv.len() as int) =~= wv);
    while i < ws.len()
        invariant
            wv == ws@.map_values(|w: String| w@),
            wv == words(t@.skip(3)),
            t@ == trim_start_seq(line@),
            starts_with_seq(t@, "@@ "@),
            i <= ws@.len(),
            first_plus_word(wv) == first_plus_word(wv.subrange(i as int, wv.len() as int)),
        decreases ws@.len() - i,
    {
        let ghost sub = wv.subrange(i as int, wv.len() as int);
        proof {
            assert(sub[0] == ws@[i as int]@);
            assert(sub.drop_first() =~= wv.subrange(i + 1, wv.len() as int));
        }
        if starts_with_str(ws[i].as_str(), "+") {
            return parse_plus_word(ws[i].as_str());
        }
        i = i + 1;
    }
    None
}

/// The right-side range a hunk header line contributes, if any.
pub open spec fn header_range(line: Seq<char>) -> Option<ReviewedLineRange> {
    match hunk_header_spec(line) {
        Some((start, count)) => if count > 0 {
            Some(
                ReviewedLineRange {
                    start,
                    end: if start + (count - 1) > u32::MAX {
                        u32::MAX
                    } else {
                        (start + (count - 1)) as u32
                    },
                },
            )
        } else {
            None
        },
        None => None,
    }
}

/// The ranges of the hunk headers among `lines`, in order.
pub open spec fn ranges_of_lines(lines: Seq<Seq<char>>) -> Seq<ReviewedLineRange>
    decreases lines.len(),
{
    if lines.len() == 0 {
        Seq::empty()
    } else {
        ranges_of_lines(lines.drop_last()) + match header_range(lines.last()) {
            Some(r) => seq![r],
            None => Seq::empty(),
        }
    }
}

/// The largest range end, or zero.
pub open spec fn max_end(ranges: Seq<ReviewedLineRange>) -> u32
    decreases ranges.len(),
{
    if ranges.len() == 0 {
        0
    } else if max_end(ranges.drop_last()) >= ranges.last().end {
        max_end(ranges.drop_last())
    } else {
        ranges.last().end
    }
}

/// A removed file has no right side at all.
pub open spec fn is_removed(f: GithubPullRequestFile) -> bool {
    eq_ignore_case(f.status@, "removed"@)
}

/// The right-side ranges of a changed file: those of its patch's hunks, or
/// none for a removed file or a file whose patch the forge withheld.
pub open spec fn file_ranges(f: GithubPullRequestFile) -> Seq<ReviewedLineRange> {
    if is_removed(f) {
        Seq::empty()
    } else {
        match f.patch {
            Some(p) => ranges_of_lines(lines_spec(p@)),
            None => Seq::empty(),
        }
    }
}

/// The reviewed file a changed file stands for.
pub open spec fn reviewed_file_matches(r: ReviewedFile, f: GithubPullRequestFile) -> bool {
    &&& r.path == f.filename
    &&& r.right_side_ranges@ == file_ranges(f)
    &&& r.line_count == if is_removed(f) {
        0
    } else {
        max_end(file_ranges(f))
    }
}

fn ranges_of_patch(patch: &str) -> (res: Vec<ReviewedLineRange>)
    ensures
        res@ == ranges_of_lines(lines_spec(patch@)),
{
    let lines = split_lines(patch);
    let ghost lv = lines@.map_values(|w: String| w@);
    let mut out: Vec<ReviewedLineRange> = Vec::new();
    let mut i: usize = 0;
    while i < lines.len()
        invariant
            lv == lines@.map_values(|w: String| w@),
            lv == lines_spec(patch@),
            i <= lines@.len(),
            out@ == ranges_of_lines(lv.subrange(0, i as int)),
        decreases lines@.len() - i,
    {
        let header = parse_new_hunk_header(lines[i].as_str());
        proof {
            let sub = lv.subrange(0, i + 1);
            assert(sub.drop_last() =~= lv.subrange(0, i as int));
            assert(sub.last() == lines@[i as int]@);
        }
        match header {
            Some((start, count)) => {
                if count > 0 {
                    let span: u32 = count - 1;
                    let end: u32 = if start > u32::MAX - span {
                        u32::MAX
                    } else {
                        start + span
                    };
                    out.push(ReviewedLineRange::new(start, end));
                }
            },
            None => {},
        }
        proof {
            assert(out@ =~= ranges_of_lines(lv.subrange(0, i + 1)));
        }
        i = i + 1;
    }
    proof {
        assert(lv.subrange(0, lv.len() as int) =~= lv);
    }
    out
}

fn max_range_end(ranges: &Vec<ReviewedLineRange>) -> (res: u32)
    ensures
        res == max_end(ranges@),
{
    let mut best: u32 = 0;
    let mut i: usize = 0;
    while i < ranges.len()
        invariant
            i <= ranges@.len(),
            best == max_end(ranges@.subrange(0, i as int)),
        decreases ranges@.len() - i,
    {
        proof {
            let sub = ranges@.subrange(0, i + 1);
            assert(sub.drop_last() =~= ranges@.subrange(0, i as int));
        }
        if ranges[i].end > best {
            best = ranges[i].end;
        }
        i = i + 1;
    }
    proof {
        assert(ranges@.subrange(0, ranges@.len() as int) =~= ranges@);
    }
    best
}

/// Convert forge file patches into the right-side line ranges review
/// comments may anchor to. A hunk's new-file span covers changed and
/// context lines, exactly what the forge permits. Removed files and files
/// without a patch stay unanchorable.
pub fn reviewed_files(files: &[GithubPullRequestFile]) -> (res: Vec<ReviewedFile>)
    ensures
        res@.len() == files@.len(),
        forall|i: int| 0 <= i < files@.len() ==> reviewed_file_matches(#[trigger] res@[i], files@[i]),
{
    let mut out: Vec<ReviewedFile> = Vec::new();
    let mut i: usize = 0;
    while i < files.len()
        invariant
            i <= files@.len(),
            out@.len() == i,
            forall|j: int| 0 <= j < i ==> reviewed_file_matches(#[trigger] out@[j], files@[j]),
        decreases files@.len() - i,
    {
        let file = &files[i];
        let deleted = eq_ignore_ascii_case(file.status.as_str(), "removed");
        let ranges: Vec<ReviewedLineRange> = if deleted {
            Vec::new()
        } else {
            match &file.patch {
                Some(p) => ranges_of_patch(p.as_str()),
                None => Vec::new(),
            }
        };
        let line_count: u32 = if deleted {
            0
        } else {
            max_range_end(&ranges)
        };
        proof {
            assert(ranges@ =~= file_ranges(*file));
        }
        out.push(ReviewedFile::new(file.filename.clone(), line_count, ranges));
        i = i + 1;
    }
    out
}

/// A claim as a table cell: line breaks become spaces and `|` is escaped.
pub open spec fn escape_cell_char(c: char) -> Seq<char> {
    if c == '\r' || c == '\n' {
        seq![' ']
    } else if c == '|' {
        seq!['\\', '|']
    } else {
        seq![c]
    }
}

pub open spec fn escape_cell(s: Seq<char>) -> Seq<char>
    decreases s.len(),
{
    if s.len() == 0 {
        Seq::empty()
    } else {
        escape_cell(s.drop_last()) + escape_cell_char(s.last())
    }
}

fn append_escaped_cell(out: &mut String, s: &str)
    ensures
        final(out)@ == old(out)@ + escape_cell(s@),
{
    let n = s.unicode_len();
    let mut i: usize = 0;
    while i < n
        invariant
            n == s@.len(),
            i <= n,
            out@ == old(out)@ + escape_cell(s@.take(i as int)),
        decreases n - i,
    {
        let c = s.get_char(i);
        proof {
            assert(s@.take(i + 1).drop_last() =~= s@.take(i as int));
            assert(s@.take(i + 1).last() == c);
        }
        if c == '\r' || c == '\n' {
            push_char(out, ' ');
        } else if c == '|' {
            push_char(out, '\\');
            push_char(out, '|');
        } else {
            push_char(out, c);
        }
        assert(out@ =~= old(out)@ + escape_cell(s@.take(i + 1)));
        i = i + 1;
    }
    assert(s@.take(n as int) =~= s@);
}

/// How many findings have a severity.
pub open spec fn severity_count(findings: Seq<ReviewFinding>, s: ReviewSeverity) -> nat
    decreases findings.len(),
{
    if findings.len() == 0 {
        0
    } else {
        severity_count(findings.drop_last(), s) + if findings.last().severity == s {
            1nat
        } else {
            0nat
        }
    }
}

proof fn lemma_severity_count_bounded(findings: Seq<ReviewFinding>, s: ReviewSeverity)
    ensures
        severity_count(findings, s) <= findings.len(),
    decreases findings.len(),
{
    if findings.len() > 0 {
        lemma_severity_count_bounded(findings.drop_last(), s);
    }
}

fn count_severity(findings: &Vec<ReviewFinding>, s: ReviewSeverity) -> (res: usize)
    ensures
        res == severity_count(findings@, s),
{
    let mut count: usize = 0;
    let mut i: usize = 0;
    while i < findings.len()
        invariant
            i <= findings@.len(),
            count == severity_count(findings@.take(i as int), s),
        decreases findings@.len() - i,
    {
        proof {
            assert(findings@.take(i + 1).drop_last() =~= findings@.take(i as int));
            lemma_severity_count_bounded(findings@.take(i as int), s);
        }
        if findings[i].severity == s {
            count = count + 1;
        }
        i = i + 1;
    }
    assert(findings@.take(findings@.len() as int) =~= findings@);
    count
}

/// The count row of a severity, present when some finding has it.
pub open spec fn severity_row(findings: Seq<ReviewFinding>, s: ReviewSeverity) -> Seq<char> {
    if severity_count(findings, s) > 0 {
        "| "@ + severity_name(s) + " | "@ + decimal(severity_count(findings, s)) + " |\n"@
    } else {
        Seq::empty()
    }
}

fn append_severity_row(out: &mut String, findings: &Vec<ReviewFinding>, s: ReviewSeverity)
    ensures
        final(out)@ == old(out)@ + severity_row(findings@, s),
{
    let count = count_severity(findings, s);
    if count > 0 {
        out.append("| ");
        out.append(s.as_str());
        out.append(" | ");
        proof {
            lemma_severity_count_bounded(findings@, s);
        }
        append_decimal(out, count as u64);
        out.append(" |\n");
    }
    assert(final(out)@ =~= old(out)@ + severity_row(findings@, s));
}

/// The table row of a finding.
pub open spec fn preview_row(f: ReviewFinding) -> Seq<char> {
    "| `"@ + f.finding_id@ + "` | `"@ + severity_name(f.severity) + "` | `"@ + category_name(
        f.category,
    ) + "` | `"@ + f.path@ + "`:"@ + decimal(f.line as nat) + match f.end_line {
        Some(e) => "-"@ + decimal(e as nat),
        None => Seq::empty(),
    } + " | "@ + escape_cell(f.claim@) + " |\n"@
}

pub open spec fn preview_rows(findings: Seq<ReviewFinding>) -> Seq<char>
    decreases findings.len(),
{
    if findings.len() == 0 {
        Seq::empty()
    } else {
        preview_rows(findings.drop_last()) + preview_row(findings.last())
    }
}

fn append_preview_row(out: &mut String, f: &ReviewFinding)
    ensures
        final(out)@ == old(out)@ + preview_row(*f),
{
    out.append("| `");
    out.append(f.finding_id.as_str());
    out.append("` | `");
    out.append(f.severity.as_str());
    out.append("` | `");
    out.append(f.category.as_str());
    out.append("` | `");
    out.append(f.path.as_str());
    out.append("`:");
    append_decimal(out, f.line as u64);
    match f.end_line {
        Some(e) => {
            out.append("-");
            append_decimal(out, e as u64);
        },
        None => {},
    }
    out.append(" | ");
    append_escaped_cell(out, f.claim.as_str());
    out.append(" |\n");
    assert(final(out)@ =~= old(out)@ + preview_row(*f));
}

pub const PREVIEW_NO_FINDINGS: &'static str =
    "\n**No findings.** The worker explicitly affirmed `no_findings`.\n";

pub const PREVIEW_COUNT_HEADER: &'static str = "\n| Severity | Count |\n| --- | ---: |\n";

pub const PREVIEW_TABLE_HEADER: &'static str =
    "\n| ID | Severity | Category | Location | Claim |\n| --- | --- | --- | --- | --- |\n";

pub const PREVIEW_FOOTER: &'static str =
    "\n_This is a preview only. A4 PR1 creates no GitHub review, inline comment, tracker transition, approval, or merge._\n";

/// The findings part of a preview: the affirmation of no findings, or the
/// finding count, the per-severity counts (most severe first, severities
/// without findings left out) and one row per finding.
pub open spec fn preview_findings_part(a: ReviewFindingsArtifactRecord) -> Seq<char> {
    let f = a.manifest.findings@;
    if a.manifest.no_findings {
        PREVIEW_NO_FINDINGS@
    } else {
        "\nFindings: "@ + decimal(a.finding_count as nat) + "\n"@ + (if f.len() > 0 {
            PREVIEW_COUNT_HEADER@ + severity_row(f, ReviewSeverity::Blocking) + severity_row(
                f,
                ReviewSeverity::Major,
            ) + severity_row(f, ReviewSeverity::Minor) + severity_row(f, ReviewSeverity::Nit)
        } else {
            Seq::empty()
        }) + PREVIEW_TABLE_HEADER@ + preview_rows(f)
    }
}

/// The preview comment of a findings artifact.
pub open spec fn preview_comment_spec(
    intent_id: Seq<char>,
    run_id: Seq<char>,
    a: ReviewFindingsArtifactRecord,
) -> Seq<char> {
    marker_spec(intent_id) + "\n## Symphony A4 review preview\n\nFactory run `"@ + run_id
        + "` reviewed head `"@ + a.reviewed_head_sha@ + "` against base `"@ + a.base_sha@
        + "`.\n\n"@ + trim_seq(a.manifest.spec_conformance_summary@) + "\n"@
        + preview_findings_part(a) + PREVIEW_FOOTER@
}

#[verifier::rlimit(40)]
pub fn render_preview_comment(
    intent_id: &str,
    run_id: &str,
    artifact: &ReviewFindingsArtifactRecord,
) -> (res: String)
    ensures
        res@ == preview_comment_spec(intent_id@, run_id@, *artifact),
{
    let mut body = review_comment_marker(intent_id);
    body.append("\n## Symphony A4 review preview\n\nFactory run `");
    body.append(run_id);
    body.append("` reviewed head `");
    body.append(artifact.reviewed_head_sha.as_str());
    body.append("` against base `");
    body.append(artifact.base_sha.as_str());
    body.append("`.\n\n");
    let summary = trim(artifact.manifest.spec_conformance_summary.as_str());
    body.append(summary.as_str());
    body.append("\n");
    let ghost head = body@;
    let findings = &artifact.manifest.findings;
    if artifact.manifest.no_findings {
        body.append(PREVIEW_NO_FINDINGS);
    } else {
        body.append("\nFindings: ");
        append_decimal(&mut body, artifact.finding_count as u64);
        body.append("\n");
        if findings.len() > 0 {
            body.append(PREVIEW_COUNT_HEADER);
            append_severity_row(&mut body, findings, ReviewSeverity::Blocking);
            append_severity_row(&mut body, findings, ReviewSeverity::Major);
            append_severity_row(&mut body, findings, ReviewSeverity::Minor);
            append_severity_row(&mut body, findings, ReviewSeverity::Nit);
        }
        body.append(PREVIEW_TABLE_HEADER);
        let ghost before_rows = body@;
        let mut i: usize = 0;
        while i < findings.len()
            invariant
                i <= findings@.len(),
                body@ == before_rows + preview_rows(findings@.take(i as int)),
            decreases findings@.len() - i,
        {
            proof {
                assert(findings@.take(i + 1).drop_last() =~= findings@.take(i as int));
            }
            append_preview_row(&mut body, &findings[i]);
            assert(body@ =~= before_rows + preview_rows(findings@.take(i + 1)));
            i = i + 1;
        }
        assert(findings@.take(findings@.len() as int) =~= findings@);
    }
    assert(body@ =~= head + preview_findings_part(*artifact));
    body.append(PREVIEW_FOOTER);
    assert(body@ =~= preview_comment_spec(intent_id@, run_id@, *artifact));
    body
}

} // verus!
