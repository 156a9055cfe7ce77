//! Validation of the spec artifact and of spec review findings.

use vstd::prelude::*;

use crate::specification::domain::{
    blocking_of, strings_view, ReviewFindings, ReviewFinding, ReviewVerdict, SpecArtifact,
    SPEC_ACCEPTANCE_CRITERIA_MAX_ITEMS, SPEC_ARTIFACT_MAX_BYTES, SPEC_FINDINGS_MAX_ITEMS,
    SPEC_LIST_ITEM_MAX_BYTES, SPEC_OPEN_DECISIONS_MAX_ITEMS, SPEC_SCHEMA_VERSION,
    SPEC_SECTION_MAX_BYTES,
};
use crate::text::{
    append_decimal, decimal, exceeds_utf8_bytes, is_blank, is_blank_str, utf8_len,
};

verus! {

/// A spec stage output that violates the artifact contract.
#[derive(Debug, Clone, PartialEq, Eq)]
pub struct SpecValidationError {
    pub field: String,
    pub message: String,
}

/// A violation as a pair of field name and message.
pub type Violation = Option<(Seq<char>, Seq<char>)>;

pub open spec fn error_view(e: SpecValidationError) -> (Seq<char>, Seq<char>) {
    (e.field@, e.message@)
}

/// The outcome of a validation, as the violation it reports.
pub open spec fn outcome_view(res: Result<(), SpecValidationError>) -> Violation {
    match res {
        Ok(()) => None,
        Err(e) => Some(error_view(e)),
    }
}

impl SpecValidationError {
    pub fn new(field: String, message: String) -> (res: Self)
        ensures
            res.field == field,
            res.message == message,
    {
        SpecValidationError { field, message }
    }

    /// The rendering `field: message`.
    pub fn to_display_string(&self) -> (res: String)
        ensures
            res@ == self.field@ + ": "@ + self.message@,
    {
        let mut out = self.field.clone();
        out.append(": ");
        out.append(self.message.as_str());
        out
    }
}

/// The first of two violations.
pub open spec fn first_of(a: Violation, b: Violation) -> Violation {
    if a is Some {
        a
    } else {
        b
    }
}

/// The rule for one free-text value: non-blank and at most `max` bytes.
pub open spec fn text_violation(field: Seq<char>, value: Seq<char>, max: nat) -> Violation {
    if is_blank(value) {
        Some((field, "must be non-empty"@))
    } else if utf8_len(value) > max {
        Some((field, "must be at most "@ + decimal(max) + " UTF-8 bytes"@))
    } else {
        None
    }
}

/// `field[i]`.
pub open spec fn indexed_field(field: Seq<char>, i: nat) -> Seq<char> {
    field + "["@ + decimal(i) + "]"@
}

/// The first list item, from index `i` on, that violates the item rule.
pub open spec fn items_violation(field: Seq<char>, values: Seq<Seq<char>>, i: nat) -> Violation
    decreases values.len() - i,
{
    if i >= values.len() {
        None
    } else {
        first_of(
            text_violation(indexed_field(field, i), values[i as int], SPEC_LIST_ITEM_MAX_BYTES as nat),
            items_violation(field, values, i + 1),
        )
    }
}

/// The rule for a bounded list of bounded items.
pub open spec fn list_violation(field: Seq<char>, values: Seq<Seq<char>>, min: nat, max: nat) -> Violation {
    if values.len() < min || values.len() > max {
        Some((field, "must contain "@ + decimal(min) + " to "@ + decimal(max) + " items"@))
    } else {
        items_violation(field, values, 0)
    }
}

/// The schema-version rule shared by both artifacts.
pub open spec fn schema_violation(version: u32) -> Violation {
    if version != SPEC_SCHEMA_VERSION {
        Some(("schema_version"@, "must be exactly "@ + decimal(SPEC_SCHEMA_VERSION as nat)))
    } else {
        None
    }
}

/// The first violation of the spec artifact contract, checked in the order
/// schema version, product behavior, technical approach, acceptance
/// criteria, open decisions.
pub open spec fn spec_violation(a: SpecArtifact) -> Violation {
    spec_parts_violation(
        a.schema_version,
        a.product_behavior@,
        a.technical_approach@,
        strings_view(a.acceptance_criteria@),
        strings_view(a.open_decisions@),
    )
}

/// The first violation of a spec given by its parts.
pub open spec fn spec_parts_violation(
    schema_version: u32,
    product_behavior: Seq<char>,
    technical_approach: Seq<char>,
    acceptance_criteria: Seq<Seq<char>>,
    open_decisions: Seq<Seq<char>>,
) -> Violation {
    first_of(
        schema_violation(schema_version),
        first_of(
            text_violation("product_behavior"@, product_behavior, SPEC_SECTION_MAX_BYTES as nat),
            first_of(
                text_violation(
                    "technical_approach"@,
                    technical_approach,
                    SPEC_SECTION_MAX_BYTES as nat,
                ),
                first_of(
                    list_violation(
                        "acceptance_criteria"@,
                        acceptance_criteria,
                        1,
                        SPEC_ACCEPTANCE_CRITERIA_MAX_ITEMS as nat,
                    ),
                    list_violation(
                        "open_decisions"@,
                        open_decisions,
                        0,
                        SPEC_OPEN_DECISIONS_MAX_ITEMS as nat,
                    ),
                ),
            ),
        ),
    )
}

/// `findings[i].<part>`.
pub open spec fn finding_field(i: nat, part: Seq<char>) -> Seq<char> {
    "findings["@ + decimal(i) + "]."@ + part
}

/// The first finding, from index `i` on, whose summary or recommendation
/// violates the item rule.
pub open spec fn findings_text_violation(findings: Seq<ReviewFinding>, i: nat) -> Violation
    decreases findings.len() - i,
{
    if i >= findings.len() {
        None
    } else {
        first_of(
            text_violation(
                finding_field(i, "summary"@),
                findings[i as int].summary@,
                SPEC_LIST_ITEM_MAX_BYTES as nat,
            ),
            first_of(
                text_violation(
                    finding_field(i, "recommendation"@),
                    findings[i as int].recommendation@,
                    SPEC_LIST_ITEM_MAX_BYTES as nat,
                ),
                findings_text_violation(findings, i + 1),
            ),
        )
    }
}

/// The verdict must agree with the blocking findings.
pub open spec fn verdict_violation(f: ReviewFindings) -> Violation {
    let blocking = blocking_of(f.findings@).len();
    match f.verdict {
        ReviewVerdict::Pass => if blocking > 0 {
            Some(("verdict"@, "'pass' requires zero blocking findings"@))
        } else {
            None
        },
        ReviewVerdict::Revise => if blocking == 0 {
            Some(("verdict"@, "'revise' requires at least one blocking finding"@))
        } else {
            None
        },
    }
}

/// The first violation of the review findings contract.
pub open spec fn findings_violation(f: ReviewFindings) -> Violation {
    first_of(
        schema_violation(f.schema_version),
        if f.findings@.len() > SPEC_FINDINGS_MAX_ITEMS {
            Some(
                (
                    "findings"@,
                    "must contain at most "@ + decimal(SPEC_FINDINGS_MAX_ITEMS as nat) + " items"@,
                ),
            )
        } else {
            first_of(findings_text_violation(f.findings@, 0), verdict_violation(f))
        },
    )
}

/// The message and field of an oversized or undecodable stage output.
pub open spec fn decode_violation(byte_len: nat, decoded: Result<(), Seq<char>>) -> Violation {
    if byte_len > SPEC_ARTIFACT_MAX_BYTES {
        Some(
            (
                "output"@,
                "artifact is "@ + decimal(byte_len) + " bytes; maximum is "@ + decimal(
                    SPEC_ARTIFACT_MAX_BYTES as nat,
                ) + " bytes"@,
            ),
        )
    } else {
        match decoded {
            Err(m) => Some(("output"@, "invalid JSON: "@ + m)),
            Ok(()) => None,
        }
    }
}

fn field_indexed(field: &str, index: usize) -> (res: String)
    ensures
        res@ == indexed_field(field@, index as nat),
{
    let mut out = field.to_owned();
    out.append("[");
    append_decimal(&mut out, index as u64);
    out.append("]");
    proof {
        reveal_strlit("[");
        reveal_strlit("]");
    }
    assert(out@ =~= indexed_field(field@, index as nat));
    out
}

/// One free-text value: non-blank and at most `max_bytes` UTF-8 bytes.
pub fn validate_text(field: &str, value: &str, max_bytes: usize) -> (res: Result<(), SpecValidationError>)
    ensures
        outcome_view(res) == text_violation(field@, value@, max_bytes as nat),
{
    if is_blank_str(value) {
        return Err(SpecValidationError::new(field.to_owned(), "must be non-empty".to_owned()));
    }
    if exceeds_utf8_bytes(value, max_bytes) {
        let mut message = "must be at most ".to_owned();
        append_decimal(&mut message, max_bytes as u64);
        message.append(" UTF-8 bytes");
        return Err(SpecValidationError::new(field.to_owned(), message));
    }
    Ok(())
}

/// A list of `min..=max` items, each a valid list item.
pub fn validate_list(field: &str, values: &Vec<String>, min: usize, max: usize) -> (res: Result<
    (),
    SpecValidationError,
>)
    ensures
        outcome_view(res) == list_violation(field@, strings_view(values@), min as nat, max as nat),
{
    if values.len() < min || values.len() > max {
        let mut message = "must contain ".to_owned();
        append_decimal(&mut message, min as u64);
        message.append(" to ");
        append_decimal(&mut message, max as u64);
        message.append(" items");
        return Err(SpecValidationError::new(field.to_owned(), message));
    }
    let ghost vs = strings_view(values@);
    assert(vs.len() == values@.len());
    assert(list_violation(field@, vs, min as nat, max as nat) == items_violation(field@, vs, 0));
    let mut i: usize = 0;
    while i < values.len()
        invariant
            vs == strings_view(values@),
            i <= values@.len(),
            items_violation(field@, vs, 0) == items_violation(field@, vs, i as nat),
            list_violation(field@, vs, min as nat, max as nat) == items_violation(field@, vs, 0),
        decreases values@.len() - i,
    {
        let item_field = field_indexed(field, i);
        let r = validate_text(item_field.as_str(), values[i].as_str(), SPEC_LIST_ITEM_MAX_BYTES);
        proof {
            assert(vs[i as int] == values@[i as int]@);
            assert(items_violation(field@, vs, i as nat) == first_of(
                text_violation(indexed_field(field@, i as nat), vs[i as int], SPEC_LIST_ITEM_MAX_BYTES as nat),
                items_violation(field@, vs, (i + 1) as nat),
            ));
        }
        if r.is_err() {
            return r;
        }
        i = i + 1;
    }
    Ok(())
}

/// The spec artifact contract.
pub fn validate_spec(artifact: &SpecArtifact) -> (res: Result<(), SpecValidationError>)
    ensures
        outcome_view(res) == spec_violation(*artifact),
{
    if artifact.schema_version != SPEC_SCHEMA_VERSION {
        let mut message = "must be exactly ".to_owned();
        append_decimal(&mut message, SPEC_SCHEMA_VERSION as u64);
        return Err(SpecValidationError::new("schema_version".to_owned(), message));
    }
    let r = validate_text(
        "product_behavior",
        artifact.product_behavior.as_str(),
        SPEC_SECTION_MAX_BYTES,
    );
    if r.is_err() {
        return r;
    }
    let r = validate_text(
        "technical_approach",
        artifact.technical_approach.as_str(),
        SPEC_SECTION_MAX_BYTES,
    );
    if r.is_err() {
        return r;
    }
    let r = validate_list(
        "acceptance_criteria",
        &artifact.acceptance_criteria,
        1,
        SPEC_ACCEPTANCE_CRITERIA_MAX_ITEMS,
    );
    if r.is_err() {
        return r;
    }
    validate_list("open_decisions", &artifact.open_decisions, 0, SPEC_OPEN_DECISIONS_MAX_ITEMS)
}

fn finding_field_exec(index: usize, part: &str) -> (res: String)
    ensures
        res@ == finding_field(index as nat, part@),
{
    let mut out = "findings[".to_owned();
    append_decimal(&mut out, index as u64);
    out.append("].");
    out.append(part);
    assert(out@ =~= finding_field(index as nat, part@));
    out
}

/// The review findings contract.
pub fn validate_findings(findings: &ReviewFindings) -> (res: Result<(), SpecValidationError>)
    ensures
        outcome_view(res) == findings_violation(*findings),
{
    if findings.schema_version != SPEC_SCHEMA_VERSION {
        let mut message = "must be exactly ".to_owned();
        append_decimal(&mut message, SPEC_SCHEMA_VERSION as u64);
        return Err(SpecValidationError::new("schema_version".to_owned(), message));
    }
    if findings.findings.len() > SPEC_FINDINGS_MAX_ITEMS {
        let mut message = "must contain at most ".to_owned();
        append_decimal(&mut message, SPEC_FINDINGS_MAX_ITEMS as u64);
        message.append(" items");
        return Err(SpecValidationError::new("findings".to_owned(), message));
    }
    let ghost fs = findings.findings@;
    assert(findings_violation(*findings) == first_of(
        findings_text_violation(fs, 0),
        verdict_violation(*findings),
    ));
    let mut i: usize = 0;
    while i < findings.findings.len()
        invariant
            fs == findings.findings@,
            i <= fs.len(),
            findings_text_violation(fs, 0) == findings_text_violation(fs, i as nat),
            findings_violation(*findings) == first_of(
                findings_text_violation(fs, 0),
                verdict_violation(*findings),
            ),
        decreases fs.len() - i,
    {
        proof {
            assert(findings_text_violation(fs, i as nat) == first_of(
                text_violation(
                    finding_field(i as nat, "summary"@),
                    fs[i as int].summary@,
                    SPEC_LIST_ITEM_MAX_BYTES as nat,
                ),
                first_of(
                    text_violation(
                        finding_field(i as nat, "recommendation"@),
                        fs[i as int].recommendation@,
                        SPEC_LIST_ITEM_MAX_BYTES as nat,
                    ),
                    findings_text_violation(fs, (i + 1) as nat),
                ),
            ));
        }
        let summary_field = finding_field_exec(i, "summary");
        let r = validate_text(
            summary_field.as_str(),
            findings.findings[i].summary.as_str(),
            SPEC_LIST_ITEM_MAX_BYTES,
        );
        if r.is_err() {
            return r;
        }
        let recommendation_field = finding_field_exec(i, "recommendation");
        let r = validate_text(
            recommendation_field.as_str(),
            findings.findings[i].recommendation.as_str(),
            SPEC_LIST_ITEM_MAX_BYTES,
        );
        if r.is_err() {
            return r;
        }
        i = i + 1;
    }
    let blocking = findings.blocking_count();
    match findings.verdict {
        ReviewVerdict::Pass => {
            if blocking > 0 {
                return Err(
                    SpecValidationError::new(
                        "verdict".to_owned(),
                        "'pass' requires zero blocking findings".to_owned(),
                    ),
                );
            }
        },
        ReviewVerdict::Revise => {
            if blocking == 0 {
                return Err(
                    SpecValidationError::new(
                        "verdict".to_owned(),
                        "'revise' requires at least one blocking finding".to_owned(),
                    ),
                );
            }
        },
    }
    Ok(())
}

fn decode_error(bytes_len: usize, decoded_err: Option<&String>) -> (res: SpecValidationError)
    requires
        bytes_len > SPEC_ARTIFACT_MAX_BYTES || decoded_err is Some,
    ensures
        Some(error_view(res)) == decode_violation(
            bytes_len as nat,
            match decoded_err {
                Some(m) => Err(m@),
                None => Ok(()),
            },
        ),
{
    if bytes_len > SPEC_ARTIFACT_MAX_BYTES {
        let mut message = "artifact is ".to_owned();
        append_decimal(&mut message, bytes_len as u64);
        message.append(" bytes; maximum is ");
        append_decimal(&mut message, SPEC_ARTIFACT_MAX_BYTES as u64);
        message.append(" bytes");
        SpecValidationError::new("output".to_owned(), message)
    } else {
        let mut message = "invalid JSON: ".to_owned();
        message.append(decoded_err.unwrap().as_str());
        SpecValidationError::new("output".to_owned(), message)
    }
}

/// The decoding outcome reduced to its error text.
pub open spec fn decoded_view<T>(decoded: Result<T, String>) -> Result<(), Seq<char>> {
    match decoded {
        Ok(_) => Ok(()),
        Err(m) => Err(m@),
    }
}

/// Accept a spec turn's output: `bytes` is the raw output and `decoded` what
/// strict JSON decoding made of it. Oversized output is refused before its
/// decoding is looked at.
pub fn parse_spec(bytes: &[u8], decoded: Result<SpecArtifact, String>) -> (res: Result<
    SpecArtifact,
    SpecValidationError,
>)
    ensures
        match res {
            Ok(a) => decoded == Ok::<SpecArtifact, String>(a) && decode_violation(
                bytes@.len(),
                Ok(()),
            ) is None && spec_violation(a) is None,
            Err(e) => Some(error_view(e)) == first_of(
                decode_violation(bytes@.len(), decoded_view(decoded)),
                match decoded {
                    Ok(a) => spec_violation(a),
                    Err(_) => None,
                },
            ),
        },
{
    match decoded {
        Ok(artifact) => {
            if bytes.len() > SPEC_ARTIFACT_MAX_BYTES {
                return Err(decode_error(bytes.len(), None));
            }
            match validate_spec(&artifact) {
                Ok(()) => Ok(artifact),
                Err(e) => Err(e),
            }
        },
        Err(message) => Err(decode_error(bytes.len(), Some(&message))),
    }
}

/// Accept a review turn's output, as [`parse_spec`] does for a spec.
pub fn parse_findings(bytes: &[u8], decoded: Result<ReviewFindings, String>) -> (res: Result<
    ReviewFindings,
    SpecValidationError,
>)
    ensures
        match res {
            Ok(f) => decoded == Ok::<ReviewFindings, String>(f) && decode_violation(
                bytes@.len(),
                Ok(()),
            ) is None && findings_violation(f) is None,
            Err(e) => Some(error_view(e)) == first_of(
                decode_violation(bytes@.len(), decoded_view(decoded)),
                match decoded {
                    Ok(f) => findings_violation(f),
                    Err(_) => None,
                },
            ),
        },
{
    match decoded {
        Ok(findings) => {
            if bytes.len() > SPEC_ARTIFACT_MAX_BYTES {
                return Err(decode_error(bytes.len(), None));
            }
            match validate_findings(&findings) {
                Ok(()) => Ok(findings),
                Err(e) => Err(e),
            }
        },
        Err(message) => Err(decode_error(bytes.len(), Some(&message))),
    }
}

} // verus!
