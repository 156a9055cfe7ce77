//! The revision of an intake issue: a digest of the human content a spec is
//! written from, so that a new revision means new human input.

use vstd::prelude::*;
use vstd::utf8::encode_utf8;

use crate::digest::{hex_lower, sha256_digest, sha256_hex};
use crate::domain::ServiceConfig;
use crate::json::{
    items_text, json_text, json_u64, lemma_items_text_push, opt_quoted,
    push_entry, quoted, to_json_text, JsonValue,
};
use crate::orchestrator::escalation::string_views;
use crate::orchestrator::events::opt_view;
use crate::specification::coordinator::{
    lemma_own_comment_keeps_revision, managed_labels_spec, managed_revision_labels, revision_comments, revision_comments_spec,
    revision_labels, revision_labels_spec, TriageIntakeIssue,
};
use crate::specification::decision::{publisher_owned, IntakeComment};
use crate::text::decimal;

verus! {

/// The text a UTC time given in Unix milliseconds is serialized as
/// (RFC 3339, `Z` for UTC, fractional seconds only when there are any);
/// nothing for a time outside chrono's range.
pub uninterp spec fn utc_rfc3339(ms: i64) -> Option<Seq<char>>;

/// `DateTime::<Utc>::from_timestamp_millis` of chrono, then
/// `to_rfc3339_opts(SecondsFormat::AutoSi, true)`, the form chrono's serde
/// writes a time in. Claimed: the text is a function of the milliseconds
/// alone, and there is none exactly when chrono has no such time.
#[verifier::external_body]
fn utc_rfc3339_text(ms: i64) -> (res: Option<String>)
    ensures
        opt_view(res) == utc_rfc3339(ms),
{
    match chrono::DateTime::<chrono::Utc>::from_timestamp_millis(ms) {
        Some(t) => Some(t.to_rfc3339_opts(chrono::SecondsFormat::AutoSi, true)),
        None => None,
    }
}

/// Texts as JSON strings, separated by commas.
pub open spec fn strings_text(s: Seq<Seq<char>>) -> Seq<char>
    decreases s.len(),
{
    if s.len() == 0 {
        Seq::empty()
    } else if s.len() == 1 {
        quoted(s[0])
    } else {
        strings_text(s.drop_last()) + seq![','] + quoted(s.last())
    }
}

/// A comment as it counts toward a revision: its body, times and id, keys
/// in order.
pub open spec fn comment_text(c: IntakeComment) -> Seq<char> {
    seq!['{'] + (quoted("body"@) + seq![':'] + quoted(c.body@) + seq![','] + quoted("created_at"@)
        + seq![':'] + opt_quoted(utc_rfc3339(c.created_at_ms)) + seq![','] + quoted("id"@) + seq![
        ':',
    ] + decimal(c.id as nat) + seq![','] + quoted("updated_at"@) + seq![':'] + opt_quoted(
        utc_rfc3339(c.updated_at_ms),
    )) + seq!['}']
}

/// Comments' texts, separated by commas.
pub open spec fn comments_text(s: Seq<IntakeComment>) -> Seq<char>
    decreases s.len(),
{
    if s.len() == 0 {
        Seq::empty()
    } else if s.len() == 1 {
        comment_text(s[0])
    } else {
        comments_text(s.drop_last()) + seq![','] + comment_text(s.last())
    }
}

/// A milestone as its number and title, or `null`.
pub open spec fn milestone_text(m: Option<(u64, String)>) -> Seq<char> {
    match m {
        Some((n, t)) => seq!['['] + decimal(n as nat) + seq![','] + quoted(t@) + seq![']'],
        None => "null"@,
    }
}

/// The compact JSON text whose digest is an issue's revision: its title,
/// body, the labels it is not managed by, assignees, milestone and the
/// comments that are not Symphony's own, keys in order. The issue's own
/// update time is left out: publishing a spec comment bumps it.
pub open spec fn revision_text(
    issue: TriageIntakeIssue,
    managed: Seq<String>,
    publisher_login: Seq<char>,
) -> Seq<char> {
    revision_fields_text(
        issue.assignees@,
        issue.body@,
        revision_comments_spec(issue.comments@, publisher_login),
        revision_labels_spec(issue.labels@, managed),
        issue.milestone,
        issue.title@,
    )
}

/// Items' text inside brackets.
pub open spec fn array_text(items: Seq<char>) -> Seq<char> {
    seq!['['] + items + seq![']']
}

/// The object of an issue's revision fields, keys in order.
pub open spec fn revision_fields_text(
    assignees: Seq<String>,
    body: Seq<char>,
    comments: Seq<IntakeComment>,
    labels: Seq<String>,
    milestone: Option<(u64, String)>,
    title: Seq<char>,
) -> Seq<char> {
    seq!['{'] + (quoted("assignees"@) + seq![':'] + array_text(strings_text(string_views(assignees)))
        + seq![','] + quoted("body"@) + seq![':'] + quoted(body) + seq![','] + quoted("comments"@)
        + seq![':'] + array_text(comments_text(comments)) + seq![','] + quoted("labels"@) + seq![':']
        + array_text(strings_text(string_views(labels))) + seq![','] + quoted("milestone"@) + seq![
        ':',
    ] + milestone_text(milestone) + seq![','] + quoted("title"@) + seq![':'] + quoted(title))
        + seq!['}']
}

fn string_array(v: &Vec<String>) -> (res: JsonValue)
    ensures
        json_text(res) == array_text(strings_text(string_views(v@))),
{
    let ghost sv = string_views(v@);
    let mut items: Vec<JsonValue> = Vec::new();
    let mut i: usize = 0;
    while i < v.len()
        invariant
            i <= v@.len(),
            sv == string_views(v@),
            items_text(items@) == strings_text(sv.take(i as int)),
            items@.len() == i,
        decreases v@.len() - i,
    {
        let item = JsonValue::Str(v[i].clone());
        proof {
            lemma_items_text_push(items@, item);
            assert(sv.take(i + 1).drop_last() =~= sv.take(i as int));
            assert(sv.take(i + 1).last() == v@[i as int]@);
            if i == 0 {
                assert(sv.take(1).len() == 1);
            }
        }
        items.push(item);
        i = i + 1;
    }
    assert(sv.take(v@.len() as int) =~= sv);
    JsonValue::Array(items)
}

fn time_json(t: Option<String>) -> (res: JsonValue)
    ensures
        json_text(res) == opt_quoted(opt_view(t)),
{
    match t {
        Some(s) => JsonValue::Str(s),
        None => JsonValue::Null,
    }
}

fn comment_json(c: &IntakeComment) -> (res: JsonValue)
    ensures
        json_text(res) == comment_text(*c),
{
    let mut entries: Vec<(String, JsonValue)> = Vec::new();
    push_entry(&mut entries, "body", JsonValue::Str(c.body.clone()));
    push_entry(&mut entries, "created_at", time_json(utc_rfc3339_text(c.created_at_ms)));
    push_entry(&mut entries, "id", json_u64(c.id));
    push_entry(&mut entries, "updated_at", time_json(utc_rfc3339_text(c.updated_at_ms)));
    JsonValue::Object(entries)
}

fn comment_array(v: &Vec<IntakeComment>) -> (res: JsonValue)
    ensures
        json_text(res) == array_text(comments_text(v@)),
{
    let mut items: Vec<JsonValue> = Vec::new();
    let mut i: usize = 0;
    while i < v.len()
        invariant
            i <= v@.len(),
            items_text(items@) == comments_text(v@.take(i as int)),
            items@.len() == i,
        decreases v@.len() - i,
    {
        let item = comment_json(&v[i]);
        proof {
            lemma_items_text_push(items@, item);
            assert(v@.take(i + 1).drop_last() =~= v@.take(i as int));
            assert(v@.take(i + 1).last() == v@[i as int]);
            if i == 0 {
                assert(v@.take(1).len() == 1);
            }
        }
        items.push(item);
        i = i + 1;
    }
    assert(v@.take(v@.len() as int) =~= v@);
    JsonValue::Array(items)
}

fn milestone_json(m: &Option<(u64, String)>) -> (res: JsonValue)
    ensures
        json_text(res) == milestone_text(*m),
{
    match m {
        Some((n, t)) => {
            let mut items: Vec<JsonValue> = Vec::new();
            let a = json_u64(*n);
            let b = JsonValue::Str(t.clone());
            proof {
                lemma_items_text_push(items@, a);
            }
            items.push(a);
            proof {
                lemma_items_text_push(items@, b);
            }
            items.push(b);
            JsonValue::Array(items)
        },
        None => JsonValue::Null,
    }
}

fn revision_fields_json(
    assignees: &Vec<String>,
    body: &String,
    comments: &Vec<IntakeComment>,
    labels: &Vec<String>,
    milestone: &Option<(u64, String)>,
    title: &String,
) -> (res: String)
    ensures
        res@ == revision_fields_text(assignees@, body@, comments@, labels@, *milestone, title@),
{
    let mut entries: Vec<(String, JsonValue)> = Vec::new();
    push_entry(&mut entries, "assignees", string_array(assignees));
    push_entry(&mut entries, "body", JsonValue::Str(body.clone()));
    push_entry(&mut entries, "comments", comment_array(comments));
    push_entry(&mut entries, "labels", string_array(labels));
    push_entry(&mut entries, "milestone", milestone_json(milestone));
    push_entry(&mut entries, "title", JsonValue::Str(title.clone()));
    let value = JsonValue::Object(entries);
    to_json_text(&value)
}

/// The JSON text whose digest is the issue's revision.
pub fn revision_json_text(issue: &TriageIntakeIssue, service: &ServiceConfig, publisher_login: &str)
    -> (res: String)
    ensures
        res@ == revision_text(*issue, managed_labels_spec(*service), publisher_login@),
{
    let managed = managed_revision_labels(service);
    let labels = revision_labels(&issue.labels, &managed);
    let comments = revision_comments(&issue.comments, publisher_login);
    revision_fields_json(&issue.assignees, &issue.body, &comments, &labels, &issue.milestone, &issue.title)
}

/// The revision of an intake issue: the lowercase hex SHA-256 digest of
/// the UTF-8 bytes of its revision text.
pub fn spec_issue_revision(issue: &TriageIntakeIssue, service: &ServiceConfig, publisher_login: &str)
    -> (res: String)
    ensures
        res@ == hex_lower(
            sha256_digest(encode_utf8(revision_text(*issue, managed_labels_spec(*service), publisher_login@))),
        ),
{
    let text = revision_json_text(issue, service, publisher_login);
    sha256_hex(text.as_str().as_bytes())
}

/// Symphony's own comment on an issue, and the update time its publication
/// bumps, leave the issue's revision text unchanged, so publishing a spec
/// never looks like new human input; any other comment changes it, so human
/// feedback always does.
pub proof fn lemma_only_human_comments_change_the_revision(
    issue: TriageIntakeIssue,
    after: TriageIntakeIssue,
    added: IntakeComment,
    managed: Seq<String>,
    publisher_login: Seq<char>,
)
    requires
        after.title == issue.title,
        after.body == issue.body,
        after.labels == issue.labels,
        after.assignees == issue.assignees,
        after.milestone == issue.milestone,
        after.comments@ == issue.comments@.push(added),
    ensures
        publisher_owned(added, publisher_login) ==> revision_text(after, managed, publisher_login)
            == revision_text(issue, managed, publisher_login),
        !publisher_owned(added, publisher_login) ==> revision_text(after, managed, publisher_login)
            != revision_text(issue, managed, publisher_login),
{
    lemma_own_comment_keeps_revision(issue.comments@, added, publisher_login);
    let before = revision_comments_spec(issue.comments@, publisher_login);
    if !publisher_owned(added, publisher_login) {
        let grown = before.push(added);
        assert(grown.drop_last() =~= before);
        if before.len() == 0 {
            assert(grown.len() == 1);
            assert(comments_text(grown) == comment_text(grown[0]));
        }
        assert(comments_text(grown).len() > comments_text(before).len());
        assert(revision_text(after, managed, publisher_login).len() > revision_text(
            issue,
            managed,
            publisher_login,
        ).len());
    }
}

} // verus!
