//! What workers tell each other: the block of shared notes put in a
//! worker's prompt, with each note's age, and the placeholder that marks
//! where the block goes.

use vstd::prelude::*;

use regex::Regex;

use crate::text::{append_decimal, decimal, is_blank, is_blank_str, join_seqs, str_eq};

verus! {

/// The placeholder a prompt template marks the shared context with: two
/// braces, `shared_context` with optional white space around it, two braces.
pub const SHARED_CONTEXT_PLACEHOLDER_PATTERN: &'static str = r"\{\{\s*shared_context\s*\}\}";

/// The placeholder occupies `s[i..b + 2]`, its name starting at `a`.
pub open spec fn placeholder_at(s: Seq<char>, i: int, a: int, b: int) -> bool {
    &&& 0 <= i && i + 2 <= a && a + 14 <= b && b + 2 <= s.len()
    &&& s.subrange(i, i + 2) == "{{"@
    &&& is_blank(s.subrange(i + 2, a))
    &&& s.subrange(a, a + 14) == "shared_context"@
    &&& is_blank(s.subrange(a + 14, b))
    &&& s.subrange(b, b + 2) == "}}"@
}

/// The placeholder occurs somewhere in the text.
pub open spec fn has_placeholder(s: Seq<char>) -> bool {
    exists|i: int, a: int, b: int| placeholder_at(s, i, a, b)
}

/// `Regex::is_match` of regex with the placeholder pattern, whose `\s`
/// is Unicode white space: the contract states the match as the pattern
/// reads, an unanchored search for the placeholder.
#[verifier::external_body]
fn placeholder_matches(pattern: &str, text: &str) -> (res: bool)
    requires
        pattern@ == SHARED_CONTEXT_PLACEHOLDER_PATTERN@,
    ensures
        res == has_placeholder(text@),
{
    Regex::new(pattern).unwrap().is_match(text)
}

/// A template that has no placeholder gets one in front of it.
pub fn ensure_shared_context_placeholder(prompt_template: String) -> (res: String)
    ensures
        res@ == if has_placeholder(prompt_template@) {
            prompt_template@
        } else {
            "{{ shared_context }}\n\n"@ + prompt_template@
        },
{
    if placeholder_matches(SHARED_CONTEXT_PLACEHOLDER_PATTERN, prompt_template.as_str()) {
        return prompt_template;
    }
    let mut out = "{{ shared_context }}\n\n".to_owned();
    out.append(prompt_template.as_str());
    out
}

/// The whole seconds from `created_at_ms` to `now_ms`, none when it lies
/// in the future.
pub open spec fn age_seconds(now_ms: i64, created_at_ms: i64) -> nat {
    if now_ms - created_at_ms > 0 {
        ((now_ms - created_at_ms) / 1000) as nat
    } else {
        0
    }
}

/// An age in its largest whole unit: `Ns ago`, `Nm ago`, `Nh ago` or
/// `Nd ago`.
pub open spec fn age_text(age: nat) -> Seq<char> {
    if age < 60 {
        decimal(age) + "s ago"@
    } else if age / 60 < 60 {
        decimal(age / 60) + "m ago"@
    } else if age / 3600 < 24 {
        decimal(age / 3600) + "h ago"@
    } else {
        decimal(age / 86400) + "d ago"@
    }
}

/// How long ago a note was written; times are Unix milliseconds.
pub fn format_shared_context_age(now_ms: i64, created_at_ms: i64) -> (res: String)
    ensures
        res@ == age_text(age_seconds(now_ms, created_at_ms)),
{
    let diff: i128 = now_ms as i128 - created_at_ms as i128;
    let age: u64 = if diff > 0 {
        (diff / 1000) as u64
    } else {
        0
    };
    let mut out = String::new();
    if age < 60 {
        append_decimal(&mut out, age);
        out.append("s ago");
    } else if age / 60 < 60 {
        append_decimal(&mut out, age / 60);
        out.append("m ago");
    } else if age / 3600 < 24 {
        assert(age / 60 / 60 == age / 3600);
        append_decimal(&mut out, age / 3600);
        out.append("h ago");
    } else {
        append_decimal(&mut out, age / 86400);
        out.append("d ago");
    }
    out
}

/// The workspace status put after the shared context: nothing changes when
/// it is missing or blank; otherwise it follows, after a blank line when
/// the shared context is not blank.
pub open spec fn with_workspace_status(shared: Seq<char>, status: Option<Seq<char>>) -> Seq<char> {
    match status {
        None => shared,
        Some(c) => if is_blank(c) {
            shared
        } else if is_blank(shared) {
            shared + c
        } else {
            shared + "\n\n"@ + c
        },
    }
}

pub fn append_workspace_status_context(
    shared_context: String,
    workspace_status_context: Option<&str>,
) -> (res: String)
    ensures
        res@ == with_workspace_status(
            shared_context@,
            match workspace_status_context {
                Some(c) => Some(c@),
                None => None,
            },
        ),
{
    let status = match workspace_status_context {
        Some(c) => c,
        None => {
            return shared_context;
        },
    };
    if is_blank_str(status) {
        return shared_context;
    }
    let mut out = shared_context;
    if !is_blank_str(out.as_str()) {
        out.append("\n\n");
    }
    out.append(status);
    out
}

/// A note another worker left: who wrote it, the scope it was written to
/// (as it is shown), what it says, and when (Unix milliseconds).
#[derive(Debug, Clone, PartialEq, Eq)]
pub struct SharedContextEntry {
    pub author_issue: String,
    pub scope: String,
    pub content: String,
    pub created_at_ms: i64,
}

/// How many notes a prompt shows at most.
pub const SHARED_CONTEXT_MAX_ENTRIES: usize = 10;

/// The notes not written by the reader, in order.
pub open spec fn notes_by_others(entries: Seq<SharedContextEntry>, reader: Seq<char>) -> Seq<
    SharedContextEntry,
>
    decreases entries.len(),
{
    if entries.len() == 0 {
        Seq::empty()
    } else {
        let rest = notes_by_others(entries.drop_last(), reader);
        if entries.last().author_issue@ != reader {
            rest.push(entries.last())
        } else {
            rest
        }
    }
}

/// One note as a line: `- [author] (age, scope): content`.
pub open spec fn note_line(e: SharedContextEntry, now_ms: i64) -> Seq<char> {
    "- ["@ + e.author_issue@ + "] ("@ + age_text(age_seconds(now_ms, e.created_at_ms)) + ", "@
        + e.scope@ + "): "@ + e.content@
}

/// The shared-context block of a prompt: empty when no other worker left a
/// note; else a heading, a blank line, and the first ten notes of others,
/// one per line.
pub open spec fn shared_context_block_spec(
    entries: Seq<SharedContextEntry>,
    reader: Seq<char>,
    now_ms: i64,
) -> Seq<char> {
    let all = notes_by_others(entries, reader);
    let shown = if all.len() > SHARED_CONTEXT_MAX_ENTRIES {
        all.take(SHARED_CONTEXT_MAX_ENTRIES as int)
    } else {
        all
    };
    if shown.len() == 0 {
        Seq::empty()
    } else {
        join_seqs(
            seq!["## Shared Context from Other Workers"@, Seq::<char>::empty()] + shown.map_values(
                |e: SharedContextEntry| note_line(e, now_ms),
            ),
            "\n"@,
        )
    }
}

fn note_line_exec(e: &SharedContextEntry, now_ms: i64) -> (res: String)
    ensures
        res@ == note_line(*e, now_ms),
{
    let mut out = "- [".to_owned();
    out.append(e.author_issue.as_str());
    out.append("] (");
    let age = format_shared_context_age(now_ms, e.created_at_ms);
    out.append(age.as_str());
    out.append(", ");
    out.append(e.scope.as_str());
    out.append("): ");
    out.append(e.content.as_str());
    out
}

proof fn lemma_join_push(items: Seq<Seq<char>>, x: Seq<char>, sep: Seq<char>)
    requires
        items.len() > 0,
    ensures
        join_seqs(items.push(x), sep) == join_seqs(items, sep) + sep + x,
    decreases items.len(),
{
    if items.len() == 1 {
        assert(items.push(x).drop_first() =~= seq![x]);
        assert(join_seqs(seq![x], sep) == x);
    } else {
        assert(items.push(x).drop_first() =~= items.drop_first().push(x));
        lemma_join_push(items.drop_first(), x, sep);
    }
}

/// The shared-context block a worker on `reader_issue` gets from the notes
/// read for it.
pub fn build_shared_context_block(
    entries: &Vec<SharedContextEntry>,
    reader_issue: &str,
    now_ms: i64,
) -> (res: String)
    ensures
        res@ == shared_context_block_spec(entries@, reader_issue@, now_ms),
{
    let ghost header = seq!["## Shared Context from Other Workers"@, Seq::<char>::empty()];
    let mut out = "## Shared Context from Other Workers\n".to_owned();
    let mut count: usize = 0;
    let mut i: usize = 0;
    proof {
        reveal_strlit("## Shared Context from Other Workers\n");
        reveal_strlit("## Shared Context from Other Workers");
        reveal_strlit("\n");
        reveal_with_fuel(join_seqs, 3);
        assert(header.drop_first() =~= seq![Seq::<char>::empty()]);
        assert(entries@.take(0) =~= Seq::<SharedContextEntry>::empty());
        assert(header + Seq::<SharedContextEntry>::empty().map_values(
            |e: SharedContextEntry| note_line(e, now_ms),
        ) =~= header);
        assert(out@ =~= join_seqs(header, "\n"@));
    }
    while i < entries.len() && count < SHARED_CONTEXT_MAX_ENTRIES
        invariant
            i <= entries@.len(),
            header == seq!["## Shared Context from Other Workers"@, Seq::<char>::empty()],
            count <= SHARED_CONTEXT_MAX_ENTRIES,
            count == notes_by_others(entries@.take(i as int), reader_issue@).len(),
            out@ == join_seqs(
                header + notes_by_others(entries@.take(i as int), reader_issue@).map_values(
                    |e: SharedContextEntry| note_line(e, now_ms),
                ),
                "\n"@,
            ),
        decreases entries@.len() - i,
    {
        let ghost prev = notes_by_others(entries@.take(i as int), reader_issue@);
        proof {
            assert(entries@.take(i + 1).drop_last() =~= entries@.take(i as int));
            assert(entries@.take(i + 1).last() == entries@[i as int]);
        }
        if !str_eq(entries[i].author_issue.as_str(), reader_issue) {
            let line = note_line_exec(&entries[i], now_ms);
            out.append("\n");
            out.append(line.as_str());
            count = count + 1;
            proof {
                let lines = header + prev.map_values(|e: SharedContextEntry| note_line(e, now_ms));
                assert(header + prev.push(entries@[i as int]).map_values(
                    |e: SharedContextEntry| note_line(e, now_ms),
                ) =~= lines.push(note_line(entries@[i as int], now_ms)));
                lemma_join_push(lines, note_line(entries@[i as int], now_ms), "\n"@);
            }
        }
        i = i + 1;
    }
    proof {
        let all = notes_by_others(entries@, reader_issue@);
        let taken = notes_by_others(entries@.take(i as int), reader_issue@);
        if i == entries@.len() {
            assert(entries@.take(i as int) =~= entries@);
        } else {
            lemma_notes_prefix(entries@, reader_issue@, i as int);
            assert(count == SHARED_CONTEXT_MAX_ENTRIES);
            assert(all.take(SHARED_CONTEXT_MAX_ENTRIES as int) =~= taken);
            if all.len() == SHARED_CONTEXT_MAX_ENTRIES {
                assert(all =~= taken);
            }
        }
    }
    if count == 0 {
        return String::new();
    }
    out
}

/// The notes of a prefix are a prefix of the notes.
proof fn lemma_notes_prefix(entries: Seq<SharedContextEntry>, reader: Seq<char>, i: int)
    requires
        0 <= i <= entries.len(),
    ensures
        notes_by_others(entries.take(i), reader).len() <= notes_by_others(entries, reader).len(),
        notes_by_others(entries, reader).take(notes_by_others(entries.take(i), reader).len() as int)
            =~= notes_by_others(entries.take(i), reader),
    decreases entries.len() - i,
{
    if i == entries.len() {
        assert(entries.take(i) =~= entries);
    } else {
        lemma_notes_prefix(entries, reader, i + 1);
        assert(entries.take(i + 1).drop_last() =~= entries.take(i));
        assert(entries.take(i + 1).last() == entries[i]);
    }
}

} // verus!

verus! {

/// No note a worker wrote comes back to it: every note shown to a reader
/// was written by another worker.
pub proof fn lemma_own_notes_are_never_shown(entries: Seq<SharedContextEntry>, reader: Seq<char>, k: int)
    requires
        0 <= k < notes_by_others(entries, reader).len(),
    ensures
        notes_by_others(entries, reader)[k].author_issue@ != reader,
        notes_by_others(entries, reader).len() <= entries.len(),
    decreases entries.len(),
{
    let rest = notes_by_others(entries.drop_last(), reader);
    if k < rest.len() {
        lemma_own_notes_are_never_shown(entries.drop_last(), reader, k);
    } else {
        if rest.len() > 0 {
            lemma_own_notes_are_never_shown(entries.drop_last(), reader, 0);
        }
    }
}

} // verus!
