//! Retries: their delays, the book of scheduled retries keyed by issue, the
//! tokens that make a stale timer harmless, and what a due retry leads to.

use vstd::prelude::*;

use crate::domain::{clone_opt, table_lookup};
use crate::orchestrator::events::opt_view;
use crate::orchestrator::runtime::RuntimeEvent;
use crate::text::{append_decimal, decimal, str_eq};

verus! {

pub const CONTINUATION_RETRY_DELAY_MS: i64 = 1_000;

pub const FAILURE_RETRY_BASE_MS: i64 = 10_000;

/// Why a retry is scheduled: a continuation of finished work, or a failure
/// that backs off.
#[derive(Debug, Clone, Copy, PartialEq, Eq, Structural)]
pub enum RetryKind {
    Continuation,
    Failure,
}

/// `2^p`.
pub open spec fn pow2(p: nat) -> nat
    decreases p,
{
    if p == 0 {
        1
    } else {
        2 * pow2((p - 1) as nat)
    }
}

/// A continuation waits one second; a failure waits ten seconds doubled
/// for each attempt after the first (at most ten doublings), capped by the
/// configured maximum backoff (itself capped at `i64::MAX`).
pub open spec fn retry_delay_spec(kind: RetryKind, attempt: u32, max_retry_backoff_ms: u64) -> int {
    match kind {
        RetryKind::Continuation => CONTINUATION_RETRY_DELAY_MS as int,
        RetryKind::Failure => {
            let max_backoff: int = if max_retry_backoff_ms > i64::MAX {
                i64::MAX as int
            } else {
                max_retry_backoff_ms as int
            };
            let safe_attempt: int = if attempt > 1 {
                attempt as int
            } else {
                1
            };
            let power: nat = if safe_attempt - 1 > 10 {
                10
            } else {
                (safe_attempt - 1) as nat
            };
            let exponential: int = FAILURE_RETRY_BASE_MS * pow2(power);
            if exponential < max_backoff {
                exponential
            } else {
                max_backoff
            }
        },
    }
}

pub fn retry_delay_ms(kind: RetryKind, attempt: u32, max_retry_backoff_ms: u64) -> (res: i64)
    ensures
        res == retry_delay_spec(kind, attempt, max_retry_backoff_ms),
        0 <= res,
{
    match kind {
        RetryKind::Continuation => CONTINUATION_RETRY_DELAY_MS,
        RetryKind::Failure => {
            let max_backoff: i64 = if max_retry_backoff_ms > i64::MAX as u64 {
                i64::MAX
            } else {
                max_retry_backoff_ms as i64
            };
            let safe_attempt: u32 = if attempt > 1 {
                attempt
            } else {
                1
            };
            let power: u32 = if safe_attempt - 1 > 10 {
                10
            } else {
                safe_attempt - 1
            };
            let mut exponential: i64 = FAILURE_RETRY_BASE_MS;
            let mut k: u32 = 0;
            while k < power
                invariant
                    k <= power <= 10,
                    exponential == FAILURE_RETRY_BASE_MS * pow2(k as nat),
                    pow2(k as nat) <= 1024,
                decreases power - k,
            {
                proof {
                    assert(pow2((k + 1) as nat) == 2 * pow2(k as nat));
                    if k < 10 {
                        lemma_pow2_bounded((k + 1) as nat);
                    }
                }
                exponential = exponential * 2;
                k = k + 1;
            }
            if exponential < max_backoff {
                exponential
            } else {
                max_backoff
            }
        },
    }
}

proof fn lemma_pow2_monotonic(p: nat, q: nat)
    requires
        p <= q,
    ensures
        pow2(p) <= pow2(q),
    decreases q - p,
{
    if p < q {
        lemma_pow2_monotonic(p, (q - 1) as nat);
    }
}

proof fn lemma_pow2_bounded(p: nat)
    requires
        p <= 10,
    ensures
        pow2(p) <= 1024,
{
    lemma_pow2_monotonic(p, 10);
    assert(pow2(10) == 1024) by {
        reveal_with_fuel(pow2, 11);
    }
}

/// Where a retry should run again: the prior worker host, workspace and
/// session.
#[derive(Debug, Clone, PartialEq, Eq)]
pub struct RetryContext {
    pub worker_host: Option<String>,
    pub workspace_path: Option<String>,
    pub session_id: Option<String>,
}

impl Default for RetryContext {
    fn default() -> (res: Self)
        ensures
            res.worker_host is None,
            res.workspace_path is None,
            res.session_id is None,
    {
        RetryContext { worker_host: None, workspace_path: None, session_id: None }
    }
}

/// A scheduled retry of an issue.
#[derive(Debug, Clone, PartialEq, Eq)]
pub struct RetryEntry {
    pub issue_id: String,
    pub identifier: String,
    pub attempt: u32,
    pub due_at_ms: i64,
    pub timer_handle: Option<String>,
    pub error: Option<String>,
    pub worker_host: Option<String>,
    pub workspace_path: Option<String>,
}

/// The first entry for an issue.
pub open spec fn entry_for(entries: Seq<RetryEntry>, issue_id: Seq<char>) -> Option<RetryEntry>
    decreases entries.len(),
{
    if entries.len() == 0 {
        None
    } else if entries[0].issue_id@ == issue_id {
        Some(entries[0])
    } else {
        entry_for(entries.drop_first(), issue_id)
    }
}

/// The retries the orchestrator has scheduled, the live timer token of
/// each issue (the last token handed out for it), and the agent session
/// each issue's retry resumes.
pub struct RetryBook {
    pub next_retry_token: u64,
    pub tokens: Vec<(String, String)>,
    pub entries: Vec<RetryEntry>,
    pub session_ids: Vec<(String, String)>,
}

/// The session an issue's worker resumes.
pub open spec fn session_for(book: RetryBook, issue_id: Seq<char>) -> Option<Seq<char>> {
    match table_lookup(book.session_ids@, issue_id) {
        Some(t) => Some(t@),
        None => None,
    }
}

/// The live token of an issue.
pub open spec fn token_for(book: RetryBook, issue_id: Seq<char>) -> Option<Seq<char>> {
    match table_lookup(book.tokens@, issue_id) {
        Some(t) => Some(t@),
        None => None,
    }
}

/// The scheduled retry of an issue.
pub open spec fn retry_for(book: RetryBook, issue_id: Seq<char>) -> Option<RetryEntry> {
    entry_for(book.entries@, issue_id)
}

/// The text of the `n`th retry token.
pub open spec fn token_text(n: nat) -> Seq<char> {
    "retry-"@ + decimal(n)
}

proof fn lemma_table_lookup_push(table: Seq<(String, String)>, x: (String, String), key: Seq<char>)
    ensures
        table_lookup(table.push(x), key) == (if table_lookup(table, key) is Some {
            table_lookup(table, key)
        } else if x.0@ == key {
            Some(x.1)
        } else {
            None
        }),
    decreases table.len(),
{
    if table.len() == 0 {
        assert(table.push(x).drop_first() =~= table);
    } else {
        assert(table.push(x).drop_first() =~= table.drop_first().push(x));
        lemma_table_lookup_push(table.drop_first(), x, key);
    }
}

proof fn lemma_entry_for_push(entries: Seq<RetryEntry>, x: RetryEntry, key: Seq<char>)
    ensures
        entry_for(entries.push(x), key) == (if entry_for(entries, key) is Some {
            entry_for(entries, key)
        } else if x.issue_id@ == key {
            Some(x)
        } else {
            None
        }),
    decreases entries.len(),
{
    if entries.len() == 0 {
        assert(entries.push(x).drop_first() =~= entries);
    } else {
        assert(entries.push(x).drop_first() =~= entries.drop_first().push(x));
        lemma_entry_for_push(entries.drop_first(), x, key);
    }
}

/// The token table without the issue's token.
fn tokens_without(tokens: &Vec<(String, String)>, issue_id: &str) -> (res: Vec<(String, String)>)
    ensures
        forall|k: Seq<char>|
            #[trigger] table_lookup(res@, k) == (if k == issue_id@ {
                None
            } else {
                table_lookup(tokens@, k)
            }),
{
    let mut out: Vec<(String, String)> = Vec::new();
    let mut i: usize = 0;
    while i < tokens.len()
        invariant
            i <= tokens@.len(),
            forall|k: Seq<char>|
                #[trigger] table_lookup(out@, k) == (if k == issue_id@ {
                    None
                } else {
                    table_lookup(tokens@.take(i as int), k)
                }),
        decreases tokens@.len() - i,
    {
        let ghost before = out@;
        proof {
            assert(tokens@.take(i + 1) =~= tokens@.take(i as int).push(tokens@[i as int]));
        }
        if !str_eq(tokens[i].0.as_str(), issue_id) {
            out.push((tokens[i].0.clone(), tokens[i].1.clone()));
            proof {
                assert forall|k: Seq<char>| #[trigger] table_lookup(out@, k) == (if k == issue_id@ {
                    None
                } else {
                    table_lookup(tokens@.take(i + 1), k)
                }) by {
                    lemma_table_lookup_push(before, out@.last(), k);
                    lemma_table_lookup_push(tokens@.take(i as int), tokens@[i as int], k);
                }
            }
        } else {
            proof {
                assert forall|k: Seq<char>| #[trigger] table_lookup(out@, k) == (if k == issue_id@ {
                    None
                } else {
                    table_lookup(tokens@.take(i + 1), k)
                }) by {
                    lemma_table_lookup_push(tokens@.take(i as int), tokens@[i as int], k);
                }
            }
        }
        i = i + 1;
    }
    proof {
        assert(tokens@.take(tokens@.len() as int) =~= tokens@);
    }
    out
}

fn clone_entry(e: &RetryEntry) -> (res: RetryEntry)
    ensures
        res == *e,
{
    RetryEntry {
        issue_id: e.issue_id.clone(),
        identifier: e.identifier.clone(),
        attempt: e.attempt,
        due_at_ms: e.due_at_ms,
        timer_handle: clone_opt(&e.timer_handle),
        error: clone_opt(&e.error),
        worker_host: clone_opt(&e.worker_host),
        workspace_path: clone_opt(&e.workspace_path),
    }
}

/// The entries without the issue's entry.
fn entries_without(entries: &Vec<RetryEntry>, issue_id: &str) -> (res: Vec<RetryEntry>)
    ensures
        forall|k: Seq<char>|
            #[trigger] entry_for(res@, k) == (if k == issue_id@ {
                None
            } else {
                entry_for(entries@, k)
            }),
{
    let mut out: Vec<RetryEntry> = Vec::new();
    let mut i: usize = 0;
    while i < entries.len()
        invariant
            i <= entries@.len(),
            forall|k: Seq<char>|
                #[trigger] entry_for(out@, k) == (if k == issue_id@ {
                    None
                } else {
                    entry_for(entries@.take(i as int), k)
                }),
        decreases entries@.len() - i,
    {
        let ghost before = out@;
        proof {
            assert(entries@.take(i + 1) =~= entries@.take(i as int).push(entries@[i as int]));
        }
        if !str_eq(entries[i].issue_id.as_str(), issue_id) {
            out.push(clone_entry(&entries[i]));
            proof {
                assert forall|k: Seq<char>| #[trigger] entry_for(out@, k) == (if k == issue_id@ {
                    None
                } else {
                    entry_for(entries@.take(i + 1), k)
                }) by {
                    lemma_entry_for_push(before, out@.last(), k);
                    lemma_entry_for_push(entries@.take(i as int), entries@[i as int], k);
                }
            }
        } else {
            proof {
                assert forall|k: Seq<char>| #[trigger] entry_for(out@, k) == (if k == issue_id@ {
                    None
                } else {
                    entry_for(entries@.take(i + 1), k)
                }) by {
                    lemma_entry_for_push(entries@.take(i as int), entries@[i as int], k);
                }
            }
        }
        i = i + 1;
    }
    proof {
        assert(entries@.take(entries@.len() as int) =~= entries@);
    }
    out
}

/// What scheduling a retry does: the issue's token and entry are replaced
/// and every other issue's are kept.
pub open spec fn schedule_post(
    old_book: RetryBook,
    new_book: RetryBook,
    issue_id: Seq<char>,
    token: Seq<char>,
) -> bool {
    &&& token_for(new_book, issue_id) == Some(token)
    &&& retry_for(new_book, issue_id) is Some
    &&& forall|k: Seq<char>|
        k != issue_id ==> #[trigger] token_for(new_book, k) == token_for(old_book, k)
            && retry_for(new_book, k) == retry_for(old_book, k)
}

/// What firing a retry timer does: a timer whose token is the issue's live
/// token consumes the token and the entry and fires when the entry was
/// there; any other timer changes nothing and does not fire.
pub open spec fn fire_post(
    old_book: RetryBook,
    new_book: RetryBook,
    issue_id: Seq<char>,
    token: Seq<char>,
    fired: bool,
) -> bool {
    if token_for(old_book, issue_id) == Some(token) {
        &&& fired == (retry_for(old_book, issue_id) is Some)
        &&& token_for(new_book, issue_id) is None
        &&& retry_for(new_book, issue_id) is None
        &&& forall|k: Seq<char>|
            k != issue_id ==> #[trigger] token_for(new_book, k) == token_for(old_book, k)
                && retry_for(new_book, k) == retry_for(old_book, k)
    } else {
        &&& !fired
        &&& forall|k: Seq<char>|
            #[trigger] token_for(new_book, k) == token_for(old_book, k) && retry_for(new_book, k)
                == retry_for(old_book, k)
    }
}

impl RetryBook {
    pub fn new() -> (res: Self)
        ensures
            res.next_retry_token == 0,
            forall|k: Seq<char>| #[trigger] token_for(res, k) is None && retry_for(res, k) is None
                && session_for(res, k) is None,
    {
        RetryBook {
            next_retry_token: 0,
            tokens: Vec::new(),
            entries: Vec::new(),
            session_ids: Vec::new(),
        }
    }

    /// The session an issue's worker resumes, if one is known.
    pub fn session_id(&self, issue_id: &str) -> (res: Option<String>)
        ensures
            opt_view(res) == session_for(*self, issue_id@),
    {
        crate::domain::lookup_table(&self.session_ids, issue_id)
    }

    /// Schedule a retry of an issue `delay_ms` from `now_ms`; the previous
    /// retry of the issue, if any, is replaced and its token goes stale. A
    /// session named in the context becomes the one the issue resumes.
    /// Returns the new token, `retry-` and the next counter value.
    pub fn schedule_retry_with_context(
        &mut self,
        issue_id: &str,
        identifier: &str,
        attempt: u32,
        retry_kind: RetryKind,
        now_ms: i64,
        error: Option<String>,
        context: RetryContext,
        max_retry_backoff_ms: u64,
    ) -> (token: String)
        requires
            old(self).next_retry_token < u64::MAX,
            now_ms + retry_delay_spec(retry_kind, attempt, max_retry_backoff_ms) <= i64::MAX,
        ensures
            final(self).next_retry_token == old(self).next_retry_token + 1,
            token@ == token_text(final(self).next_retry_token as nat),
            schedule_post(*old(self), *final(self), issue_id@, token@),
            retry_for(*final(self), issue_id@) matches Some(e) && e.issue_id@ == issue_id@
                && e.identifier@ == identifier@ && e.attempt == attempt && e.due_at_ms == now_ms
                + retry_delay_spec(retry_kind, attempt, max_retry_backoff_ms) && (
            e.timer_handle matches Some(t) && t@ == token@) && e.error == error && e.worker_host
                == context.worker_host && e.workspace_path == context.workspace_path,
            session_for(*final(self), issue_id@) == match context.session_id {
                Some(sid) => Some(sid@),
                None => session_for(*old(self), issue_id@),
            },
            forall|k: Seq<char>|
                k != issue_id@ ==> #[trigger] session_for(*final(self), k) == session_for(
                    *old(self),
                    k,
                ),
    {
        self.next_retry_token = self.next_retry_token + 1;
        let mut token = "retry-".to_owned();
        append_decimal(&mut token, self.next_retry_token);
        let due_at_ms = now_ms + retry_delay_ms(retry_kind, attempt, max_retry_backoff_ms);
        let ghost old_book = *old(self);
        let mut tokens = tokens_without(&self.tokens, issue_id);
        let ghost t0 = tokens@;
        tokens.push((issue_id.to_owned(), token.clone()));
        let mut entries = entries_without(&self.entries, issue_id);
        let ghost e0 = entries@;
        let entry = RetryEntry {
            issue_id: issue_id.to_owned(),
            identifier: identifier.to_owned(),
            attempt,
            due_at_ms,
            timer_handle: Some(token.clone()),
            error,
            worker_host: context.worker_host,
            workspace_path: context.workspace_path,
        };
        entries.push(entry);
        self.tokens = tokens;
        self.entries = entries;
        match context.session_id {
            Some(sid) => {
                let mut sessions = tokens_without(&self.session_ids, issue_id);
                let ghost s0 = sessions@;
                sessions.push((issue_id.to_owned(), sid));
                proof {
                    assert forall|k: Seq<char>| #[trigger]
                        table_lookup(sessions@, k) == (if k == issue_id@ {
                            Some(sessions@.last().1)
                        } else {
                            table_lookup(old_book.session_ids@, k)
                        }) by {
                        lemma_table_lookup_push(s0, sessions@.last(), k);
                    }
                }
                self.session_ids = sessions;
            },
            None => {},
        }
        proof {
            assert forall|k: Seq<char>|
                #[trigger] token_for(*self, k) == (if k == issue_id@ {
                    Some(token@)
                } else {
                    token_for(old_book, k)
                }) && retry_for(*self, k) == (if k == issue_id@ {
                    Some(self.entries@.last())
                } else {
                    retry_for(old_book, k)
                }) by {
                lemma_table_lookup_push(t0, self.tokens@.last(), k);
                lemma_entry_for_push(e0, self.entries@.last(), k);
            }
        }
        token
    }

    /// Fire the timer of an issue with `token`. Returns whether the retry
    /// fired: only the issue's live token fires, and only once.
    pub fn fire_retry(&mut self, issue_id: &str, token: &str) -> (fired: bool)
        ensures
            final(self).next_retry_token == old(self).next_retry_token,
            final(self).session_ids == old(self).session_ids,
            fire_post(*old(self), *final(self), issue_id@, token@, fired),
    {
        let current = crate::domain::lookup_table(&self.tokens, issue_id);
        match current {
            None => false,
            Some(c) => {
                if !str_eq(c.as_str(), token) {
                    return false;
                }
                let ghost old_book = *old(self);
                let had_entry = self.has_entry(issue_id);
                self.tokens = tokens_without(&self.tokens, issue_id);
                self.entries = entries_without(&self.entries, issue_id);
                had_entry
            },
        }
    }

    /// The event a timer firing with `token` is reported by when it is
    /// stale: the issue has a live token and it is another one. A timer of
    /// an issue with no live token is ignored without an event.
    pub fn stale_retry_event(&self, issue_id: &str, token: &str) -> (res: Option<RuntimeEvent>)
        ensures
            (res is Some) == (token_for(*self, issue_id@) matches Some(t) && t != token@),
            res matches Some(e) ==> (e matches RuntimeEvent::RetryIgnoredStale { issue_id: i, token: t }
                && i@ == issue_id@ && t@ == token@),
    {
        match crate::domain::lookup_table(&self.tokens, issue_id) {
            Some(current) => {
                if str_eq(current.as_str(), token) {
                    None
                } else {
                    Some(
                        RuntimeEvent::RetryIgnoredStale {
                            issue_id: issue_id.to_owned(),
                            token: token.to_owned(),
                        },
                    )
                }
            },
            None => None,
        }
    }

    fn has_entry(&self, issue_id: &str) -> (res: bool)
        ensures
            res == (retry_for(*self, issue_id@) is Some),
    {
        let mut i: usize = 0;
        proof {
            assert(self.entries@.subrange(0, self.entries@.len() as int) =~= self.entries@);
        }
        while i < self.entries.len()
            invariant
                i <= self.entries@.len(),
                entry_for(self.entries@, issue_id@) == entry_for(
                    self.entries@.subrange(i as int, self.entries@.len() as int),
                    issue_id@,
                ),
            decreases self.entries@.len() - i,
        {
            proof {
                let sub = self.entries@.subrange(i as int, self.entries@.len() as int);
                assert(sub[0] == self.entries@[i as int]);
                assert(sub.drop_first() =~= self.entries@.subrange(
                    i + 1,
                    self.entries@.len() as int,
                ));
            }
            if str_eq(self.entries[i].issue_id.as_str(), issue_id) {
                return true;
            }
            i = i + 1;
        }
        false
    }
}

/// Every token handed out is new: tokens from distinct counter values
/// differ.
pub proof fn lemma_retry_tokens_distinct(n1: nat, n2: nat)
    requires
        n1 != n2,
    ensures
        token_text(n1) != token_text(n2),
{
    reveal_strlit("retry-");
    if token_text(n1) == token_text(n2) {
        assert(token_text(n1).subrange(6, token_text(n1).len() as int) =~= decimal(n1));
        assert(token_text(n2).subrange(6, token_text(n2).len() as int) =~= decimal(n2));
        crate::text::lemma_decimal_injective(n1, n2);
    }
}

/// A scheduled retry fires exactly once: the first firing of its token
/// fires it, a second firing of the same token does not.
pub proof fn lemma_retry_fires_once(
    b0: RetryBook,
    b1: RetryBook,
    b2: RetryBook,
    b3: RetryBook,
    issue_id: Seq<char>,
    token: Seq<char>,
    first: bool,
    second: bool,
)
    requires
        schedule_post(b0, b1, issue_id, token),
        fire_post(b1, b2, issue_id, token, first),
        fire_post(b2, b3, issue_id, token, second),
    ensures
        first,
        !second,
        retry_for(b3, issue_id) is None,
{
}

/// Rescheduling an issue makes the earlier timer stale: firing the old
/// token is reported as stale (the issue's live token is another one), does
/// nothing, and the new retry stays scheduled.
pub proof fn lemma_rescheduled_timer_is_stale(
    b0: RetryBook,
    b1: RetryBook,
    b2: RetryBook,
    b3: RetryBook,
    issue_id: Seq<char>,
    old_token: Seq<char>,
    new_token: Seq<char>,
    fired: bool,
)
    requires
        schedule_post(b0, b1, issue_id, old_token),
        schedule_post(b1, b2, issue_id, new_token),
        old_token != new_token,
        fire_post(b2, b3, issue_id, old_token, fired),
    ensures
        token_for(b2, issue_id) matches Some(t) && t != old_token,
        !fired,
        token_for(b3, issue_id) == Some(new_token),
        retry_for(b3, issue_id) == retry_for(b2, issue_id),
{
}

/// Two schedulings of an issue hand out two tokens; the first timer is
/// then stale: its firing is reported as stale, does not fire and keeps the
/// retry; the second fires it and consumes it; firing the second again does
/// nothing.
pub proof fn lemma_only_the_last_timer_fires(
    b0: RetryBook,
    b1: RetryBook,
    b2: RetryBook,
    b3: RetryBook,
    b4: RetryBook,
    b5: RetryBook,
    issue_id: Seq<char>,
    t1: Seq<char>,
    t2: Seq<char>,
    stale: bool,
    live: bool,
    repeated: bool,
)
    requires
        b1.next_retry_token == b0.next_retry_token + 1,
        t1 == token_text(b1.next_retry_token as nat),
        schedule_post(b0, b1, issue_id, t1),
        b2.next_retry_token == b1.next_retry_token + 1,
        t2 == token_text(b2.next_retry_token as nat),
        schedule_post(b1, b2, issue_id, t2),
        fire_post(b2, b3, issue_id, t1, stale),
        fire_post(b3, b4, issue_id, t2, live),
        fire_post(b4, b5, issue_id, t2, repeated),
    ensures
        t1 != t2,
        token_for(b2, issue_id) matches Some(t) && t != t1,
        !stale,
        retry_for(b3, issue_id) == retry_for(b2, issue_id),
        retry_for(b3, issue_id) is Some,
        live,
        retry_for(b4, issue_id) is None,
        !repeated,
{
    lemma_retry_tokens_distinct(b1.next_retry_token as nat, b2.next_retry_token as nat);
}

/// Firing one issue's timer leaves every other issue's retry as it was.
pub proof fn lemma_fire_is_local(
    b0: RetryBook,
    b1: RetryBook,
    issue_id: Seq<char>,
    token: Seq<char>,
    fired: bool,
    other: Seq<char>,
)
    requires
        fire_post(b0, b1, issue_id, token, fired),
        other != issue_id,
    ensures
        token_for(b1, other) == token_for(b0, other),
        retry_for(b1, other) == retry_for(b0, other),
{
}

/// Where a worker may run: here, on a remote host, or nowhere while every
/// host is at its cap.
#[derive(Debug, Clone, PartialEq, Eq)]
pub enum WorkerHostSelection {
    Local,
    Remote(String),
    NoneAvailable,
}

/// What the orchestrator learned about a due retry's issue.
#[derive(Debug, Clone, PartialEq, Eq)]
pub enum RetryObservation {
    /// Listing the candidate issues failed.
    PollFailed(String),
    /// The issue is not a candidate and refreshing it failed.
    RefreshFailed(String),
    /// The issue is not a candidate; `terminal` when a refresh found it in
    /// a terminal state.
    Hidden { terminal: bool },
    /// The workspace could not be prepared, or the pull-request check held the
    /// issue back.
    Withheld,
    /// The issue is a candidate.
    Visible { terminal: bool, dispatchable: bool, host: WorkerHostSelection, active: bool },
}

/// What to do with a due retry.
#[derive(Debug, Clone, PartialEq, Eq)]
pub enum DueRetryAction {
    Reschedule { attempt: u32, kind: RetryKind, error: String },
    MarkTerminal,
    Release,
    Skip,
    Dispatch { attempt: u32, worker_host: Option<String> },
}

/// `attempt + 1`, saturating.
pub open spec fn next_attempt(attempt: u32) -> u32 {
    if attempt == u32::MAX {
        u32::MAX
    } else {
        (attempt + 1) as u32
    }
}

/// The decision for a due retry: failures to see the issue reschedule it
/// as a failure with the next attempt; an issue gone terminal is marked
/// terminal; an issue no longer active is released; a dispatchable issue
/// is dispatched on the selected host with the same attempt, or, when no
/// host has room, rescheduled as a continuation with the same attempt; an
/// active issue without a free slot is rescheduled as a failure.
pub open spec fn due_retry_action_spec(attempt: u32, obs: RetryObservation) -> (
    DueRetryAction,
    Seq<char>,
) {
    match obs {
        RetryObservation::PollFailed(e) => (
            DueRetryAction::Reschedule {
                attempt: next_attempt(attempt),
                kind: RetryKind::Failure,
                error: e,
            },
            "retry poll failed: "@ + e@,
        ),
        RetryObservation::RefreshFailed(e) => (
            DueRetryAction::Reschedule {
                attempt: next_attempt(attempt),
                kind: RetryKind::Failure,
                error: e,
            },
            "retry refresh failed: "@ + e@,
        ),
        RetryObservation::Hidden { terminal } => if terminal {
            (DueRetryAction::MarkTerminal, Seq::empty())
        } else {
            (DueRetryAction::Release, Seq::empty())
        },
        RetryObservation::Withheld => (DueRetryAction::Skip, Seq::empty()),
        RetryObservation::Visible { terminal, dispatchable, host, active } => if terminal {
            (DueRetryAction::MarkTerminal, Seq::empty())
        } else if dispatchable {
            match host {
                WorkerHostSelection::NoneAvailable => (
                    DueRetryAction::Reschedule {
                        attempt,
                        kind: RetryKind::Continuation,
                        error: arbitrary(),
                    },
                    "ssh pool exhausted"@,
                ),
                WorkerHostSelection::Remote(h) => (
                    DueRetryAction::Dispatch { attempt, worker_host: Some(h) },
                    Seq::empty(),
                ),
                WorkerHostSelection::Local => (
                    DueRetryAction::Dispatch { attempt, worker_host: None },
                    Seq::empty(),
                ),
            }
        } else if !active {
            (DueRetryAction::Release, Seq::empty())
        } else {
            (
                DueRetryAction::Reschedule {
                    attempt: next_attempt(attempt),
                    kind: RetryKind::Failure,
                    error: arbitrary(),
                },
                "no available orchestrator slots"@,
            )
        },
    }
}

/// Whether the action agrees with the decision: the same variant and
/// fields, a rescheduled retry carrying the decided error text.
pub open spec fn matches_decision(res: DueRetryAction, decided: (DueRetryAction, Seq<char>)) -> bool {
    match decided.0 {
        DueRetryAction::Reschedule { attempt, kind, .. } => res matches DueRetryAction::Reschedule {
            attempt: a,
            kind: k,
            error: e,
        } && a == attempt && k == kind && e@ == decided.1,
        _ => res == decided.0,
    }
}

pub fn decide_due_retry(attempt: u32, obs: RetryObservation) -> (res: DueRetryAction)
    ensures
        matches_decision(res, due_retry_action_spec(attempt, obs)),
{
    let next = if attempt == u32::MAX {
        u32::MAX
    } else {
        attempt + 1
    };
    match obs {
        RetryObservation::PollFailed(e) => {
            let mut m = "retry poll failed: ".to_owned();
            m.append(e.as_str());
            DueRetryAction::Reschedule { attempt: next, kind: RetryKind::Failure, error: m }
        },
        RetryObservation::RefreshFailed(e) => {
            let mut m = "retry refresh failed: ".to_owned();
            m.append(e.as_str());
            DueRetryAction::Reschedule { attempt: next, kind: RetryKind::Failure, error: m }
        },
        RetryObservation::Hidden { terminal } => {
            if terminal {
                DueRetryAction::MarkTerminal
            } else {
                DueRetryAction::Release
            }
        },
        RetryObservation::Withheld => DueRetryAction::Skip,
        RetryObservation::Visible { terminal, dispatchable, host, active } => {
            if terminal {
                DueRetryAction::MarkTerminal
            } else if dispatchable {
                match host {
                    WorkerHostSelection::NoneAvailable => DueRetryAction::Reschedule {
                        attempt,
                        kind: RetryKind::Continuation,
                        error: "ssh pool exhausted".to_owned(),
                    },
                    WorkerHostSelection::Remote(h) => DueRetryAction::Dispatch {
                        attempt,
                        worker_host: Some(h),
                    },
                    WorkerHostSelection::Local => DueRetryAction::Dispatch {
                        attempt,
                        worker_host: None,
                    },
                }
            } else if !active {
                DueRetryAction::Release
            } else {
                DueRetryAction::Reschedule {
                    attempt: next,
                    kind: RetryKind::Failure,
                    error: "no available orchestrator slots".to_owned(),
                }
            }
        },
    }
}

/// A due retry never goes back to an earlier attempt, and only a full host
/// pool reschedules it without spending an attempt.
pub proof fn lemma_due_retry_attempts_never_decrease(attempt: u32, obs: RetryObservation)
    ensures
        ({
            let d = due_retry_action_spec(attempt, obs).0;
            &&& d matches DueRetryAction::Reschedule { attempt: a, kind, .. } ==> a >= attempt
                && (a == attempt && attempt < u32::MAX ==> kind == RetryKind::Continuation)
            &&& d matches DueRetryAction::Dispatch { attempt: a, .. } ==> a == attempt
        }),
{
}

/// The entries due at `now_ms`.
pub open spec fn due_entries(entries: Seq<RetryEntry>, now_ms: i64) -> Seq<RetryEntry>
    decreases entries.len(),
{
    if entries.len() == 0 {
        Seq::empty()
    } else {
        let rest = due_entries(entries.drop_last(), now_ms);
        if entries.last().due_at_ms <= now_ms {
            rest.push(entries.last())
        } else {
            rest
        }
    }
}

impl RetryBook {
    /// The retries due at `now_ms`, in scheduling order.
    pub fn due_retries(&self, now_ms: i64) -> (res: Vec<RetryEntry>)
        ensures
            res@ == due_entries(self.entries@, now_ms),
    {
        let mut out: Vec<RetryEntry> = Vec::new();
        let mut i: usize = 0;
        while i < self.entries.len()
            invariant
                i <= self.entries@.len(),
                out@ == due_entries(self.entries@.take(i as int), now_ms),
            decreases self.entries@.len() - i,
        {
            proof {
                assert(self.entries@.take(i + 1).drop_last() =~= self.entries@.take(i as int));
            }
            if self.entries[i].due_at_ms <= now_ms {
                out.push(clone_entry(&self.entries[i]));
            }
            i = i + 1;
        }
        assert(self.entries@.take(self.entries@.len() as int) =~= self.entries@);
        out
    }
}


/// A due retry is dispatched exactly when its issue is still wanted (not
/// terminal, dispatchable) and a host is available: on a remote host it
/// runs there, locally it runs with no worker host, and in both cases it
/// keeps its attempt; only an exhausted host pool puts it back, as a
/// continuation at the same attempt. Nothing else dispatches it.
pub proof fn lemma_due_retry_dispatches_when_a_host_is_free(
    attempt: u32,
    obs: RetryObservation,
    res: DueRetryAction,
)
    requires
        matches_decision(res, due_retry_action_spec(attempt, obs)),
    ensures
        match obs {
            RetryObservation::Visible { terminal, dispatchable, host, .. } => !terminal
                && dispatchable ==> match host {
                WorkerHostSelection::Local => res == DueRetryAction::Dispatch {
                    attempt,
                    worker_host: None,
                },
                WorkerHostSelection::Remote(h) => res == DueRetryAction::Dispatch {
                    attempt,
                    worker_host: Some(h),
                },
                WorkerHostSelection::NoneAvailable => res matches DueRetryAction::Reschedule {
                    attempt: a,
                    kind,
                    error,
                } && a == attempt && kind == RetryKind::Continuation && error@
                    == "ssh pool exhausted"@,
            },
            _ => true,
        },
        res is Dispatch ==> match obs {
            RetryObservation::Visible { terminal, dispatchable, host, .. } => !terminal
                && dispatchable && !(host is NoneAvailable),
            _ => false,
        },
        match obs {
            RetryObservation::PollFailed(e) => res matches DueRetryAction::Reschedule {
                attempt: a,
                kind,
                error,
            } && kind == RetryKind::Failure && error@ == "retry poll failed: "@ + e@ && (attempt
                < u32::MAX ==> a == attempt + 1) && (attempt == u32::MAX ==> a == attempt),
            RetryObservation::RefreshFailed(e) => res matches DueRetryAction::Reschedule {
                attempt: a,
                kind,
                error,
            } && kind == RetryKind::Failure && error@ == "retry refresh failed: "@ + e@ && (attempt
                < u32::MAX ==> a == attempt + 1) && (attempt == u32::MAX ==> a == attempt),
            RetryObservation::Hidden { terminal } => res == (if terminal {
                DueRetryAction::MarkTerminal
            } else {
                DueRetryAction::Release
            }),
            RetryObservation::Withheld => res == DueRetryAction::Skip,
            RetryObservation::Visible { terminal, dispatchable, active, .. } => if terminal {
                res == DueRetryAction::MarkTerminal
            } else if dispatchable {
                true
            } else if !active {
                res == DueRetryAction::Release
            } else {
                res matches DueRetryAction::Reschedule { attempt: a, kind, error } && kind
                    == RetryKind::Failure && error@ == "no available orchestrator slots"@ && (attempt
                    < u32::MAX ==> a == attempt + 1)
            },
        },
{
}

} // verus!
