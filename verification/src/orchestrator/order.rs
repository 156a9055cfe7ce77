//! The dispatch order: priority rank first, then creation time, then
//! identifier and id.

use vstd::prelude::*;

use crate::orchestrator::issue::{
    created_at_key, issue_created_at_sort_key, priority_rank, priority_rank_spec, Issue,
};

verus! {

/// `a` sorts strictly before `b` character by character, a proper prefix
/// first: the order of `str`, whose UTF-8 bytes order as the code points do.
pub open spec fn text_lt(a: Seq<char>, b: Seq<char>) -> bool
    decreases a.len(),
{
    if a.len() == 0 {
        b.len() > 0
    } else if b.len() == 0 {
        false
    } else if a[0] != b[0] {
        (a[0] as int) < (b[0] as int)
    } else {
        text_lt(a.drop_first(), b.drop_first())
    }
}

pub proof fn lemma_text_lt_irreflexive(a: Seq<char>)
    ensures
        !text_lt(a, a),
    decreases a.len(),
{
    if a.len() > 0 {
        lemma_text_lt_irreflexive(a.drop_first());
    }
}

pub proof fn lemma_text_lt_trichotomy(a: Seq<char>, b: Seq<char>)
    ensures
        text_lt(a, b) || text_lt(b, a) || a =~= b,
    decreases a.len(),
{
    if a.len() > 0 && b.len() > 0 && a[0] != b[0] {
        assert((a[0] as int) != (b[0] as int));
    }
    if a.len() > 0 && b.len() > 0 && a[0] == b[0] {
        lemma_text_lt_trichotomy(a.drop_first(), b.drop_first());
        if a.drop_first() =~= b.drop_first() {
            assert(a =~= seq![a[0]] + a.drop_first());
            assert(b =~= seq![b[0]] + b.drop_first());
        }
    }
}

pub proof fn lemma_text_lt_asymmetric(a: Seq<char>, b: Seq<char>)
    requires
        text_lt(a, b),
    ensures
        !text_lt(b, a),
    decreases a.len(),
{
    if a.len() > 0 && b.len() > 0 && a[0] == b[0] {
        lemma_text_lt_asymmetric(a.drop_first(), b.drop_first());
    }
}

pub proof fn lemma_text_lt_transitive(a: Seq<char>, b: Seq<char>, c: Seq<char>)
    requires
        text_lt(a, b),
        text_lt(b, c),
    ensures
        text_lt(a, c),
    decreases a.len(),
{
    if a.len() > 0 && b.len() > 0 && c.len() > 0 && a[0] == b[0] && b[0] == c[0] {
        lemma_text_lt_transitive(a.drop_first(), b.drop_first(), c.drop_first());
    }
}

/// `str` ordering of two texts.
pub fn text_less(a: &str, b: &str) -> (res: bool)
    ensures
        res == text_lt(a@, b@),
{
    let n = a.unicode_len();
    let m = b.unicode_len();
    let mut i: usize = 0;
    assert(a@.subrange(0, n as int) =~= a@);
    assert(b@.subrange(0, m as int) =~= b@);
    while i < n && i < m
        invariant
            n == a@.len(),
            m == b@.len(),
            i <= n,
            i <= m,
            a@.subrange(0, i as int) =~= b@.subrange(0, i as int),
            text_lt(a@, b@) == text_lt(
                a@.subrange(i as int, n as int),
                b@.subrange(i as int, m as int),
            ),
        decreases n - i,
    {
        let x = a.get_char(i);
        let y = b.get_char(i);
        let ghost sa = a@.subrange(i as int, n as int);
        let ghost sb = b@.subrange(i as int, m as int);
        proof {
            assert(sa[0] == x);
            assert(sb[0] == y);
            assert(sa.drop_first() =~= a@.subrange(i + 1, n as int));
            assert(sb.drop_first() =~= b@.subrange(i + 1, m as int));
        }
        if x != y {
            return (x as u32) < (y as u32);
        }
        assert(a@.subrange(0, i + 1) =~= b@.subrange(0, i + 1));
        i = i + 1;
    }
    i == n && i < m
}

/// The dispatch key of an issue.
pub open spec fn issue_key_lt(a: Issue, b: Issue) -> bool {
    let (ra, rb) = (priority_rank_spec(a.priority), priority_rank_spec(b.priority));
    let (ca, cb) = (created_at_key(a), created_at_key(b));
    ||| ra < rb
    ||| ra == rb && ca < cb
    ||| ra == rb && ca == cb && text_lt(a.identifier@, b.identifier@)
    ||| ra == rb && ca == cb && a.identifier@ == b.identifier@ && text_lt(a.id@, b.id@)
}

/// `a` may come before `b`: `b`'s key is not smaller.
pub open spec fn issue_key_le(a: Issue, b: Issue) -> bool {
    !issue_key_lt(b, a)
}

pub proof fn lemma_issue_key_le_transitive(a: Issue, b: Issue, c: Issue)
    requires
        issue_key_le(a, b),
        issue_key_le(b, c),
    ensures
        issue_key_le(a, c),
{
    lemma_text_lt_trichotomy(a.identifier@, b.identifier@);
    lemma_text_lt_trichotomy(b.identifier@, c.identifier@);
    lemma_text_lt_trichotomy(a.identifier@, c.identifier@);
    lemma_text_lt_trichotomy(a.id@, b.id@);
    lemma_text_lt_trichotomy(b.id@, c.id@);
    lemma_text_lt_trichotomy(a.id@, c.id@);
    if issue_key_lt(c, a) {
        if text_lt(c.identifier@, a.identifier@) && text_lt(a.identifier@, b.identifier@) {
            lemma_text_lt_transitive(c.identifier@, a.identifier@, b.identifier@);
        }
        if text_lt(b.identifier@, c.identifier@) && text_lt(c.identifier@, a.identifier@) {
            lemma_text_lt_transitive(b.identifier@, c.identifier@, a.identifier@);
        }
        if text_lt(c.id@, a.id@) && text_lt(a.id@, b.id@) {
            lemma_text_lt_transitive(c.id@, a.id@, b.id@);
        }
        if text_lt(b.id@, c.id@) && text_lt(c.id@, a.id@) {
            lemma_text_lt_transitive(b.id@, c.id@, a.id@);
        }
        lemma_text_lt_irreflexive(a.identifier@);
        lemma_text_lt_irreflexive(b.identifier@);
        lemma_text_lt_irreflexive(c.identifier@);
        lemma_text_lt_irreflexive(a.id@);
        lemma_text_lt_irreflexive(b.id@);
        lemma_text_lt_irreflexive(c.id@);
    }
}

pub proof fn lemma_issue_key_lt_implies_le(a: Issue, b: Issue)
    requires
        issue_key_lt(a, b),
    ensures
        issue_key_le(a, b),
{
    if text_lt(a.identifier@, b.identifier@) {
        lemma_text_lt_asymmetric(a.identifier@, b.identifier@);
    }
    if text_lt(a.id@, b.id@) {
        lemma_text_lt_asymmetric(a.id@, b.id@);
    }
    lemma_text_lt_irreflexive(a.identifier@);
    lemma_text_lt_irreflexive(a.id@);
}

fn issue_less(a: &Issue, b: &Issue) -> (res: bool)
    ensures
        res == issue_key_lt(*a, *b),
{
    let ra = priority_rank(a.priority);
    let rb = priority_rank(b.priority);
    if ra != rb {
        return ra < rb;
    }
    let ca = issue_created_at_sort_key(a);
    let cb = issue_created_at_sort_key(b);
    if ca != cb {
        return ca < cb;
    }
    if text_less(a.identifier.as_str(), b.identifier.as_str()) {
        return true;
    }
    if text_less(b.identifier.as_str(), a.identifier.as_str()) {
        proof {
            lemma_text_lt_asymmetric(b.identifier@, a.identifier@);
        }
        return false;
    }
    proof {
        lemma_text_lt_trichotomy(a.identifier@, b.identifier@);
    }
    text_less(a.id.as_str(), b.id.as_str())
}

/// Sorted for dispatch: no issue has a smaller key than one before it.
pub open spec fn dispatch_sorted(s: Seq<Issue>) -> bool {
    forall|i: int, j: int| 0 <= i < j < s.len() ==> issue_key_le(#[trigger] s[i], #[trigger] s[j])
}

/// The issues in dispatch order: the same issues, sorted by priority rank,
/// then creation time, then identifier, then id.
pub fn sort_issues_for_dispatch(issues: Vec<Issue>) -> (res: Vec<Issue>)
    ensures
        res@.to_multiset() == issues@.to_multiset(),
        dispatch_sorted(res@),
{
    broadcast use vstd::seq_lib::group_to_multiset_ensures;

    let ghost given = issues@;
    assert(given.len() == issues.len());
    let mut rest = issues;
    let mut out: Vec<Issue> = Vec::new();
    let mut taken: usize = 0;
    proof {
        assert(given.take(0) =~= Seq::<Issue>::empty());
    }
    while rest.len() > 0
        invariant
            taken <= given.len(),
            given.len() <= usize::MAX,
            rest@ =~= given.subrange(taken as int, given.len() as int),
            out@.to_multiset() == given.take(taken as int).to_multiset(),
            dispatch_sorted(out@),
        decreases rest@.len(),
    {
        assert(taken < given.len());
        let x = rest.remove(0);
        proof {
            assert(given.take(taken + 1) =~= given.take(taken as int).push(x));
            vstd::seq_lib::to_multiset_build(given.take(taken as int), x);
        }
        let mut j: usize = out.len();
        while j > 0 && issue_less(&x, &out[j - 1])
            invariant
                j <= out@.len(),
                forall|k: int| j <= k < out@.len() ==> issue_key_lt(x, #[trigger] out@[k]),
            decreases j,
        {
            j = j - 1;
        }
        let ghost before = out@;
        proof {
            if j > 0 {
                assert(!issue_key_lt(x, before[j - 1]));
                assert forall|k: int| 0 <= k < j implies issue_key_le(#[trigger] before[k], x) by {
                    if k < j - 1 {
                        lemma_issue_key_le_transitive(before[k], before[j - 1], x);
                    }
                }
            }
            assert forall|k: int| j <= k < before.len() implies issue_key_le(x, #[trigger] before[k]) by {
                lemma_issue_key_lt_implies_le(x, before[k]);
            }
        }
        out.insert(j, x);
        proof {
            vstd::seq_lib::to_multiset_insert(before, j as int, x);
            assert forall|a: int, b: int| 0 <= a < b < out@.len() implies issue_key_le(
                #[trigger] out@[a],
                #[trigger] out@[b],
            ) by {
                if a < j && b < j {
                    assert(out@[a] == before[a] && out@[b] == before[b]);
                } else if a < j && b == j {
                    assert(out@[b] == x);
                } else if a < j && b > j {
                    assert(out@[a] == before[a] && out@[b] == before[b - 1]);
                    lemma_issue_key_le_transitive(before[a], x, before[b - 1]);
                } else if a == j {
                    assert(out@[a] == x && out@[b] == before[b - 1]);
                } else {
                    assert(out@[a] == before[a - 1] && out@[b] == before[b - 1]);
                }
            }
        }
        taken = taken + 1;
    }
    proof {
        assert(given.take(taken as int) =~= given);
    }
    out
}


/// Dispatch follows priority: priorities 1 to 4 rank as themselves and
/// every other priority, or none, ranks after them. So in the dispatch
/// order an issue of priority `p` in 1..=4 comes before every issue of a
/// larger priority in 1..=4 and before every issue with another or no
/// priority; in particular an urgent issue (priority 1) comes first.
pub proof fn lemma_dispatch_follows_priority(sorted: Seq<Issue>, i: int, j: int, p: i32)
    requires
        dispatch_sorted(sorted),
        0 <= i < sorted.len(),
        0 <= j < sorted.len(),
        1 <= p <= 4,
        sorted[i].priority == Some(p),
        match sorted[j].priority {
            Some(q) => q < 1 || q > 4 || p < q,
            None => true,
        },
    ensures
        i < j,
        priority_rank_spec(Some(p)) == p,
        forall|q: i32| !(1 <= q <= 4) ==> #[trigger] priority_rank_spec(Some(q)) == 5,
        priority_rank_spec(None) == 5,
{
    if j <= i {
        if j < i {
            assert(issue_key_le(sorted[j], sorted[i]));
        }
        assert(issue_key_lt(sorted[i], sorted[j]));
    }
}


/// Among issues of the same priority, the one created earlier is
/// dispatched first, and an issue with a creation time comes before one
/// without.
pub proof fn lemma_dispatch_follows_creation_time(sorted: Seq<Issue>, i: int, j: int, t: i64)
    requires
        dispatch_sorted(sorted),
        0 <= i < sorted.len(),
        0 <= j < sorted.len(),
        sorted[i].priority == sorted[j].priority,
        sorted[i].created_at_us == Some(t),
        match sorted[j].created_at_us {
            Some(u) => t < u,
            None => t < i64::MAX,
        },
    ensures
        i < j,
{
    if j <= i {
        if j < i {
            assert(issue_key_le(sorted[j], sorted[i]));
        }
        assert(issue_key_lt(sorted[i], sorted[j]));
    }
}

} // verus!
