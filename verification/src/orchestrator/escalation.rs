//! Escalations: questions an agent asks a human, the pending ones awaiting
//! an answer, and a bounded memory of the ones already answered so a late
//! duplicate answer is told apart from an unknown request.

use vstd::prelude::*;

use crate::json::{
    entries_get, field_string, get_field, json_get, json_text, keys_sorted, map_insert, parse_json,
    parsed_json, quoted, str_field, to_json_text, JsonValue,
};
use crate::orchestrator::events::{truncate_for_display, truncate_spec};
use crate::text::str_eq;

verus! {

pub const ESCALATION_RESOLVED_CACHE_CAPACITY: usize = 1024;

/// The ids of the most recently resolved escalations, oldest first, at most
/// `ESCALATION_RESOLVED_CACHE_CAPACITY` of them, each once.
pub struct ResolvedEscalationCache {
    order: Vec<String>,
}

pub open spec fn string_views(s: Seq<String>) -> Seq<Seq<char>> {
    s.map_values(|x: String| x@)
}

impl ResolvedEscalationCache {
    pub closed spec fn view(&self) -> Seq<Seq<char>> {
        string_views(self.order@)
    }

    /// No id twice and within capacity.
    pub open spec fn wf(&self) -> bool {
        &&& self@.no_duplicates()
        &&& self@.len() <= ESCALATION_RESOLVED_CACHE_CAPACITY
    }

    pub fn new() -> (res: Self)
        ensures
            res.wf(),
            res@ == Seq::<Seq<char>>::empty(),
    {
        let res = ResolvedEscalationCache { order: Vec::new() };
        assert(res@ =~= Seq::<Seq<char>>::empty());
        res
    }

    fn position(&self, request_id: &str) -> (res: Option<usize>)
        ensures
            match res {
                Some(i) => i < self@.len() && self@[i as int] == request_id@,
                None => !self@.contains(request_id@),
            },
    {
        let mut i: usize = 0;
        while i < self.order.len()
            invariant
                i <= self.order@.len(),
                forall|k: int| 0 <= k < i ==> #[trigger] self.order@[k]@ != request_id@,
            decreases self.order@.len() - i,
        {
            if str_eq(self.order[i].as_str(), request_id) {
                return Some(i);
            }
            i = i + 1;
        }
        proof {
            if self@.contains(request_id@) {
                let k = choose|k: int| 0 <= k < self@.len() && self@[k] == request_id@;
                assert(self.order@[k]@ == request_id@);
            }
        }
        None
    }

    pub fn contains(&self, request_id: &str) -> (res: bool)
        ensures
            res == self@.contains(request_id@),
    {
        self.position(request_id).is_some()
    }

    /// Remember a resolved id; a known id changes nothing, a new one is
    /// added as the newest and, past capacity, the oldest is forgotten.
    pub fn insert(&mut self, request_id: String)
        requires
            old(self).wf(),
        ensures
            final(self).wf(),
            cache_insert_post(old(self)@, final(self)@, request_id@),
    {
        if self.contains(request_id.as_str()) {
            return;
        }
        let ghost before = self@;
        let ghost id = request_id@;
        self.order.push(request_id);
        proof {
            assert(self@ =~= before.push(id));
            assert forall|a: int, b: int| 0 <= a < b < self@.len() implies self@[a] != self@[b] by {
                if b == self@.len() - 1 {
                    assert(self@[a] == before[a]);
                }
            }
        }
        if self.order.len() > ESCALATION_RESOLVED_CACHE_CAPACITY {
            let ghost full = self@;
            self.order.remove(0);
            proof {
                assert(self@ =~= full.drop_first());
                assert(self@[self@.len() - 1] == id);
                assert forall|x: Seq<char>| before.contains(x) && !#[trigger] self@.contains(x)
                    implies x == before[0] by {
                    let k = choose|k: int| 0 <= k < before.len() && before[k] == x;
                    if k > 0 {
                        assert(self@[k - 1] == x);
                    }
                }
            }
        } else {
            assert(self@[self@.len() - 1] == id);
            assert forall|x: Seq<char>| before.contains(x) implies #[trigger] self@.contains(x) by {
                let k = choose|k: int| 0 <= k < before.len() && before[k] == x;
                assert(self@[k] == x);
            }
        }
    }

    /// Forget an id.
    pub fn remove(&mut self, request_id: &str)
        requires
            old(self).wf(),
        ensures
            final(self).wf(),
            !final(self)@.contains(request_id@),
            forall|x: Seq<char>| x != request_id@ ==> (#[trigger] final(self)@.contains(x) <==> old(
                self,
            )@.contains(x)),
    {
        match self.position(request_id) {
            None => {},
            Some(i) => {
                let ghost before = self@;
                self.order.remove(i);
                proof {
                    assert(self@ =~= before.remove(i as int));
                    assert forall|a: int, b: int| 0 <= a < b < self@.len() implies self@[a]
                        != self@[b] by {
                        let a0 = if a < i { a } else { a + 1 };
                        let b0 = if b < i { b } else { b + 1 };
                        assert(self@[a] == before[a0] && self@[b] == before[b0]);
                    }
                    assert forall|x: Seq<char>| #[trigger] self@.contains(x) implies x
                        != request_id@ by {
                        let k = choose|k: int| 0 <= k < self@.len() && self@[k] == x;
                        let k0 = if k < i { k } else { k + 1 };
                        assert(self@[k] == before[k0]);
                        assert(k0 != i);
                    }
                    assert forall|x: Seq<char>| x != request_id@ implies (#[trigger] self@.contains(
                        x,
                    ) <==> before.contains(x)) by {
                        if before.contains(x) {
                            let k = choose|k: int| 0 <= k < before.len() && before[k] == x;
                            assert(k != i);
                            if k < i {
                                assert(self@[k] == x);
                            } else {
                                assert(self@[k - 1] == x);
                            }
                        }
                        if self@.contains(x) {
                            let k = choose|k: int| 0 <= k < self@.len() && self@[k] == x;
                            if k < i {
                                assert(before[k] == x);
                            } else {
                                assert(before[k + 1] == x);
                            }
                        }
                    }
                }
            },
        }
    }
}

/// What remembering an id does to the ids, oldest first: the id is
/// remembered; a known id changes nothing; a new one is added as the newest
/// and, past capacity, the oldest is forgotten, and no other id is.
pub open spec fn cache_insert_post(before: Seq<Seq<char>>, after: Seq<Seq<char>>, id: Seq<char>) -> bool {
    &&& after.contains(id)
    &&& forall|x: Seq<char>| #[trigger] after.contains(x) ==> x == id || before.contains(x)
    &&& forall|x: Seq<char>|
        before.contains(x) && !#[trigger] after.contains(x) ==> before.len()
            == ESCALATION_RESOLVED_CACHE_CAPACITY && x == before[0]
    &&& before.contains(id) ==> after == before
    &&& !before.contains(id) ==> after == (if before.len() == ESCALATION_RESOLVED_CACHE_CAPACITY {
        before.push(id).drop_first()
    } else {
        before.push(id)
    })
}

/// An agent's question to a human; the payload is its JSON text.
#[derive(Debug, Clone, PartialEq, Eq)]
pub struct EscalationRequest {
    pub id: String,
    pub issue_id: String,
    pub issue_identifier: String,
    pub method: String,
    pub payload: String,
    pub created_at_ms: i64,
    pub timeout_ms: u64,
}

fn clone_request(r: &EscalationRequest) -> (res: EscalationRequest)
    ensures
        res == *r,
{
    EscalationRequest {
        id: r.id.clone(),
        issue_id: r.issue_id.clone(),
        issue_identifier: r.issue_identifier.clone(),
        method: r.method.clone(),
        payload: r.payload.clone(),
        created_at_ms: r.created_at_ms,
        timeout_ms: r.timeout_ms,
    }
}

/// How answering an escalation ended.
#[derive(Debug, Clone, Copy, PartialEq, Eq, Structural)]
pub enum EscalationResolveResult {
    Resolved,
    NotFound,
    AlreadyResolved,
}

/// What looking up an escalation to answer found.
#[derive(Debug, Clone, PartialEq, Eq)]
pub enum EscalationLookup {
    /// It was pending; it is no longer, and its answer is to be delivered.
    Pending(EscalationRequest),
    AlreadyResolved,
    NotFound,
}

/// The pending escalations, and the memory of the answered ones.
pub struct EscalationRegistryState {
    pub pending: Vec<EscalationRequest>,
    pub resolved: ResolvedEscalationCache,
}

/// The first pending escalation with an id.
pub open spec fn pending_for(pending: Seq<EscalationRequest>, id: Seq<char>) -> Option<
    EscalationRequest,
>
    decreases pending.len(),
{
    if pending.len() == 0 {
        None
    } else if pending[0].id@ == id {
        Some(pending[0])
    } else {
        pending_for(pending.drop_first(), id)
    }
}

proof fn lemma_pending_for_push(s: Seq<EscalationRequest>, x: EscalationRequest, id: Seq<char>)
    ensures
        pending_for(s.push(x), id) == (if pending_for(s, id) is Some {
            pending_for(s, id)
        } else if x.id@ == id {
            Some(x)
        } else {
            None
        }),
    decreases s.len(),
{
    if s.len() == 0 {
        assert(s.push(x).drop_first() =~= s);
    } else {
        assert(s.push(x).drop_first() =~= s.drop_first().push(x));
        lemma_pending_for_push(s.drop_first(), x, id);
    }
}

/// The first pending request with an id is one of the pending requests,
/// and there is one exactly when some pending request has that id.
proof fn lemma_pending_for_found(s: Seq<EscalationRequest>, id: Seq<char>)
    ensures
        (pending_for(s, id) is Some) <==> (exists|j: int| 0 <= j < s.len() && #[trigger] s[j].id@ == id),
        pending_for(s, id) matches Some(r) ==> s.contains(r) && r.id@ == id,
    decreases s.len(),
{
    if s.len() > 0 {
        lemma_pending_for_found(s.drop_first(), id);
        if pending_for(s, id) is Some && s[0].id@ != id {
            let r = pending_for(s, id)->0;
            let j = choose|j: int| 0 <= j < s.drop_first().len() && s.drop_first()[j] == r;
            assert(s[j + 1] == r);
        }
        if exists|j: int| 0 <= j < s.len() && #[trigger] s[j].id@ == id {
            let j = choose|j: int| 0 <= j < s.len() && #[trigger] s[j].id@ == id;
            if j > 0 {
                assert(s.drop_first()[j - 1].id@ == id);
            }
        }
        if exists|j: int| 0 <= j < s.drop_first().len() && #[trigger] s.drop_first()[j].id@ == id {
            let j = choose|j: int| 0 <= j < s.drop_first().len() && #[trigger] s.drop_first()[j].id@ == id;
            assert(s[j + 1].id@ == id);
        }
        if s[0].id@ == id {
            assert(s[0] == s[0]);
        }
    }
}

/// The requests of an issue (`of_issue`), or all the others, in order.
pub open spec fn requests_of_issue(
    pending: Seq<EscalationRequest>,
    issue_id: Seq<char>,
    of_issue: bool,
) -> Seq<EscalationRequest>
    decreases pending.len(),
{
    if pending.len() == 0 {
        Seq::empty()
    } else {
        let rest = requests_of_issue(pending.drop_last(), issue_id, of_issue);
        if (pending.last().issue_id@ == issue_id) == of_issue {
            rest.push(pending.last())
        } else {
            rest
        }
    }
}

/// The requests picked out for an issue, or kept, are pending requests of
/// that issue, or of others.
proof fn lemma_requests_of_issue_from(p: Seq<EscalationRequest>, issue_id: Seq<char>, of_issue: bool)
    ensures
        forall|j: int|
            0 <= j < requests_of_issue(p, issue_id, of_issue).len() ==> p.contains(
                #[trigger] requests_of_issue(p, issue_id, of_issue)[j],
            ) && ((requests_of_issue(p, issue_id, of_issue)[j].issue_id@ == issue_id) == of_issue),
    decreases p.len(),
{
    if p.len() > 0 {
        lemma_requests_of_issue_from(p.drop_last(), issue_id, of_issue);
        let rest = requests_of_issue(p.drop_last(), issue_id, of_issue);
        let res = requests_of_issue(p, issue_id, of_issue);
        assert forall|j: int| 0 <= j < res.len() implies p.contains(#[trigger] res[j]) && ((
        res[j].issue_id@ == issue_id) == of_issue) by {
            if j < rest.len() {
                assert(res[j] == rest[j]);
                let m = choose|m: int| 0 <= m < p.drop_last().len() && p.drop_last()[m] == rest[j];
                assert(p[m] == rest[j]);
            } else {
                assert(res[j] == p.last());
                assert(p[p.len() - 1] == p.last());
            }
        }
    }
}

/// The pending list without the escalations of an id.
fn pending_without(pending: &Vec<EscalationRequest>, id: &str) -> (res: Vec<EscalationRequest>)
    ensures
        forall|k: Seq<char>|
            #[trigger] pending_for(res@, k) == (if k == id@ {
                None
            } else {
                pending_for(pending@, k)
            }),
        res@.len() <= pending@.len(),
        forall|j: int| 0 <= j < res@.len() ==> pending@.contains(#[trigger] res@[j]),
{
    let mut out: Vec<EscalationRequest> = Vec::new();
    let mut i: usize = 0;
    while i < pending.len()
        invariant
            i <= pending@.len(),
            out@.len() <= i,
            forall|j: int| 0 <= j < out@.len() ==> pending@.contains(#[trigger] out@[j]),
            forall|k: Seq<char>|
                #[trigger] pending_for(out@, k) == (if k == id@ {
                    None
                } else {
                    pending_for(pending@.take(i as int), k)
                }),
        decreases pending@.len() - i,
    {
        let ghost before = out@;
        proof {
            assert(pending@.take(i + 1) =~= pending@.take(i as int).push(pending@[i as int]));
        }
        if !str_eq(pending[i].id.as_str(), id) {
            out.push(clone_request(&pending[i]));
            proof {
                assert forall|j: int| 0 <= j < out@.len() implies pending@.contains(
                    #[trigger] out@[j],
                ) by {
                    if j == out@.len() - 1 {
                        assert(out@[j] == pending@[i as int]);
                    } else {
                        assert(out@[j] == before[j]);
                    }
                }
                assert forall|k: Seq<char>| #[trigger] pending_for(out@, k) == (if k == id@ {
                    None
                } else {
                    pending_for(pending@.take(i + 1), k)
                }) by {
                    lemma_pending_for_push(before, out@.last(), k);
                    lemma_pending_for_push(pending@.take(i as int), pending@[i as int], k);
                }
            }
        } else {
            proof {
                assert forall|k: Seq<char>| #[trigger] pending_for(out@, k) == (if k == id@ {
                    None
                } else {
                    pending_for(pending@.take(i + 1), k)
                }) by {
                    lemma_pending_for_push(pending@.take(i as int), pending@[i as int], k);
                }
            }
        }
        i = i + 1;
    }
    assert(pending@.take(pending@.len() as int) =~= pending@);
    out
}

/// What looking up an escalation to answer does: a pending request is
/// taken out and handed over; otherwise nothing changes and the answer says
/// whether the id was resolved before. Other ids are untouched.
pub open spec fn begin_resolve_post(
    old_state: EscalationRegistryState,
    new_state: EscalationRegistryState,
    request_id: Seq<char>,
    res: EscalationLookup,
) -> bool {
    &&& new_state.resolved == old_state.resolved
    &&& match pending_for(old_state.pending@, request_id) {
        Some(r) => res == EscalationLookup::Pending(r) && pending_for(
            new_state.pending@,
            request_id,
        ) is None,
        None => (if old_state.resolved@.contains(request_id) {
            res == EscalationLookup::AlreadyResolved
        } else {
            res == EscalationLookup::NotFound
        }) && new_state.pending@ == old_state.pending@,
    }
    &&& forall|k: Seq<char>|
        k != request_id ==> #[trigger] pending_for(new_state.pending@, k) == pending_for(
            old_state.pending@,
            k,
        )
}

/// What recording a delivery does: a delivered answer resolves the request
/// and its id is remembered; an undelivered one is reported as not found.
pub open spec fn finish_resolve_post(
    old_state: EscalationRegistryState,
    new_state: EscalationRegistryState,
    request_id: Seq<char>,
    delivered: bool,
    res: EscalationResolveResult,
) -> bool {
    &&& new_state.resolved.wf()
    &&& new_state.pending@ == old_state.pending@
    &&& delivered ==> res == EscalationResolveResult::Resolved && cache_insert_post(
        old_state.resolved@,
        new_state.resolved@,
        request_id,
    )
    &&& !delivered ==> res == EscalationResolveResult::NotFound && new_state.resolved
        == old_state.resolved
}

/// The registry's invariant: the memory of answered ids is well formed,
/// each pending request is the one found for its id (no id is pending
/// twice), and no pending id is remembered as resolved.
pub open spec fn registry_wf(s: EscalationRegistryState) -> bool {
    &&& s.resolved.wf()
    &&& forall|j: int|
        0 <= j < s.pending@.len() ==> pending_for(s.pending@, #[trigger] s.pending@[j].id@) == Some(
            s.pending@[j],
        )
    &&& forall|k: Seq<char>| #[trigger] pending_for(s.pending@, k) is Some ==> !s.resolved@.contains(k)
}

/// What cancelling an issue's escalations does: its pending requests are
/// handed back in order, the others stay pending in order, and the memory
/// of answered ids is untouched.
pub open spec fn cancel_for_issue_post(
    old_state: EscalationRegistryState,
    new_state: EscalationRegistryState,
    issue_id: Seq<char>,
    res: Seq<EscalationRequest>,
) -> bool {
    &&& res == requests_of_issue(old_state.pending@, issue_id, true)
    &&& new_state.pending@ == requests_of_issue(old_state.pending@, issue_id, false)
    &&& new_state.resolved == old_state.resolved
}

/// A pending list taken from a well-formed one, keeping some of its
/// requests and none of a given id, still has each request as the one
/// found for its id, and finds a request only where the old list did.
proof fn lemma_sublist_keeps_ids(old_p: Seq<EscalationRequest>, new_p: Seq<EscalationRequest>)
    requires
        forall|j: int|
            0 <= j < old_p.len() ==> pending_for(old_p, #[trigger] old_p[j].id@) == Some(old_p[j]),
        forall|j: int| 0 <= j < new_p.len() ==> old_p.contains(#[trigger] new_p[j]),
    ensures
        forall|j: int|
            0 <= j < new_p.len() ==> pending_for(new_p, #[trigger] new_p[j].id@) == Some(new_p[j]),
        forall|k: Seq<char>| #[trigger] pending_for(new_p, k) is Some ==> pending_for(old_p, k) == pending_for(new_p, k),
{
    assert forall|k: Seq<char>| #[trigger] pending_for(new_p, k) is Some implies pending_for(old_p, k)
        == pending_for(new_p, k) by {
        lemma_pending_for_found(new_p, k);
        let q = pending_for(new_p, k)->0;
        let m = choose|m: int| 0 <= m < old_p.len() && old_p[m] == q;
        assert(pending_for(old_p, old_p[m].id@) == Some(old_p[m]));
    }
    assert forall|j: int| 0 <= j < new_p.len() implies pending_for(new_p, #[trigger] new_p[j].id@)
        == Some(new_p[j]) by {
        lemma_pending_for_found(new_p, new_p[j].id@);
        assert(new_p[j].id@ == new_p[j].id@);
        let q = pending_for(new_p, new_p[j].id@)->0;
        let m = choose|m: int| 0 <= m < old_p.len() && old_p[m] == q;
        assert(pending_for(old_p, old_p[m].id@) == Some(old_p[m]));
        let m2 = choose|m2: int| 0 <= m2 < old_p.len() && old_p[m2] == new_p[j];
        assert(pending_for(old_p, old_p[m2].id@) == Some(old_p[m2]));
    }
}

impl EscalationRegistryState {
    pub fn new() -> (res: Self)
        ensures
            registry_wf(res),
            res.resolved@ == Seq::<Seq<char>>::empty(),
            forall|k: Seq<char>| #[trigger] pending_for(res.pending@, k) is None,
    {
        EscalationRegistryState { pending: Vec::new(), resolved: ResolvedEscalationCache::new() }
    }

    /// Register a request: it becomes the pending request of its id and its
    /// id is no longer remembered as resolved.
    pub fn register(&mut self, request: EscalationRequest)
        requires
            old(self).resolved.wf(),
        ensures
            final(self).resolved.wf(),
            pending_for(final(self).pending@, request.id@) == Some(request),
            !final(self).resolved@.contains(request.id@),
            forall|k: Seq<char>|
                k != request.id@ ==> #[trigger] pending_for(final(self).pending@, k) == pending_for(
                    old(self).pending@,
                    k,
                ) && (final(self).resolved@.contains(k) <==> old(self).resolved@.contains(k)),
            registry_wf(*old(self)) ==> registry_wf(*final(self)),
    {
        self.resolved.remove(request.id.as_str());
        let mut pending = pending_without(&self.pending, request.id.as_str());
        let ghost p0 = pending@;
        pending.push(request);
        proof {
            assert forall|k: Seq<char>| #[trigger] pending_for(pending@, k) == (if k == request.id@ {
                Some(request)
            } else {
                pending_for(old(self).pending@, k)
            }) by {
                lemma_pending_for_push(p0, request, k);
            }
            if registry_wf(*old(self)) {
                lemma_sublist_keeps_ids(old(self).pending@, p0);
                assert forall|j: int| 0 <= j < pending@.len() implies pending_for(
                    pending@,
                    #[trigger] pending@[j].id@,
                ) == Some(pending@[j]) by {
                    if j < p0.len() {
                        assert(pending@[j] == p0[j]);
                        lemma_pending_for_found(p0, request.id@);
                        assert(p0[j].id@ != request.id@);
                        lemma_pending_for_push(p0, request, p0[j].id@);
                    }
                }
            }
        }
        self.pending = pending;
    }

    /// Take the pending request of an id to deliver its answer; a request
    /// not pending was either resolved before or is unknown.
    pub fn begin_resolve(&mut self, request_id: &str) -> (res: EscalationLookup)
        requires
            old(self).resolved.wf(),
        ensures
            begin_resolve_post(*old(self), *final(self), request_id@, res),
            registry_wf(*old(self)) ==> registry_wf(*final(self)),
    {
        match self.find_pending(request_id) {
            Some(r) => {
                self.pending = pending_without(&self.pending, request_id);
                proof {
                    if registry_wf(*old(self)) {
                        lemma_sublist_keeps_ids(old(self).pending@, self.pending@);
                    }
                }
                EscalationLookup::Pending(r)
            },
            None => {
                if self.resolved.contains(request_id) {
                    EscalationLookup::AlreadyResolved
                } else {
                    EscalationLookup::NotFound
                }
            },
        }
    }

    /// Record how delivering an answer went: a delivered answer resolves
    /// the request and is remembered; an undelivered one is reported as
    /// not found.
    pub fn finish_resolve(&mut self, request_id: String, delivered: bool) -> (res:
        EscalationResolveResult)
        requires
            old(self).resolved.wf(),
        ensures
            finish_resolve_post(*old(self), *final(self), request_id@, delivered, res),
            registry_wf(*old(self)) && pending_for(old(self).pending@, request_id@) is None
                ==> registry_wf(*final(self)),
    {
        if delivered {
            self.resolved.insert(request_id);
            EscalationResolveResult::Resolved
        } else {
            EscalationResolveResult::NotFound
        }
    }

    /// Drop the pending request of an id; whether there was one.
    pub fn remove(&mut self, request_id: &str) -> (res: bool)
        ensures
            res == (pending_for(old(self).pending@, request_id@) is Some),
            pending_for(final(self).pending@, request_id@) is None,
            final(self).resolved == old(self).resolved,
            forall|k: Seq<char>|
                k != request_id@ ==> #[trigger] pending_for(final(self).pending@, k) == pending_for(
                    old(self).pending@,
                    k,
                ),
            registry_wf(*old(self)) ==> registry_wf(*final(self)),
    {
        let found = self.find_pending(request_id).is_some();
        self.pending = pending_without(&self.pending, request_id);
        proof {
            if registry_wf(*old(self)) {
                lemma_sublist_keeps_ids(old(self).pending@, self.pending@);
            }
        }
        found
    }

    /// Cancel every pending request of an issue; returns them in order. None
    /// of them is remembered as resolved.
    pub fn cancel_for_issue(&mut self, issue_id: &str) -> (res: Vec<EscalationRequest>)
        ensures
            cancel_for_issue_post(*old(self), *final(self), issue_id@, res@),
            registry_wf(*old(self)) ==> registry_wf(*final(self)),
            registry_wf(*old(self)) ==> forall|j: int|
                0 <= j < res@.len() ==> !final(self).resolved@.contains(#[trigger] res@[j].id@),
    {
        let mut cancelled: Vec<EscalationRequest> = Vec::new();
        let mut kept: Vec<EscalationRequest> = Vec::new();
        let mut i: usize = 0;
        while i < self.pending.len()
            invariant
                i <= self.pending@.len(),
                cancelled@ == requests_of_issue(self.pending@.take(i as int), issue_id@, true),
                kept@ == requests_of_issue(self.pending@.take(i as int), issue_id@, false),
            decreases self.pending@.len() - i,
        {
            proof {
                assert(self.pending@.take(i + 1).drop_last() =~= self.pending@.take(i as int));
            }
            let r = clone_request(&self.pending[i]);
            if str_eq(r.issue_id.as_str(), issue_id) {
                cancelled.push(r);
            } else {
                kept.push(r);
            }
            i = i + 1;
        }
        assert(self.pending@.take(self.pending@.len() as int) =~= self.pending@);
        proof {
            lemma_requests_of_issue_from(old(self).pending@, issue_id@, false);
            lemma_requests_of_issue_from(old(self).pending@, issue_id@, true);
            if registry_wf(*old(self)) {
                lemma_sublist_keeps_ids(old(self).pending@, kept@);
                assert forall|j: int| 0 <= j < cancelled@.len() implies !self.resolved@.contains(
                    #[trigger] cancelled@[j].id@,
                ) by {
                    let m = choose|m: int|
                        0 <= m < old(self).pending@.len() && old(self).pending@[m] == cancelled@[j];
                    assert(pending_for(old(self).pending@, old(self).pending@[m].id@) is Some);
                }
            }
        }
        self.pending = kept;
        cancelled
    }

    fn find_pending(&self, request_id: &str) -> (res: Option<EscalationRequest>)
        ensures
            res == pending_for(self.pending@, request_id@),
    {
        let mut i: usize = 0;
        assert(self.pending@.subrange(0, self.pending@.len() as int) =~= self.pending@);
        while i < self.pending.len()
            invariant
                i <= self.pending@.len(),
                pending_for(self.pending@, request_id@) == pending_for(
                    self.pending@.subrange(i as int, self.pending@.len() as int),
                    request_id@,
                ),
            decreases self.pending@.len() - i,
        {
            proof {
                let sub = self.pending@.subrange(i as int, self.pending@.len() as int);
                assert(sub[0] == self.pending@[i as int]);
                assert(sub.drop_first() =~= self.pending@.subrange(
                    i + 1,
                    self.pending@.len() as int,
                ));
            }
            if str_eq(self.pending[i].id.as_str(), request_id) {
                return Some(clone_request(&self.pending[i]));
            }
            i = i + 1;
        }
        None
    }
}

/// Answering a registered escalation resolves it, and answering it again
/// is told apart from an unknown request: it was already resolved.
pub proof fn lemma_second_answer_is_already_resolved(
    s0: EscalationRegistryState,
    s1: EscalationRegistryState,
    s2: EscalationRegistryState,
    s3: EscalationRegistryState,
    request: EscalationRequest,
    first: EscalationLookup,
    outcome: EscalationResolveResult,
    second: EscalationLookup,
)
    requires
        pending_for(s0.pending@, request.id@) == Some(request),
        begin_resolve_post(s0, s1, request.id@, first),
        finish_resolve_post(s1, s2, request.id@, true, outcome),
        begin_resolve_post(s2, s3, request.id@, second),
    ensures
        first == EscalationLookup::Pending(request),
        outcome == EscalationResolveResult::Resolved,
        second == EscalationLookup::AlreadyResolved,
{
}

/// A cancelled escalation is not remembered as resolved: answering it
/// afterwards finds nothing.
pub proof fn lemma_cancelled_escalation_is_not_found(
    s0: EscalationRegistryState,
    s1: EscalationRegistryState,
    s2: EscalationRegistryState,
    issue_id: Seq<char>,
    cancelled: Seq<EscalationRequest>,
    request: EscalationRequest,
    answer: EscalationLookup,
)
    requires
        registry_wf(s0),
        cancel_for_issue_post(s0, s1, issue_id, cancelled),
        cancelled.contains(request),
        begin_resolve_post(s1, s2, request.id@, answer),
    ensures
        answer == EscalationLookup::NotFound,
{
    lemma_requests_of_issue_from(s0.pending@, issue_id, true);
    lemma_requests_of_issue_from(s0.pending@, issue_id, false);
    let j = choose|j: int| 0 <= j < cancelled.len() && cancelled[j] == request;
    assert(cancelled[j] == request);
    let m = choose|m: int| 0 <= m < s0.pending@.len() && s0.pending@[m] == request;
    assert(pending_for(s0.pending@, s0.pending@[m].id@) == Some(request));
    lemma_pending_for_found(s1.pending@, request.id@);
    if pending_for(s1.pending@, request.id@) is Some {
        let q = pending_for(s1.pending@, request.id@)->0;
        let i = choose|i: int| 0 <= i < s1.pending@.len() && s1.pending@[i] == q;
        assert(s1.pending@[i] == q);
        let n = choose|n: int| 0 <= n < s0.pending@.len() && s0.pending@[n] == q;
        assert(pending_for(s0.pending@, s0.pending@[n].id@) == Some(q));
    }
}

/// Answering a registered escalation hands its answer over once: the
/// request is no longer pending, a second answer is told it was already
/// resolved, and an id that was never registered nor answered is still
/// not found.
pub proof fn lemma_resolving_one_request(
    s0: EscalationRegistryState,
    s1: EscalationRegistryState,
    s2: EscalationRegistryState,
    s3: EscalationRegistryState,
    s4: EscalationRegistryState,
    request: EscalationRequest,
    unknown_id: Seq<char>,
    first: EscalationLookup,
    outcome: EscalationResolveResult,
    second: EscalationLookup,
    third: EscalationLookup,
)
    requires
        pending_for(s0.pending@, request.id@) == Some(request),
        pending_for(s0.pending@, unknown_id) is None,
        !s0.resolved@.contains(unknown_id),
        unknown_id != request.id@,
        begin_resolve_post(s0, s1, request.id@, first),
        finish_resolve_post(s1, s2, request.id@, true, outcome),
        begin_resolve_post(s2, s3, request.id@, second),
        begin_resolve_post(s3, s4, unknown_id, third),
    ensures
        first == EscalationLookup::Pending(request),
        outcome == EscalationResolveResult::Resolved,
        pending_for(s2.pending@, request.id@) is None,
        second == EscalationLookup::AlreadyResolved,
        third == EscalationLookup::NotFound,
{
    assert(!s2.resolved@.contains(unknown_id));
}

/// An answer that could not be delivered leaves the request unknown: a
/// second answer finds nothing.
pub proof fn lemma_undelivered_answer_is_forgotten(
    s0: EscalationRegistryState,
    s1: EscalationRegistryState,
    s2: EscalationRegistryState,
    s3: EscalationRegistryState,
    request: EscalationRequest,
    first: EscalationLookup,
    outcome: EscalationResolveResult,
    second: EscalationLookup,
)
    requires
        pending_for(s0.pending@, request.id@) == Some(request),
        !s0.resolved@.contains(request.id@),
        begin_resolve_post(s0, s1, request.id@, first),
        finish_resolve_post(s1, s2, request.id@, false, outcome),
        begin_resolve_post(s2, s3, request.id@, second),
    ensures
        outcome == EscalationResolveResult::NotFound,
        second == EscalationLookup::NotFound,
{
}

} // verus!

verus! {

/// The question an escalation asks: the first of its `questions` (its
/// `question`, else its `prompt`), else its own `question` or `prompt`,
/// else its JSON text cut to 120 characters; the whole cut to 120
/// characters.
pub open spec fn escalation_preview_spec(payload: JsonValue) -> Seq<char> {
    let from_questions = match json_get(payload, "questions"@) {
        Some(JsonValue::Array(items)) => if items@.len() > 0 {
            match str_field(items@[0], "question"@) {
                Some(t) => Some(t),
                None => str_field(items@[0], "prompt"@),
            }
        } else {
            None
        },
        _ => None,
    };
    let preview = match from_questions {
        Some(t) => t,
        None => match str_field(payload, "question"@) {
            Some(t) => t,
            None => match str_field(payload, "prompt"@) {
                Some(t) => t,
                None => truncate_spec(json_text(payload), 120),
            },
        },
    };
    truncate_spec(preview, 120)
}

pub fn escalation_preview(payload: &JsonValue) -> (res: String)
    ensures
        res@ == escalation_preview_spec(*payload),
{
    let from_questions: Option<String> = match get_field(payload, "questions") {
        Some(JsonValue::Array(items)) => if items.len() > 0 {
            match field_string(&items[0], "question") {
                Some(t) => Some(t),
                None => field_string(&items[0], "prompt"),
            }
        } else {
            None
        },
        _ => None,
    };
    let preview = match from_questions {
        Some(t) => t,
        None => match field_string(payload, "question") {
            Some(t) => t,
            None => match field_string(payload, "prompt") {
                Some(t) => t,
                None => {
                    let text = to_json_text(payload);
                    truncate_for_display(text.as_str(), 120)
                },
            },
        },
    };
    truncate_for_display(preview.as_str(), 120)
}

/// A text as a JSON string, or `null` when there is none.
pub open spec fn holds_text_or_null(v: Option<JsonValue>, t: Option<&str>) -> bool {
    match t {
        Some(s) => v matches Some(JsonValue::Str(x)) && x@ == s@,
        None => v == Some(JsonValue::Null),
    }
}

fn text_or_null(t: Option<&str>) -> (res: JsonValue)
    ensures
        holds_text_or_null(Some(res), t),
{
    match t {
        Some(s) => JsonValue::Str(s.to_owned()),
        None => JsonValue::Null,
    }
}

/// The three keys an escalation payload is given.
pub open spec fn enrichment_key(k: Seq<char>) -> bool {
    k == "issue_identifier"@ || k == "issue_state"@ || k == "parent_identifier"@
}

/// Give an escalation's payload the issue it belongs to: a payload that is
/// not an object is first kept under `raw_payload` of a new object; then
/// `issue_identifier`, `issue_state` and `parent_identifier` are set (the
/// last two `null` when unknown). Every other key keeps its value, and
/// sorted keys stay sorted.
pub fn enrich_escalation_payload(
    payload: &mut JsonValue,
    issue_identifier: &str,
    issue_state: Option<&str>,
    parent_identifier: Option<&str>,
)
    ensures
        *final(payload) matches JsonValue::Object(entries) && {
            &&& entries_get(entries@, "issue_identifier"@) matches Some(JsonValue::Str(s)) && s@
                == issue_identifier@
            &&& holds_text_or_null(entries_get(entries@, "issue_state"@), issue_state)
            &&& holds_text_or_null(entries_get(entries@, "parent_identifier"@), parent_identifier)
            &&& forall|k: Seq<char>|
                !enrichment_key(k) ==> #[trigger] entries_get(entries@, k) == match *old(payload) {
                    JsonValue::Object(p) => entries_get(p@, k),
                    other => if k == "raw_payload"@ {
                        Some(other)
                    } else {
                        None
                    },
                }
            &&& (match *old(payload) {
                JsonValue::Object(p) => keys_sorted(p@),
                _ => true,
            }) ==> keys_sorted(entries@)
        },
{
    proof {
        reveal_strlit("issue_identifier");
        reveal_strlit("issue_state");
        reveal_strlit("parent_identifier");
        reveal_strlit("raw_payload");
        assert("issue_state"@.len() != "issue_identifier"@.len());
        assert("parent_identifier"@.len() != "issue_identifier"@.len());
        assert("parent_identifier"@.len() != "issue_state"@.len());
    }
    let mut taken = JsonValue::Null;
    std::mem::swap(&mut taken, payload);
    let mut entries: Vec<(String, JsonValue)> = match taken {
        JsonValue::Object(map) => map,
        other => {
            let mut m: Vec<(String, JsonValue)> = Vec::new();
            m.push(("raw_payload".to_owned(), other));
            proof {
                assert(m@[0].0@ == "raw_payload"@);
                assert forall|k: Seq<char>| #[trigger] entries_get(m@, k) == (if k == "raw_payload"@ {
                    Some(other)
                } else {
                    None
                }) by {
                    reveal_with_fuel(entries_get, 2);
                    assert(m@.drop_first() =~= Seq::<(String, JsonValue)>::empty());
                }
            }
            m
        },
    };
    let ghost start = entries@;
    map_insert(&mut entries, "issue_identifier".to_owned(), JsonValue::Str(issue_identifier.to_owned()));
    let ghost after_one = entries@;
    map_insert(&mut entries, "issue_state".to_owned(), text_or_null(issue_state));
    let ghost after_two = entries@;
    map_insert(&mut entries, "parent_identifier".to_owned(), text_or_null(parent_identifier));
    proof {
        assert(entries_get(after_two, "issue_identifier"@) == entries_get(after_one, "issue_identifier"@));
        assert(entries_get(entries@, "issue_identifier"@) == entries_get(after_two, "issue_identifier"@));
        assert(entries_get(entries@, "issue_state"@) == entries_get(after_two, "issue_state"@));
        assert forall|k: Seq<char>| !enrichment_key(k) implies #[trigger] entries_get(entries@, k)
            == entries_get(start, k) by {
            assert(entries_get(entries@, k) == entries_get(after_two, k));
            assert(entries_get(after_two, k) == entries_get(after_one, k));
        }
        if start.len() == 1 && start[0].0@ == "raw_payload"@ {
            assert(keys_sorted(start));
        }
    }
    *payload = JsonValue::Object(entries);
}

/// A pending escalation as the dashboard lists it.
#[derive(Debug, Clone, PartialEq, Eq)]
pub struct PendingEscalation {
    pub request_id: String,
    pub issue_id: String,
    pub issue_identifier: String,
    pub method: String,
    pub preview: String,
    pub created_at_ms: i64,
    pub timeout_ms: u64,
}

/// A request put into a list ordered by creation time: after every request
/// created at the same time or earlier.
pub open spec fn insert_by_creation(sorted: Seq<EscalationRequest>, r: EscalationRequest) -> Seq<
    EscalationRequest,
>
    decreases sorted.len(),
{
    if sorted.len() == 0 {
        seq![r]
    } else if sorted.last().created_at_ms <= r.created_at_ms {
        sorted.push(r)
    } else {
        insert_by_creation(sorted.drop_last(), r).push(sorted.last())
    }
}

/// Requests ordered by creation time; those created at the same time keep
/// their order.
pub open spec fn by_creation(s: Seq<EscalationRequest>) -> Seq<EscalationRequest>
    decreases s.len(),
{
    if s.len() == 0 {
        Seq::empty()
    } else {
        insert_by_creation(by_creation(s.drop_last()), s.last())
    }
}

/// Ordered by creation time.
pub open spec fn creation_ordered(s: Seq<EscalationRequest>) -> bool {
    forall|i: int, j: int| 0 <= i < j < s.len() ==> s[i].created_at_ms <= s[j].created_at_ms
}

/// The question a stored payload asks: its JSON read for the question,
/// else, when it is not JSON, the text itself as a JSON string.
pub open spec fn payload_preview(text: Seq<char>) -> Seq<char> {
    match parsed_json(text) {
        Some(v) => escalation_preview_spec(v),
        None => truncate_spec(truncate_spec(quoted(text), 120), 120),
    }
}

/// The question a stored escalation payload (JSON text) asks.
pub fn escalation_preview_text(payload_text: &str) -> (res: String)
    ensures
        res@ == payload_preview(payload_text@),
{
    match parse_json(payload_text) {
        Some(v) => escalation_preview(&v),
        None => escalation_preview(&JsonValue::Str(payload_text.to_owned())),
    }
}

/// How a pending request is listed.
pub open spec fn lists_request(p: PendingEscalation, r: EscalationRequest) -> bool {
    &&& p.request_id == r.id
    &&& p.issue_id == r.issue_id
    &&& p.issue_identifier == r.issue_identifier
    &&& p.method == r.method
    &&& p.preview@ == payload_preview(r.payload@)
    &&& p.created_at_ms == r.created_at_ms
    &&& p.timeout_ms == r.timeout_ms
}

proof fn lemma_insert_by_creation(sorted: Seq<EscalationRequest>, r: EscalationRequest)
    requires
        creation_ordered(sorted),
    ensures
        creation_ordered(insert_by_creation(sorted, r)),
        insert_by_creation(sorted, r).to_multiset() =~= sorted.to_multiset().insert(r),
        insert_by_creation(sorted, r).len() == sorted.len() + 1,
    decreases sorted.len(),
{
    broadcast use vstd::seq_lib::group_to_multiset_ensures;

    if sorted.len() > 0 && sorted.last().created_at_ms > r.created_at_ms {
        let front = sorted.drop_last();
        lemma_insert_by_creation(front, r);
        let ins = insert_by_creation(front, r);
        assert(sorted =~= front.push(sorted.last()));
        assert forall|k: int| 0 <= k < ins.len() implies #[trigger] ins[k].created_at_ms
            <= sorted.last().created_at_ms by {
            assert(ins.to_multiset().count(ins[k]) > 0);
            if ins[k] != r {
                assert(front.to_multiset().count(ins[k]) > 0);
                let m = choose|m: int| 0 <= m < front.len() && front[m] == ins[k];
                assert(sorted[m] == front[m]);
            }
        }
    }
}

/// Ordering requests by creation time keeps every request exactly once and
/// orders them.
pub proof fn lemma_by_creation_orders(s: Seq<EscalationRequest>)
    ensures
        creation_ordered(by_creation(s)),
        by_creation(s).to_multiset() =~= s.to_multiset(),
        by_creation(s).len() == s.len(),
    decreases s.len(),
{
    broadcast use vstd::seq_lib::group_to_multiset_ensures;

    if s.len() > 0 {
        lemma_by_creation_orders(s.drop_last());
        lemma_insert_by_creation(by_creation(s.drop_last()), s.last());
        assert(s =~= s.drop_last().push(s.last()));
    }
}

fn insert_request_by_creation(sorted: Vec<EscalationRequest>, r: EscalationRequest) -> (res: Vec<
    EscalationRequest,
>)
    ensures
        res@ == insert_by_creation(sorted@, r),
    decreases sorted@.len(),
{
    let mut sorted = sorted;
    if sorted.len() == 0 {
        sorted.push(r);
        assert(sorted@ =~= seq![r]);
        return sorted;
    }
    let ghost before = sorted@;
    let last = sorted.pop().unwrap();
    proof {
        assert(sorted@ =~= before.drop_last());
    }
    if last.created_at_ms <= r.created_at_ms {
        sorted.push(last);
        sorted.push(r);
        assert(sorted@ =~= before.push(r));
        sorted
    } else {
        let mut res = insert_request_by_creation(sorted, r);
        res.push(last);
        res
    }
}

fn pending_entry(r: &EscalationRequest) -> (res: PendingEscalation)
    ensures
        lists_request(res, *r),
{
    PendingEscalation {
        request_id: r.id.clone(),
        issue_id: r.issue_id.clone(),
        issue_identifier: r.issue_identifier.clone(),
        method: r.method.clone(),
        preview: escalation_preview_text(r.payload.as_str()),
        created_at_ms: r.created_at_ms,
        timeout_ms: r.timeout_ms,
    }
}

impl EscalationRegistryState {
    /// The pending escalations as listed, oldest first; those created at
    /// the same time in the order they are pending.
    pub fn pending_snapshot(&self) -> (res: Vec<PendingEscalation>)
        ensures
            res@.len() == self.pending@.len(),
            forall|i: int|
                0 <= i < res@.len() ==> lists_request(
                    #[trigger] res@[i],
                    by_creation(self.pending@)[i],
                ),
            forall|i: int, j: int|
                0 <= i < j < res@.len() ==> res@[i].created_at_ms <= res@[j].created_at_ms,
    {
        let mut sorted: Vec<EscalationRequest> = Vec::new();
        let mut i: usize = 0;
        while i < self.pending.len()
            invariant
                i <= self.pending@.len(),
                sorted@ == by_creation(self.pending@.take(i as int)),
            decreases self.pending@.len() - i,
        {
            proof {
                assert(self.pending@.take(i + 1).drop_last() =~= self.pending@.take(i as int));
            }
            sorted = insert_request_by_creation(sorted, clone_request(&self.pending[i]));
            i = i + 1;
        }
        proof {
            assert(self.pending@.take(self.pending@.len() as int) =~= self.pending@);
            lemma_by_creation_orders(self.pending@);
        }
        let mut out: Vec<PendingEscalation> = Vec::new();
        let mut k: usize = 0;
        while k < sorted.len()
            invariant
                k <= sorted@.len(),
                out@.len() == k,
                forall|j: int| 0 <= j < k ==> lists_request(#[trigger] out@[j], sorted@[j]),
            decreases sorted@.len() - k,
        {
            out.push(pending_entry(&sorted[k]));
            k = k + 1;
        }
        assert(forall|i: int, j: int|
            0 <= i < j < out@.len() ==> out@[i].created_at_ms == sorted@[i].created_at_ms
                && out@[j].created_at_ms == sorted@[j].created_at_ms);
        out
    }
}

} // verus!
