//! Choice of the node to fail over to, once the candidates have been measured.
use crate::candidates::RuntimeCandidatePlan;
use vstd::prelude::*;

verus! {

/// A candidate and its measured latency; `None` means unreachable.
#[derive(Debug, PartialEq, Eq)]
pub struct CandidateLatency {
    pub id: String,
    pub name: String,
    pub latency_ms: Option<u32>,
}

impl Clone for CandidateLatency {
    fn clone(&self) -> (r: Self)
        ensures
            r == *self,
    {
        CandidateLatency {
            id: self.id.clone(),
            name: self.name.clone(),
            latency_ms: self.latency_ms,
        }
    }
}

/// The measured latencies of a list of candidates.
pub open spec fn latencies_of(candidates: Seq<CandidateLatency>) -> Seq<Option<u32>> {
    candidates.map_values(|c: CandidateLatency| c.latency_ms)
}

/// The `i`-th latency is the one to go for: reachable, no slower than any other, and the first of
/// those that are equally fast.
pub open spec fn is_best(latencies: Seq<Option<u32>>, i: int) -> bool {
    &&& 0 <= i < latencies.len()
    &&& latencies[i] is Some
    &&& forall|j: int|
        0 <= j < latencies.len() && #[trigger] latencies[j] is Some ==> latencies[i]->0
            <= latencies[j]->0
    &&& forall|j: int|
        0 <= j < i && #[trigger] latencies[j] is Some ==> latencies[i]->0 < latencies[j]->0
}

/// Nothing is reachable.
pub open spec fn all_unreachable(latencies: Seq<Option<u32>>) -> bool {
    forall|j: int| 0 <= j < latencies.len() ==> #[trigger] latencies[j] is None
}

/// The reachable candidate with the lowest latency, the first of several that are equally fast;
/// `None` where none is reachable.
#[must_use]
pub fn select_best_candidate(candidates: &[CandidateLatency]) -> (r: Option<&CandidateLatency>)
    ensures
        match r {
            Some(best) => exists|i: int|
                #[trigger] is_best(latencies_of(candidates@), i) && candidates@[i] == *best,
            None => all_unreachable(latencies_of(candidates@)),
        },
        match r {
            Some(best) => {
                &&& candidates@.contains(*best)
                &&& best.latency_ms is Some
                &&& forall|j: int|
                    0 <= j < candidates@.len() && (#[trigger] candidates@[j]).latency_ms is Some
                        ==> best.latency_ms->0 <= candidates@[j].latency_ms->0
            },
            None => forall|j: int|
                0 <= j < candidates@.len() ==> (#[trigger] candidates@[j]).latency_ms is None,
        },
{
    let ghost all = latencies_of(candidates@);
    let mut best: Option<usize> = None;
    let mut i: usize = 0;
    while i < candidates.len()
        invariant
            i <= candidates@.len(),
            all == latencies_of(candidates@),
            match best {
                Some(b) => b < i && is_best(all.take(i as int), b as int),
                None => all_unreachable(all.take(i as int)),
            },
        decreases candidates@.len() - i,
    {
        let ghost seen = all.take(i as int);
        let ghost more = all.take(i + 1);
        proof {
            assert(forall|j: int| 0 <= j < i ==> #[trigger] more[j] == seen[j]);
            assert(more[i as int] == candidates@[i as int].latency_ms);
            if best is Some {
                assert(seen[best->0 as int] == candidates@[best->0 as int].latency_ms);
            }
        }
        if let Some(latency) = candidates[i].latency_ms {
            let faster = match best {
                Some(b) => match candidates[b].latency_ms {
                    Some(least) => latency < least,
                    None => true,
                },
                None => true,
            };
            if faster {
                best = Some(i);
            }
        }
        i = i + 1;
    }
    assert(all.take(candidates@.len() as int) =~= all);
    assert(forall|j: int|
        0 <= j < candidates@.len() ==> (#[trigger] candidates@[j]).latency_ms == all[j]);
    match best {
        Some(b) => Some(&candidates[b]),
        None => None,
    }
}

/// The best candidate is unique: the choice is settled by the measurements alone.
pub proof fn law_best_candidate_is_unique(latencies: Seq<Option<u32>>, i: int, k: int)
    requires
        is_best(latencies, i),
        is_best(latencies, k),
    ensures
        i == k,
{
    assert(latencies[i]->0 <= latencies[k]->0);
    assert(latencies[k]->0 <= latencies[i]->0);
}

/// There is a best candidate exactly where some candidate is reachable.
pub proof fn law_best_candidate_exists(latencies: Seq<Option<u32>>)
    ensures
        all_unreachable(latencies) <==> !exists|i: int| is_best(latencies, i),
    decreases latencies.len(),
{
    if latencies.len() > 0 {
        let rest = latencies.drop_last();
        let last = latencies.len() - 1;
        law_best_candidate_exists(rest);
        assert(forall|j: int| 0 <= j < last ==> #[trigger] latencies[j] == rest[j]);
        if all_unreachable(rest) {
            if latencies[last] is Some {
                assert(is_best(latencies, last));
            }
        } else {
            let b = choose|i: int| is_best(rest, i);
            if latencies[last] is Some && latencies[last]->0 < rest[b]->0 {
                assert(is_best(latencies, last));
            } else {
                assert(latencies[b] == rest[b]);
                assert(is_best(latencies, b));
            }
        }
    }
}

/// What is announced after a completed switch.
#[derive(Debug, PartialEq, Eq)]
pub struct AutoNodeSwitchedPayload {
    /// Why the switch was made.
    pub reason: String,
    /// Display name of the new node.
    pub new_server_name: String,
    /// Measured latency of the new node, in milliseconds.
    pub latency: u32,
}

impl Clone for AutoNodeSwitchedPayload {
    fn clone(&self) -> (r: Self)
        ensures
            r == *self,
    {
        AutoNodeSwitchedPayload {
            reason: self.reason.clone(),
            new_server_name: self.new_server_name.clone(),
            latency: self.latency,
        }
    }
}

/// The announcement of a switch to `best`; `None` for an unreachable candidate, so that no latency
/// is ever made up.
#[must_use]
pub fn switch_payload(best: &CandidateLatency, reason: &str) -> (r: Option<AutoNodeSwitchedPayload>)
    ensures
        match (r, best.latency_ms) {
            (Some(payload), Some(latency)) => {
                &&& payload.reason@ == reason@
                &&& payload.new_server_name@ == best.name@
                &&& payload.latency == latency
            },
            (None, None) => true,
            _ => false,
        },
{
    match best.latency_ms {
        Some(latency) => Some(
            AutoNodeSwitchedPayload {
                reason: reason.to_owned(),
                new_server_name: best.name.clone(),
                latency,
            },
        ),
        None => None,
    }
}

/// Whether this round came to nothing for the one reason that the user can act on: no candidate is
/// left, and at least one was dropped because the core would have to restart for it.
///
/// Rounds that are empty for the other reasons are expected after an edit of the configuration and
/// are not reported.
#[must_use]
pub fn switch_blocked_by_restart(plan: &RuntimeCandidatePlan) -> (r: bool)
    ensures
        r == (plan@.candidates.len() == 0 && plan@.needs_restart > 0),
{
    plan.candidates.len() == 0 && plan.needs_restart > 0
}

} // verus!
