//! What is made of measurements, over the measurements themselves.
use crate::candidates::{CandidateView, PlanView};
use crate::failover::{best_index, RoundView};
use crate::machine::MachineView;
use crate::round::{batch_latencies, blocked_by_restart, measured, RuntimeProbeBatch};
use crate::selection::{all_unreachable, is_best, law_best_candidate_exists};
use vstd::prelude::*;

verus! {

/// A measurement is taken as it is: a candidate has the latency that the pool holds for its id, to
/// the millisecond, and is unreachable where the pool holds none.
pub proof fn law_measurements_are_taken_as_they_are(
    candidates: Seq<CandidateView>,
    latencies: Map<Seq<char>, Option<u32>>,
    i: int,
    ms: u32,
)
    requires
        0 <= i < candidates.len(),
    ensures
        measured(candidates, latencies).len() == candidates.len(),
        latencies.contains_key(candidates[i].id) && latencies[candidates[i].id] == Some(ms)
            <==> measured(candidates, latencies)[i] == Some(ms),
        !latencies.contains_key(candidates[i].id) || latencies[candidates[i].id] is None
            <==> measured(candidates, latencies)[i] is None,
{
}

/// A completed batch is measured by the pool's own table.
pub proof fn law_batches_are_measured_by_their_table(plan: PlanView, batch: RuntimeProbeBatch, i: int)
    requires
        batch is Completed,
        0 <= i < plan.candidates.len(),
    ensures
        ({
            let table = batch->Completed_0@;
            let id = plan.candidates[i].id;
            &&& batch_latencies(plan, batch).len() == plan.candidates.len()
            &&& table.contains_key(id) ==> batch_latencies(plan, batch)[i] == table[id]
            &&& !table.contains_key(id) ==> batch_latencies(plan, batch)[i] is None
        }),
{
}

/// The best of some measurements is one that was reached, is no slower than any that was, and is
/// faster than every earlier one that was.
pub proof fn law_best_is_the_first_of_the_fastest(latencies: Seq<Option<u32>>, b: int)
    ensures
        is_best(latencies, b) <==> {
            &&& 0 <= b < latencies.len()
            &&& latencies[b] is Some
            &&& forall|j: int|
                0 <= j < latencies.len() && #[trigger] latencies[j] is Some ==> latencies[b]->0
                    <= latencies[j]->0 && (j < b ==> latencies[b]->0 < latencies[j]->0)
        },
        all_unreachable(latencies) <==> forall|j: int|
            0 <= j < latencies.len() ==> #[trigger] latencies[j] is None,
{
}

/// A round that goes on to switch does so to the candidate with the smallest latency in the pool's
/// own table, the first of several, and announces that very latency, under that candidate's name.
pub proof fn law_round_switches_to_the_fastest(
    r: RoundView,
    batch: RuntimeProbeBatch,
    still_current: bool,
    m: MachineView,
)
    requires
        r.phase is Probing,
        r.after_pick(batch, still_current, m).phase is Switching,
    ensures
        ({
            let t = r.after_pick(batch, still_current, m).target->0;
            let table = batch->Completed_0@;
            &&& still_current && batch is Completed
            &&& exists|b: int|
                {
                    &&& 0 <= b < r.plan.candidates.len()
                    &&& #[trigger] r.plan.candidates[b] == t.candidate
                    &&& forall|j: int|
                        0 <= j < b && table.contains_key((#[trigger] r.plan.candidates[j]).id)
                            && table[r.plan.candidates[j].id] is Some ==> t.latency
                            < table[r.plan.candidates[j].id]->0
                }
            &&& table.contains_key(t.candidate.id) && table[t.candidate.id] == Some(t.latency)
            &&& forall|j: int|
                0 <= j < r.plan.candidates.len() && table.contains_key(
                    (#[trigger] r.plan.candidates[j]).id,
                ) && table[r.plan.candidates[j].id] is Some ==> t.latency
                    <= table[r.plan.candidates[j].id]->0
            &&& t.new_server_name == t.candidate.name
            &&& t.reason == r.reason
            &&& r.fingerprints.contains_key(t.candidate.id) && t.fingerprint
                == r.fingerprints[t.candidate.id]@
        }),
{
    let table = batch->Completed_0@;
    let latencies = batch_latencies(r.plan, batch);
    law_best_candidate_exists(latencies);
    let b = best_index(latencies);
    assert(is_best(latencies, b));
    assert forall|j: int|
        0 <= j < r.plan.candidates.len() && table.contains_key(
            (#[trigger] r.plan.candidates[j]).id,
        ) && table[r.plan.candidates[j].id] is Some implies latencies[j]
        == table[r.plan.candidates[j].id] by {}
    let t = r.after_pick(batch, still_current, m).target->0;
    assert(r.plan.candidates[b] == t.candidate);
    assert(latencies[b] == Some(t.latency));
}

/// How a round takes the answer of the probe pool: it gives way where the pool was in use or
/// interrupted, or the core replaced; it finds nobody where no candidate is in the pool's table with
/// a latency; and it goes on to switch otherwise, unless the fastest has no fingerprint any more.
pub proof fn law_round_takes_the_pool_at_its_word(
    r: RoundView,
    batch: RuntimeProbeBatch,
    still_current: bool,
    m: MachineView,
)
    requires
        r.phase is Probing,
    ensures
        ({
            let next = r.after_pick(batch, still_current, m).phase;
            let nobody = forall|j: int|
                0 <= j < r.plan.candidates.len() ==> !(batch->Completed_0@.contains_key(
                    (#[trigger] r.plan.candidates[j]).id,
                ) && batch->Completed_0@[r.plan.candidates[j].id] is Some);
            &&& batch is Busy <==> next is Done && next->Done_0 is Busy
            &&& batch is Interrupted <==> next is Done && next->Done_0 is Interrupted
            &&& batch is Completed && !still_current <==> next is Done && next->Done_0 is Overtaken
            &&& batch is Completed && still_current && nobody <==> next is Done
                && next->Done_0 is Unreachable
            &&& batch is Completed && still_current && !nobody <==> next is Switching || (next
                is Done && next->Done_0 is Unknown)
            &&& next is Done && next->Done_0 is Unreachable ==> (next->Done_0->Unreachable_report
                is Some <==> r.plan.needs_restart > 0 && !m.restart_blocked_reported)
        }),
{
    if batch is Completed {
        let latencies = batch_latencies(r.plan, batch);
        assert forall|j: int| 0 <= j < r.plan.candidates.len() implies (
        #[trigger] latencies[j] is Some <==> batch->Completed_0@.contains_key(
            r.plan.candidates[j].id,
        ) && batch->Completed_0@[r.plan.candidates[j].id] is Some) by {}
        if all_unreachable(latencies) {
            assert forall|j: int| 0 <= j < r.plan.candidates.len() implies !(
            batch->Completed_0@.contains_key((#[trigger] r.plan.candidates[j]).id)
                && batch->Completed_0@[r.plan.candidates[j].id] is Some) by {
                assert(latencies[j] is None);
            }
        } else {
            let j = choose|j: int| 0 <= j < latencies.len() && !(#[trigger] latencies[j] is None);
            assert(batch->Completed_0@.contains_key(r.plan.candidates[j].id));
        }
    }
}

/// The report of candidates lost to restarts is made where there is cause and it was not made yet,
/// and claims the one report of the generation; without cause nothing is claimed.
pub proof fn law_report_needs_cause_and_claim(m: MachineView, cause: bool, plan: PlanView)
    ensures
        m.report_for(cause) is Some <==> cause && !m.restart_blocked_reported,
        m.report_for(cause) is Some ==> m.report_for(cause)->0 is AutoSwitchNeedsRestart,
        m.after_report_for(cause).restart_blocked_reported <==> cause
            || m.restart_blocked_reported,
        m.after_report_for(cause).enabled == m.enabled,
        m.after_report_for(cause).consecutive_failures == m.consecutive_failures,
        m.after_report_for(cause).is_switching == m.is_switching,
        m.after_report_for(cause).last_switch_time == m.last_switch_time,
        m.after_report_for(cause).consecutive_switches == m.consecutive_switches,
        m.after_report_for(cause).breaker_tripped_at == m.breaker_tripped_at,
        blocked_by_restart(plan) <==> plan.candidates.len() == 0 && plan.needs_restart > 0,
{
}

} // verus!
