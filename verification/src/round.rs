//! One round of failover, from the trigger to the switch: what is decided between the readings, the
//! probes and the transaction that its driver performs.
use crate::candidates::{
    candidate_views, configured_entries, entry_of, law_candidates_are_fit, plan_runtime_candidates,
    texts, CandidateView, PlanView, Roster, RuntimeCandidate, RuntimeCandidatePlan,
};
use crate::config::{not_ready, not_ready_ids, selected_server_id, selection, selects};
use crate::json::{json_of, Json};
use crate::machine::{AutoSwitchMachine, MachineView};
use crate::mesh::UserConfig;
use crate::node_map::{NodeMap, NodeSet};
use crate::plan_laws::law_round_candidates_run_with_saved_parameters;
use crate::report::ReportCode;
use crate::selection::{
    all_unreachable, is_best, latencies_of, law_best_candidate_is_unique, select_best_candidate,
    switch_blocked_by_restart, switch_payload, AutoNodeSwitchedPayload, CandidateLatency,
};
use crate::sweep::{
    kept, law_kept_candidates_are_hot_switchable, sort_candidates, swept, verdict_at,
    CandidateSwitchPlan,
};
use crate::text::same_text;
use crate::transaction::{optional_json, AutoHotSwitchOutcome, StagedNodeMask};
use serde_json::Value;
use vstd::prelude::*;

verus! {

/// What the probe pool of the running core was built for.
#[derive(Debug)]
pub struct ProbeTargets {
    /// Selector tags of the nodes that the core has loaded.
    pub id_to_tag: NodeMap<String>,
    /// Connection fingerprints taken when the core started.
    pub fingerprints: NodeMap<String>,
}

/// Why a round is not opened.
#[derive(Debug, Clone, Copy, PartialEq, Eq, Structural)]
pub enum RoundObstacle {
    /// The saved configuration could not be read.
    ConfigUnreadable,
    /// The core left no configuration to start from.
    NoRuntimeConfig,
    /// The core runs without a selected exit.
    NothingSelected,
    /// The saved configuration selects another exit than the core: some other change is under way.
    SelectionPending,
    /// There is a draft, and no telling which nodes it touches.
    DraftScopeUnknown,
    /// The probe pool is not ready.
    NoProbeTargets,
}

/// The first obstacle to a round, if there is one.
pub open spec fn round_obstacle(
    config: Option<Json>,
    runtime: Option<Json>,
    staged: StagedNodeMask,
    targets_ready: bool,
) -> Option<RoundObstacle> {
    if config is None {
        Some(RoundObstacle::ConfigUnreadable)
    } else if runtime is None {
        Some(RoundObstacle::NoRuntimeConfig)
    } else if selection(runtime->0) is None {
        Some(RoundObstacle::NothingSelected)
    } else if selection(config->0) != selection(runtime->0) {
        Some(RoundObstacle::SelectionPending)
    } else if staged.pending && !staged.scope_known {
        Some(RoundObstacle::DraftScopeUnknown)
    } else if !targets_ready {
        Some(RoundObstacle::NoProbeTargets)
    } else {
        None
    }
}

/// What a round knows of the nodes.
pub open spec fn round_roster(
    config: Json,
    runtime: Json,
    staged: StagedNodeMask,
    targets: ProbeTargets,
    current_fingerprints: Map<Seq<char>, String>,
    exit_ready: Set<Seq<char>>,
) -> Roster {
    Roster {
        current: selection(runtime),
        tags: texts(targets.id_to_tag@),
        running: texts(targets.fingerprints@),
        saved: texts(current_fingerprints),
        staged: staged.node_ids@,
        not_ready: not_ready(config, exit_ready),
    }
}

/// A round that has been opened.
#[derive(Debug)]
pub struct OpenedRound {
    /// The exit that is to be left.
    pub current_id: String,
    pub plan: RuntimeCandidatePlan,
}

/// Opens a round: plans the candidates, unless something stands in the way.
///
/// `config` is the saved configuration and `current_fingerprints` are the fingerprints of its
/// nodes; `runtime_config` is what the core runs; `exit_ready` are the Tailscale nodes that can
/// serve as exit right now.
pub fn open_round(
    config: Option<&Value>,
    runtime_config: Option<&Value>,
    staged: &StagedNodeMask,
    targets: Option<&ProbeTargets>,
    current_fingerprints: &NodeMap<String>,
    exit_ready: &NodeSet,
) -> (r: Result<OpenedRound, RoundObstacle>)
    ensures
        match r {
            Err(obstacle) => round_obstacle(
                optional_json(config),
                optional_json(runtime_config),
                *staged,
                targets is Some,
            ) == Some(obstacle),
            Ok(opened) => {
                &&& round_obstacle(
                    optional_json(config),
                    optional_json(runtime_config),
                    *staged,
                    targets is Some,
                ) is None
                &&& selection(json_of(*runtime_config->0)) == Some(opened.current_id@)
                &&& opened.plan@ == round_roster(
                    json_of(*config->0),
                    json_of(*runtime_config->0),
                    *staged,
                    *targets->0,
                    current_fingerprints@,
                    exit_ready@,
                ).plan_config(json_of(*config->0))
                &&& forall|k: int|
                    0 <= k < opened.plan.candidates@.len() ==> {
                        let id = (#[trigger] opened.plan.candidates@[k]).id@;
                        &&& targets->0.fingerprints@.contains_key(id)
                        &&& current_fingerprints@.contains_key(id)
                        &&& targets->0.fingerprints@[id]@ == current_fingerprints@[id]@
                        &&& targets->0.id_to_tag@.contains_key(id)
                        &&& targets->0.id_to_tag@[id]@ == opened.plan.candidates@[k].tag@
                        &&& id != opened.current_id@
                        &&& !staged.node_ids@.contains(id)
                    }
            },
        },
{
    let config = match config {
        Some(config) => config,
        None => {
            return Err(RoundObstacle::ConfigUnreadable);
        },
    };
    let runtime_config = match runtime_config {
        Some(runtime_config) => runtime_config,
        None => {
            return Err(RoundObstacle::NoRuntimeConfig);
        },
    };
    let current_id = match selected_server_id(runtime_config) {
        Some(current_id) => current_id,
        None => {
            return Err(RoundObstacle::NothingSelected);
        },
    };
    if !selects(config, current_id) {
        return Err(RoundObstacle::SelectionPending);
    }
    if staged.pending && !staged.scope_known {
        return Err(RoundObstacle::DraftScopeUnknown);
    }
    let targets = match targets {
        Some(targets) => targets,
        None => {
            return Err(RoundObstacle::NoProbeTargets);
        },
    };
    let not_ready = not_ready_ids(config, exit_ready);
    let plan = plan_runtime_candidates(
        config,
        Some(current_id),
        &targets.id_to_tag,
        &targets.fingerprints,
        current_fingerprints,
        &staged.node_ids,
        &not_ready,
    );
    proof {
        assert forall|k: int| 0 <= k < plan.candidates@.len() implies {
            let id = (#[trigger] plan.candidates@[k]).id@;
            &&& targets.fingerprints@.contains_key(id)
            &&& current_fingerprints@.contains_key(id)
            &&& targets.fingerprints@[id]@ == current_fingerprints@[id]@
            &&& targets.id_to_tag@.contains_key(id)
            &&& targets.id_to_tag@[id]@ == plan.candidates@[k].tag@
            &&& id != current_id@
            &&& !staged.node_ids@.contains(id)
        } by {
            assert(plan@.candidates[k] == plan.candidates@[k]@);
            law_round_candidates_run_with_saved_parameters(
                json_of(*config),
                json_of(*runtime_config),
                *staged,
                *targets,
                current_fingerprints@,
                exit_ready@,
                k,
            );
        }
    }
    Ok(OpenedRound { current_id: current_id.to_owned(), plan })
}

/// What follows the sweep of the candidates.
#[derive(Debug, Clone, Copy, PartialEq, Eq, Structural)]
pub enum SettledCandidates {
    /// The sweep came to nothing; neither does the round.
    Void,
    /// No candidate is left.
    NoCandidates { report: Option<ReportCode> },
    /// Probe them.
    Probe,
}

impl MachineView {
    /// The report of candidates lost to restarts, where there is cause for it and it has not been
    /// made in this generation.
    pub open spec fn report_for(self, cause: bool) -> Option<ReportCode> {
        if cause && !self.restart_blocked_reported {
            Some(ReportCode::AutoSwitchNeedsRestart)
        } else {
            None
        }
    }

    /// The machine after that. Without a cause the claim is left alone.
    pub open spec fn after_report_for(self, cause: bool) -> MachineView {
        if cause {
            self.after_claim()
        } else {
            self
        }
    }
}

/// Claims the report of candidates lost to restarts, where there is `cause` for it.
fn claim_report(machine: &mut AutoSwitchMachine, cause: bool) -> (r: Option<ReportCode>)
    ensures
        r == old(machine)@.report_for(cause),
        final(machine)@ == old(machine)@.after_report_for(cause),
{
    if cause && machine.claim_restart_blocked_report() {
        Some(ReportCode::AutoSwitchNeedsRestart)
    } else {
        None
    }
}

/// No candidate is left, and some were lost to restarts.
pub open spec fn blocked_by_restart(plan: PlanView) -> bool {
    plan.candidates.len() == 0 && plan.needs_restart > 0
}

/// Decides what follows the sweep, `swept` telling whether it stands. Only a round that came to
/// nothing for the sake of restarts claims the report.
pub fn settle_candidates(
    machine: &mut AutoSwitchMachine,
    swept: bool,
    plan: &RuntimeCandidatePlan,
) -> (r: SettledCandidates)
    ensures
        r == if !swept {
            SettledCandidates::Void
        } else if plan@.candidates.len() == 0 {
            SettledCandidates::NoCandidates {
                report: old(machine)@.report_for(blocked_by_restart(plan@)),
            }
        } else {
            SettledCandidates::Probe
        },
        final(machine)@ == old(machine)@.after_report_for(swept && blocked_by_restart(plan@)),
{
    if !swept {
        return SettledCandidates::Void;
    }
    if plan.candidates.len() == 0 {
        let cause = switch_blocked_by_restart(plan);
        return SettledCandidates::NoCandidates { report: claim_report(machine, cause) };
    }
    SettledCandidates::Probe
}

/// What the probe pool is to measure: the id and the selector tag of each candidate.
pub fn probe_inputs(plan: &RuntimeCandidatePlan) -> (r: Vec<(String, String)>)
    ensures
        r@.len() == plan@.candidates.len(),
        forall|i: int|
            0 <= i < r@.len() ==> (#[trigger] r@[i]).0@ == plan@.candidates[i].id && r@[i].1@
                == plan@.candidates[i].tag,
{
    let mut inputs: Vec<(String, String)> = Vec::new();
    let mut i: usize = 0;
    while i < plan.candidates.len()
        invariant
            i <= plan.candidates@.len(),
            inputs@.len() == i,
            forall|j: int|
                0 <= j < i ==> (#[trigger] inputs@[j]).0@ == plan@.candidates[j].id && inputs@[j].1@
                    == plan@.candidates[j].tag,
        decreases plan.candidates@.len() - i,
    {
        inputs.push((plan.candidates[i].id.clone(), plan.candidates[i].tag.clone()));
        i = i + 1;
    }
    inputs
}

/// What the probe pool answers.
#[derive(Debug)]
pub enum RuntimeProbeBatch {
    /// The measured latencies by node id; a node that was not reached has `None`.
    Completed(NodeMap<Option<u32>>),
    /// The user is measuring.
    Busy,
    /// The core generation changed.
    Interrupted,
}

/// The latency of one node: unreachable where it was not measured.
pub open spec fn latency_of(latencies: Map<Seq<char>, Option<u32>>, id: Seq<char>) -> Option<u32> {
    if latencies.contains_key(id) {
        latencies[id]
    } else {
        None
    }
}

/// The latencies of the candidates, in their order.
pub open spec fn measured(
    candidates: Seq<CandidateView>,
    latencies: Map<Seq<char>, Option<u32>>,
) -> Seq<Option<u32>> {
    candidates.map_values(|c: CandidateView| latency_of(latencies, c.id))
}

/// Pairs the candidates with their latencies.
pub fn measure(candidates: &Vec<RuntimeCandidate>, latencies: &NodeMap<Option<u32>>) -> (r: Vec<
    CandidateLatency,
>)
    ensures
        latencies_of(r@) == measured(candidate_views(candidates@), latencies@),
        forall|i: int|
            0 <= i < r@.len() ==> (#[trigger] r@[i]).id@ == candidates@[i]@.id && r@[i].name@
                == candidates@[i]@.name,
        r@.len() == candidates@.len(),
        forall|i: int|
            0 <= i < r@.len() ==> (#[trigger] r@[i]).latency_ms == if latencies@.contains_key(
                candidates@[i].id@,
            ) {
                latencies@[candidates@[i].id@]
            } else {
                None
            },
{
    let mut list: Vec<CandidateLatency> = Vec::new();
    let mut i: usize = 0;
    while i < candidates.len()
        invariant
            i <= candidates@.len(),
            list@.len() == i,
            forall|j: int|
                0 <= j < i ==> {
                    &&& (#[trigger] list@[j]).id@ == candidates@[j]@.id
                    &&& list@[j].name@ == candidates@[j]@.name
                    &&& list@[j].latency_ms == latency_of(latencies@, candidates@[j]@.id)
                },
        decreases candidates@.len() - i,
    {
        let latency_ms = match latencies.get(candidates[i].id.as_str()) {
            Some(latency) => *latency,
            None => None,
        };
        list.push(
            CandidateLatency {
                id: candidates[i].id.clone(),
                name: candidates[i].name.clone(),
                latency_ms,
            },
        );
        i = i + 1;
    }
    assert(latencies_of(list@) =~= measured(candidate_views(candidates@), latencies@));
    list
}

/// What follows the probes.
#[derive(Debug, PartialEq, Eq)]
pub enum TargetChoice {
    /// The probe pool was in use.
    Busy,
    /// The core generation changed during the probes.
    Interrupted,
    /// The core stopped or its generation changed after them.
    Overtaken,
    /// No candidate answered.
    Unreachable { report: Option<ReportCode> },
    /// The best candidate has no fingerprint any more.
    Unknown,
    /// Switch to this candidate, known under this fingerprint, and announce that once it is done.
    Switch {
        candidate: RuntimeCandidate,
        fingerprint: String,
        payload: AutoNodeSwitchedPayload,
    },
}

/// The probes are of use: they were completed, and the core is still the one that was probed.
pub open spec fn usable(batch: RuntimeProbeBatch, still_current: bool) -> bool {
    batch is Completed && still_current
}

/// The latencies of the candidates of a completed batch.
pub open spec fn batch_latencies(plan: PlanView, batch: RuntimeProbeBatch) -> Seq<Option<u32>> {
    measured(plan.candidates, batch->Completed_0@)
}

/// Chooses the candidate to switch to: the fastest that answered, the first of several.
///
/// Where none answered and some had been lost to restarts, that is reported in the same way, and by
/// the same claim, as where none was left to probe.
pub fn choose_target(
    machine: &mut AutoSwitchMachine,
    plan: &RuntimeCandidatePlan,
    batch: &RuntimeProbeBatch,
    still_current: bool,
    current_fingerprints: &NodeMap<String>,
    reason: &str,
) -> (r: TargetChoice)
    ensures
        r is Busy <==> batch is Busy,
        r is Interrupted <==> batch is Interrupted,
        r is Overtaken <==> batch is Completed && !still_current,
        r is Unreachable <==> usable(*batch, still_current) && all_unreachable(
            batch_latencies(plan@, *batch),
        ),
        r is Unreachable ==> r->report == old(machine)@.report_for(plan@.needs_restart > 0),
        final(machine)@ == old(machine)@.after_report_for(
            r is Unreachable && plan@.needs_restart > 0,
        ),
        r is Unknown <==> usable(*batch, still_current) && exists|i: int|
            #[trigger] is_best(batch_latencies(plan@, *batch), i)
                && !current_fingerprints@.contains_key(plan@.candidates[i].id),
        r is Switch <==> usable(*batch, still_current) && exists|i: int|
            #[trigger] is_best(batch_latencies(plan@, *batch), i)
                && current_fingerprints@.contains_key(plan@.candidates[i].id),
        match r {
            TargetChoice::Switch { candidate, fingerprint, payload } => exists|i: int|
                {
                    &&& #[trigger] is_best(batch_latencies(plan@, *batch), i)
                    &&& candidate@ == plan@.candidates[i]
                    &&& current_fingerprints@.contains_key(candidate@.id)
                    &&& fingerprint@ == current_fingerprints@[candidate@.id]@
                    &&& payload.reason@ == reason@
                    &&& payload.new_server_name@ == candidate@.name
                    &&& Some(payload.latency) == batch_latencies(plan@, *batch)[i]
                },
            _ => true,
        },
        match (r, *batch) {
            (
                TargetChoice::Switch { candidate, fingerprint, payload },
                RuntimeProbeBatch::Completed(table),
            ) => {
                &&& table@.contains_key(candidate.id@)
                &&& table@[candidate.id@] == Some(payload.latency)
                &&& forall|k: int|
                    0 <= k < plan.candidates@.len() && table@.contains_key(
                        (#[trigger] plan.candidates@[k]).id@,
                    ) && table@[plan.candidates@[k].id@] is Some ==> payload.latency
                        <= table@[plan.candidates@[k].id@]->0
            },
            _ => true,
        },
{
    let latencies = match batch {
        RuntimeProbeBatch::Busy => {
            return TargetChoice::Busy;
        },
        RuntimeProbeBatch::Interrupted => {
            return TargetChoice::Interrupted;
        },
        RuntimeProbeBatch::Completed(latencies) => latencies,
    };
    if !still_current {
        return TargetChoice::Overtaken;
    }
    let list = measure(&plan.candidates, latencies);
    let ghost all = batch_latencies(plan@, *batch);
    assert(all == latencies_of(list@));
    let best = match select_best_candidate(list.as_slice()) {
        Some(best) => best,
        None => {
            assert(forall|i: int| !is_best(all, i));
            return TargetChoice::Unreachable {
                report: claim_report(machine, plan.needs_restart > 0),
            };
        },
    };
    let ghost b = choose|i: int| #[trigger] is_best(all, i) && list@[i] == *best;
    proof {
        assert(is_best(all, b));
        assert(!all_unreachable(all)) by {
            assert(all[b] is Some);
        }
        assert forall|i: int| #[trigger] is_best(all, i) implies i == b by {
            law_best_candidate_is_unique(all, i, b);
        }
    }
    let payload = match switch_payload(best, reason) {
        Some(payload) => payload,
        None => {
            return TargetChoice::Unknown;
        },
    };
    assert(plan.candidates@[b]@ == plan@.candidates[b]);
    assert(plan.candidates@[b]@.id == best.id@);
    let candidate = match find_candidate(&plan.candidates, best.id.as_str()) {
        Some(candidate) => candidate,
        None => {
            return TargetChoice::Unknown;
        },
    };
    proof {
        // Candidates of the same id have the same latency, so the first of them is the best one.
        let k = choose|k: int|
            {
                &&& 0 <= k < plan.candidates@.len()
                &&& #[trigger] plan.candidates@[k] == *candidate
                &&& candidate@.id == best.id@
                &&& forall|j: int|
                    0 <= j < k ==> (#[trigger] plan.candidates@[j])@.id != best.id@
            };
        assert(plan@.candidates[k].id == plan@.candidates[b].id);
        assert(all[k] == all[b]);
        assert(k == b);
        assert forall|k: int| 0 <= k < plan.candidates@.len() implies #[trigger] all[k]
            == list@[k].latency_ms by {}
        assert forall|k: int|
            0 <= k < plan.candidates@.len() && latencies@.contains_key(
                (#[trigger] plan.candidates@[k]).id@,
            ) && latencies@[plan.candidates@[k].id@] is Some implies payload.latency
            <= latencies@[plan.candidates@[k].id@]->0 by {
            assert(all[k] == list@[k].latency_ms);
        }
    }
    match current_fingerprints.get(candidate.id.as_str()) {
        Some(fingerprint) => TargetChoice::Switch {
            candidate: candidate.clone(),
            fingerprint: fingerprint.clone(),
            payload,
        },
        None => TargetChoice::Unknown,
    }
}

/// The first of the candidates with the id `id`.
fn find_candidate<'a>(candidates: &'a Vec<RuntimeCandidate>, id: &str) -> (r: Option<
    &'a RuntimeCandidate,
>)
    ensures
        match r {
            Some(found) => exists|k: int|
                {
                    &&& 0 <= k < candidates@.len()
                    &&& #[trigger] candidates@[k] == *found
                    &&& found@.id == id@
                    &&& forall|j: int| 0 <= j < k ==> (#[trigger] candidates@[j])@.id != id@
                },
            None => forall|j: int|
                0 <= j < candidates@.len() ==> (#[trigger] candidates@[j])@.id != id@,
        },
{
    let mut i: usize = 0;
    while i < candidates.len()
        invariant
            i <= candidates@.len(),
            forall|j: int| 0 <= j < i ==> (#[trigger] candidates@[j])@.id != id@,
        decreases candidates@.len() - i,
    {
        if same_text(candidates[i].id.as_str(), id) {
            return Some(&candidates[i]);
        }
        i = i + 1;
    }
    None
}

/// How a round ends that went as far as the transaction.
#[derive(Debug, Clone, Copy, PartialEq, Eq, Structural)]
pub enum RoundConclusion {
    /// The switch was made: announce it.
    Switched,
    /// Leave the selector to reconciliation under this intent.
    Reconcile { intent_generation: u64 },
    /// Nothing was switched.
    Missed,
}

/// What the outcome of the transaction means for the round.
pub fn conclude_round(outcome: AutoHotSwitchOutcome) -> (r: RoundConclusion)
    ensures
        r == match outcome {
            AutoHotSwitchOutcome::Applied => RoundConclusion::Switched,
            AutoHotSwitchOutcome::ReconcilePending { intent_generation } => {
                RoundConclusion::Reconcile { intent_generation }
            },
            _ => RoundConclusion::Missed,
        },
{
    match outcome {
        AutoHotSwitchOutcome::Applied => RoundConclusion::Switched,
        AutoHotSwitchOutcome::ReconcilePending { intent_generation } => RoundConclusion::Reconcile {
            intent_generation,
        },
        _ => RoundConclusion::Missed,
    }
}

/// The node that a round switches to is fit for it: it is configured, is not the exit that is to be
/// left, is touched by no known draft, is loaded in the running core under its tag with its saved
/// parameters, is ready, can be switched to without a restart, carries internet traffic, and is the
/// fastest of those that answered.
pub proof fn law_round_switches_to_a_fit_node(
    config: Json,
    roster: Roster,
    runtime: UserConfig,
    verdicts: Seq<CandidateSwitchPlan>,
    latencies: Map<Seq<char>, Option<u32>>,
    b: int,
)
    requires
        ({
            let planned = roster.plan_config(config);
            let sorted = sort_candidates(runtime, planned.candidates, verdicts);
            is_best(measured(swept(planned, sorted).candidates, latencies), b)
        }),
    ensures
        ({
            let planned = roster.plan_config(config);
            let sorted = sort_candidates(runtime, planned.candidates, verdicts);
            let c = swept(planned, sorted).candidates[b];
            &&& exists|i: int|
                {
                    &&& 0 <= i < config.array_member("servers"@)->0.len()
                    &&& entry_of(#[trigger] config.array_member("servers"@)->0[i]).id == Some(c.id)
                }
            &&& roster.current != Some(c.id)
            &&& !roster.staged.contains(c.id)
            &&& roster.tags.contains_key(c.id) && roster.tags[c.id] == c.tag
            &&& roster.clean(c.id)
            &&& !roster.not_ready.contains(c.id)
            &&& !runtime.mesh_only(c.id)
            &&& exists|i: int|
                0 <= i < planned.candidates.len() && #[trigger] planned.candidates[i] == c
                    && verdict_at(verdicts, i) == CandidateSwitchPlan::HotSwitchable
            &&& latency_of(latencies, c.id) is Some
            &&& forall|k: int|
                0 <= k < kept(sorted).len() && latency_of(
                    latencies,
                    (#[trigger] kept(sorted)[k]).id,
                ) is Some ==> latency_of(latencies, c.id)->0 <= latency_of(
                    latencies,
                    kept(sorted)[k].id,
                )->0
        }),
{
    let planned = roster.plan_config(config);
    let sorted = sort_candidates(runtime, planned.candidates, verdicts);
    let c = swept(planned, sorted).candidates[b];
    let lats = measured(kept(sorted), latencies);
    assert(c == kept(sorted)[b]);
    law_kept_candidates_are_hot_switchable(runtime, planned.candidates, verdicts, b);
    let i = choose|i: int|
        0 <= i < planned.candidates.len() && #[trigger] planned.candidates[i] == c && verdict_at(
            verdicts,
            i,
        ) == CandidateSwitchPlan::HotSwitchable;
    let entries = configured_entries(config)->0;
    assert(planned == roster.plan(entries));
    law_candidates_are_fit(roster, entries, i);
    let e = choose|e: int|
        0 <= e < entries.len() && (#[trigger] entries[e]).id == Some(c.id) && roster.candidate(
            entries[e],
        ) == c;
    assert(entry_of(config.array_member("servers"@)->0[e]).id == Some(c.id));
    assert(lats[b] == latency_of(latencies, c.id));
    assert forall|k: int|
        0 <= k < kept(sorted).len() && latency_of(
            latencies,
            (#[trigger] kept(sorted)[k]).id,
        ) is Some implies latency_of(latencies, c.id)->0 <= latency_of(
        latencies,
        kept(sorted)[k].id,
    )->0 by {
        assert(lats[k] == latency_of(latencies, kept(sorted)[k].id));
    }
}

/// A round that has a candidate to offer never claims the report, and neither does one that came to
/// nothing without any candidate being lost to a restart: the one report of the generation is kept
/// for a case in which the user can help.
pub proof fn law_report_is_kept_for_restarts(m: MachineView, cause: bool)
    ensures
        m.report_for(cause) is Some ==> cause && !m.restart_blocked_reported,
        !cause ==> m.after_report_for(cause) == m,
        m.after_report_for(cause).report_for(true) is Some <==> !cause
            && !m.restart_blocked_reported,
{
}

} // verus!
