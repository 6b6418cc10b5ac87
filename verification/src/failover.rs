//! A round of failover as a whole: the steps of [`round`](crate::round) in their order, each with
//! what the one before it found.
//!
//! Whoever drives the round performs what [`phase`](SwitchRound::phase) asks for and hands back
//! what came of it.
use crate::candidates::{
    configured_entries, entry_of, CandidateView, PlanView, Roster, RuntimeCandidate,
    RuntimeCandidatePlan,
};
use crate::config::selection;
use crate::json::{json_of, Json};
use crate::machine::{AutoSwitchMachine, MachineView};
use crate::mesh::UserConfig;
use crate::node_map::{NodeMap, NodeSet};
use crate::report::ReportCode;
use crate::round::{
    batch_latencies, blocked_by_restart, choose_target, conclude_round, latency_of,
    law_round_switches_to_a_fit_node, open_round, round_obstacle, round_roster, settle_candidates,
    ProbeTargets, RoundConclusion, RoundObstacle, RuntimeProbeBatch, SettledCandidates,
    TargetChoice,
};
use crate::selection::{
    all_unreachable, is_best, law_best_candidate_exists, law_best_candidate_is_unique,
    AutoNodeSwitchedPayload,
};
use crate::sweep::{
    judgement_at, judgements, none_void, retain_hot_switchable_candidates, sort_candidates,
    sort_classified, swept, verdict_at, CandidateSwitchPlan, ClassifiedSwitch,
};
use crate::transaction::{
    optional_json, AutoHotSwitchOutcome, HotSwitchTransaction, StagedNodeMask, TransactionView,
};
use serde_json::Value;
use vstd::prelude::*;

verus! {

/// How a round ends.
#[derive(Debug, Clone, Copy, PartialEq, Eq, Structural)]
pub enum RoundEnd {
    /// It was not opened.
    Obstructed(RoundObstacle),
    /// The candidates could not be judged.
    Void,
    /// No candidate was left to probe.
    NoCandidates { report: Option<ReportCode> },
    /// The probe pool was in use.
    Busy,
    /// The core generation changed during the probes.
    Interrupted,
    /// The core stopped or its generation changed after them.
    Overtaken,
    /// No candidate answered.
    Unreachable { report: Option<ReportCode> },
    /// The best candidate has no fingerprint any more.
    Unknown,
    /// The transaction came to nothing.
    Missed,
    /// The transaction left the selector to reconciliation under this intent.
    Reconcile { intent_generation: u64 },
    /// The switch was made: announce it.
    Switched,
}

impl RoundEnd {
    /// What is to be reported to the user.
    pub open spec fn reports(self) -> Option<ReportCode> {
        match self {
            RoundEnd::NoCandidates { report } => report,
            RoundEnd::Unreachable { report } => report,
            _ => None,
        }
    }

    /// What is to be reported to the user.
    pub fn report(&self) -> (r: Option<ReportCode>)
        ensures
            r == self.reports(),
    {
        match *self {
            RoundEnd::NoCandidates { report } => report,
            RoundEnd::Unreachable { report } => report,
            _ => None,
        }
    }

    /// Whether the exit was switched, so that the switch counts toward the breaker.
    pub fn switched(&self) -> (r: bool)
        ensures
            r == (*self is Switched),
    {
        matches!(*self, RoundEnd::Switched)
    }
}

/// What a round asks for next.
#[derive(Debug, Clone, Copy, PartialEq, Eq, Structural)]
pub enum RoundPhase {
    /// Read the configurations, the draft and the probe pool, for `open`.
    Opening,
    /// Have the candidates of the plan classified, for `sweep`.
    Sweeping,
    /// Measure the candidates of the plan, for `pick`.
    Probing,
    /// Carry out the transaction, and tell `conclude`.
    Switching,
    Done(RoundEnd),
}

/// The node that a round switches to.
#[derive(Debug)]
pub struct Target {
    pub candidate: RuntimeCandidate,
    /// The fingerprint under which it was probed.
    pub fingerprint: String,
    /// The announcement of the switch, once it is made.
    pub payload: AutoNodeSwitchedPayload,
}

/// The content of a [`Target`].
pub struct TargetView {
    pub candidate: CandidateView,
    pub fingerprint: Seq<char>,
    pub reason: Seq<char>,
    pub new_server_name: Seq<char>,
    pub latency: u32,
}

impl View for Target {
    type V = TargetView;

    open spec fn view(&self) -> TargetView {
        TargetView {
            candidate: self.candidate@,
            fingerprint: self.fingerprint@,
            reason: self.payload.reason@,
            new_server_name: self.payload.new_server_name@,
            latency: self.payload.latency,
        }
    }
}

/// A round of failover.
#[derive(Debug)]
pub struct SwitchRound {
    generation: u64,
    reason: String,
    fingerprints: NodeMap<String>,
    phase: RoundPhase,
    current_id: String,
    plan: RuntimeCandidatePlan,
    target: Option<Target>,
}

/// The state of a [`SwitchRound`].
pub struct RoundView {
    /// The core generation that the round belongs to.
    pub generation: u64,
    /// Why the round was triggered.
    pub reason: Seq<char>,
    /// The fingerprints of the nodes in the saved configuration.
    pub fingerprints: Map<Seq<char>, String>,
    pub phase: RoundPhase,
    /// The exit that is to be left, once the round is opened.
    pub current: Seq<char>,
    /// The candidates as far as they have been sifted.
    pub plan: PlanView,
    /// The exit that is to be taken, once it is chosen.
    pub target: Option<TargetView>,
}

impl View for SwitchRound {
    type V = RoundView;

    closed spec fn view(&self) -> RoundView {
        RoundView {
            generation: self.generation,
            reason: self.reason@,
            fingerprints: self.fingerprints@,
            phase: self.phase,
            current: self.current_id@,
            plan: self.plan@,
            target: match self.target {
                Some(target) => Some(target@),
                None => None,
            },
        }
    }
}

/// The best of some measurements (see [`is_best`]).
pub open spec fn best_index(latencies: Seq<Option<u32>>) -> int {
    choose|i: int| is_best(latencies, i)
}

impl RoundView {
    pub open spec fn initial(
        generation: u64,
        reason: Seq<char>,
        fingerprints: Map<Seq<char>, String>,
    ) -> RoundView {
        RoundView {
            generation,
            reason,
            fingerprints,
            phase: RoundPhase::Opening,
            current: Seq::empty(),
            plan: PlanView::empty(),
            target: None,
        }
    }

    pub open spec fn ended(self, end: RoundEnd) -> RoundView {
        RoundView { phase: RoundPhase::Done(end), ..self }
    }

    /// The round when it was told its `obstacle`, or the exit that is to be left and the planned
    /// candidates.
    pub open spec fn after_open(
        self,
        obstacle: Option<RoundObstacle>,
        current: Seq<char>,
        plan: PlanView,
    ) -> RoundView {
        if !(self.phase is Opening) {
            self
        } else {
            match obstacle {
                Some(obstacle) => self.ended(RoundEnd::Obstructed(obstacle)),
                None => RoundView { phase: RoundPhase::Sweeping, current, plan, ..self },
            }
        }
    }

    /// The candidates could all be judged.
    pub open spec fn sweep_stands(
        self,
        runtime_config: Option<&UserConfig>,
        snapshot_present: bool,
        classified: Seq<Option<ClassifiedSwitch>>,
        still_current: bool,
    ) -> bool {
        runtime_config is Some && snapshot_present && still_current && none_void(
            sort_classified(*runtime_config->0, self.plan.candidates, classified),
        )
    }

    /// The plan after a sweep that stands.
    pub open spec fn swept_plan(
        self,
        runtime_config: Option<&UserConfig>,
        classified: Seq<Option<ClassifiedSwitch>>,
    ) -> PlanView {
        swept(self.plan, sort_classified(*runtime_config->0, self.plan.candidates, classified))
    }

    /// The round when it was told whether the sweep stands, and the plan that it leaves, by a
    /// machine in the state `m`.
    pub open spec fn after_sweep(self, stands: bool, plan: PlanView, m: MachineView) -> RoundView {
        if !(self.phase is Sweeping) {
            self
        } else if !stands {
            self.ended(RoundEnd::Void)
        } else if plan.candidates.len() == 0 {
            RoundView { plan, ..self }.ended(
                RoundEnd::NoCandidates { report: m.report_for(blocked_by_restart(plan)) },
            )
        } else {
            RoundView { phase: RoundPhase::Probing, plan, ..self }
        }
    }

    /// The sweep gives cause for the report of candidates lost to restarts.
    pub open spec fn sweep_gives_cause(self, stands: bool, plan: PlanView) -> bool {
        self.phase is Sweeping && stands && blocked_by_restart(plan)
    }

    /// The target that the measurements single out.
    pub open spec fn best_target(self, latencies: Seq<Option<u32>>) -> TargetView {
        let candidate = self.plan.candidates[best_index(latencies)];
        TargetView {
            candidate,
            fingerprint: self.fingerprints[candidate.id]@,
            reason: self.reason,
            new_server_name: candidate.name,
            latency: latencies[best_index(latencies)]->0,
        }
    }

    /// The round when it was told the measurements, by a machine in the state `m`.
    pub open spec fn after_pick(
        self,
        batch: RuntimeProbeBatch,
        still_current: bool,
        m: MachineView,
    ) -> RoundView {
        if !(self.phase is Probing) {
            self
        } else {
            match batch {
                RuntimeProbeBatch::Busy => self.ended(RoundEnd::Busy),
                RuntimeProbeBatch::Interrupted => self.ended(RoundEnd::Interrupted),
                RuntimeProbeBatch::Completed(_) => {
                    let latencies = batch_latencies(self.plan, batch);
                    let best = self.plan.candidates[best_index(latencies)];
                    if !still_current {
                        self.ended(RoundEnd::Overtaken)
                    } else if all_unreachable(latencies) {
                        self.ended(
                            RoundEnd::Unreachable {
                                report: m.report_for(self.plan.needs_restart > 0),
                            },
                        )
                    } else if !self.fingerprints.contains_key(best.id) {
                        self.ended(RoundEnd::Unknown)
                    } else {
                        RoundView {
                            phase: RoundPhase::Switching,
                            target: Some(self.best_target(latencies)),
                            ..self
                        }
                    }
                },
            }
        }
    }

    /// The measurements give cause for that report.
    pub open spec fn probes_give_cause(self, batch: RuntimeProbeBatch, still_current: bool) -> bool {
        &&& self.phase is Probing
        &&& batch is Completed
        &&& still_current
        &&& all_unreachable(batch_latencies(self.plan, batch))
        &&& self.plan.needs_restart > 0
    }

    /// The round when it was told what came of the transaction.
    pub open spec fn after_conclude(self, outcome: AutoHotSwitchOutcome) -> RoundView {
        if !(self.phase is Switching) {
            self
        } else {
            match outcome {
                AutoHotSwitchOutcome::Applied => self.ended(RoundEnd::Switched),
                AutoHotSwitchOutcome::ReconcilePending { intent_generation } => self.ended(
                    RoundEnd::Reconcile { intent_generation },
                ),
                _ => self.ended(RoundEnd::Missed),
            }
        }
    }

    /// How many answers the round may still take.
    pub open spec fn answers_left(self) -> nat {
        match self.phase {
            RoundPhase::Opening => 4,
            RoundPhase::Sweeping => 3,
            RoundPhase::Probing => 2,
            RoundPhase::Switching => 1,
            RoundPhase::Done(_) => 0,
        }
    }
}

impl SwitchRound {
    #[verifier::type_invariant]
    spec fn invariant_holds(self) -> bool {
        self.phase is Switching ==> self.target is Some
    }

    /// A round in the core generation `generation`. `current_fingerprints` are the fingerprints of
    /// the nodes in the saved configuration.
    pub fn new(generation: u64, reason: String, current_fingerprints: NodeMap<String>) -> (r: Self)
        ensures
            r@ == RoundView::initial(generation, reason@, current_fingerprints@),
    {
        let r = SwitchRound {
            generation,
            reason,
            fingerprints: current_fingerprints,
            phase: RoundPhase::Opening,
            current_id: String::new(),
            plan: RuntimeCandidatePlan::default(),
            target: None,
        };
        assert(r@.current =~= Seq::<char>::empty());
        r
    }

    /// What is to be done next.
    pub fn phase(&self) -> (r: RoundPhase)
        ensures
            r == self@.phase,
    {
        self.phase
    }

    /// The candidates as far as they have been sifted.
    pub fn plan(&self) -> (r: &RuntimeCandidatePlan)
        ensures
            r@ == self@.plan,
    {
        &self.plan
    }

    /// The node to switch to, once it is chosen.
    pub fn target(&self) -> (r: Option<&Target>)
        ensures
            match r {
                Some(target) => self@.target == Some(target@),
                None => self@.target is None,
            },
    {
        self.target.as_ref()
    }

    /// Opens the round (see [`open_round`]).
    pub fn open(
        &mut self,
        config: Option<&Value>,
        runtime_config: Option<&Value>,
        staged: &StagedNodeMask,
        targets: Option<&ProbeTargets>,
        exit_ready: &NodeSet,
    )
        ensures
            final(self)@ == old(self)@.after_open(
                round_obstacle(
                    optional_json(config),
                    optional_json(runtime_config),
                    *staged,
                    targets is Some,
                ),
                selection(json_of(*runtime_config->0))->0,
                round_roster(
                    json_of(*config->0),
                    json_of(*runtime_config->0),
                    *staged,
                    *targets->0,
                    old(self)@.fingerprints,
                    exit_ready@,
                ).plan_config(json_of(*config->0)),
            ),
    {
        proof {
            use_type_invariant(&*self);
        }
        if let RoundPhase::Opening = self.phase {
            match open_round(
                config,
                runtime_config,
                staged,
                targets,
                &self.fingerprints,
                exit_ready,
            ) {
                Ok(opened) => {
                    self.current_id = opened.current_id;
                    self.plan = opened.plan;
                    self.phase = RoundPhase::Sweeping;
                },
                Err(obstacle) => {
                    self.phase = RoundPhase::Done(RoundEnd::Obstructed(obstacle));
                },
            }
        }
    }

    /// Drops the candidates that cannot be switched to (see [`retain_hot_switchable_candidates`]
    /// for the arguments), and ends the round where none is left.
    pub fn sweep(
        &mut self,
        machine: &mut AutoSwitchMachine,
        runtime_config: Option<&UserConfig>,
        snapshot_present: bool,
        classified: &Vec<Option<ClassifiedSwitch>>,
        still_current: bool,
    )
        ensures
            ({
                let stands = old(self)@.sweep_stands(
                    runtime_config,
                    snapshot_present,
                    classified@,
                    still_current,
                );
                let plan = old(self)@.swept_plan(runtime_config, classified@);
                &&& final(self)@ == old(self)@.after_sweep(stands, plan, old(machine)@)
                &&& final(machine)@ == old(machine)@.after_report_for(
                    old(self)@.sweep_gives_cause(stands, plan),
                )
            }),
    {
        proof {
            use_type_invariant(&*self);
        }
        if let RoundPhase::Sweeping = self.phase {
            let mut plan = RuntimeCandidatePlan::default();
            std::mem::swap(&mut plan, &mut self.plan);
            let stands = retain_hot_switchable_candidates(
                &mut plan,
                runtime_config,
                snapshot_present,
                classified,
                still_current,
            );
            match settle_candidates(machine, stands, &plan) {
                SettledCandidates::Void => {
                    self.phase = RoundPhase::Done(RoundEnd::Void);
                },
                SettledCandidates::NoCandidates { report } => {
                    self.phase = RoundPhase::Done(RoundEnd::NoCandidates { report });
                },
                SettledCandidates::Probe => {
                    self.phase = RoundPhase::Probing;
                },
            }
            self.plan = plan;
        }
    }

    /// Chooses the node to switch to (see [`choose_target`]), and ends the round where there is
    /// none.
    pub fn pick(
        &mut self,
        machine: &mut AutoSwitchMachine,
        batch: &RuntimeProbeBatch,
        still_current: bool,
    )
        ensures
            final(self)@ == old(self)@.after_pick(*batch, still_current, old(machine)@),
            final(machine)@ == old(machine)@.after_report_for(
                old(self)@.probes_give_cause(*batch, still_current),
            ),
    {
        proof {
            use_type_invariant(&*self);
        }
        if let RoundPhase::Probing = self.phase {
            let ghost latencies = batch_latencies(self@.plan, *batch);
            proof {
                law_best_candidate_exists(latencies);
                assert forall|i: int| #[trigger] is_best(latencies, i) implies i == best_index(
                    latencies,
                ) by {
                    law_best_candidate_is_unique(latencies, i, best_index(latencies));
                }
            }
            match choose_target(
                machine,
                &self.plan,
                batch,
                still_current,
                &self.fingerprints,
                self.reason.as_str(),
            ) {
                TargetChoice::Busy => {
                    self.phase = RoundPhase::Done(RoundEnd::Busy);
                },
                TargetChoice::Interrupted => {
                    self.phase = RoundPhase::Done(RoundEnd::Interrupted);
                },
                TargetChoice::Overtaken => {
                    self.phase = RoundPhase::Done(RoundEnd::Overtaken);
                },
                TargetChoice::Unreachable { report } => {
                    self.phase = RoundPhase::Done(RoundEnd::Unreachable { report });
                },
                TargetChoice::Unknown => {
                    self.phase = RoundPhase::Done(RoundEnd::Unknown);
                },
                TargetChoice::Switch { candidate, fingerprint, payload } => {
                    self.target = Some(Target { candidate, fingerprint, payload });
                    self.phase = RoundPhase::Switching;
                },
            }
        }
    }

    /// The transaction that switches to the target, where the round is at that.
    pub fn transaction(&self) -> (r: Option<HotSwitchTransaction>)
        ensures
            r is Some <==> self@.phase is Switching,
            match r {
                Some(transaction) => {
                    &&& self@.target is Some
                    &&& transaction@ == TransactionView::initial(
                        self@.generation,
                        self@.current,
                        self@.target->0.candidate,
                        self@.target->0.fingerprint,
                    )
                },
                None => true,
            },
    {
        proof {
            use_type_invariant(self);
        }
        match (self.phase, &self.target) {
            (RoundPhase::Switching, Some(target)) => Some(
                HotSwitchTransaction::new(
                    self.generation,
                    self.current_id.clone(),
                    target.candidate.clone(),
                    target.fingerprint.clone(),
                ),
            ),
            _ => None,
        }
    }

    /// Takes in what came of the transaction (see [`conclude_round`]).
    pub fn conclude(&mut self, outcome: AutoHotSwitchOutcome)
        ensures
            final(self)@ == old(self)@.after_conclude(outcome),
    {
        proof {
            use_type_invariant(&*self);
        }
        if let RoundPhase::Switching = self.phase {
            let end = match conclude_round(outcome) {
                RoundConclusion::Switched => RoundEnd::Switched,
                RoundConclusion::Reconcile { intent_generation } => RoundEnd::Reconcile {
                    intent_generation,
                },
                RoundConclusion::Missed => RoundEnd::Missed,
            };
            self.phase = RoundPhase::Done(end);
        }
    }
}

/// The round, when it was told the measurements as well, after it was opened and swept.
pub open spec fn round_course(
    r: RoundView,
    config: Json,
    roster: Roster,
    runtime_config: UserConfig,
    classified: Seq<Option<ClassifiedSwitch>>,
    batch: RuntimeProbeBatch,
    m: MachineView,
) -> RoundView {
    let opened = r.after_open(None, roster.current->0, roster.plan_config(config));
    let stands = opened.sweep_stands(Some(&runtime_config), true, classified, true);
    let plan = opened.swept_plan(Some(&runtime_config), classified);
    opened.after_sweep(stands, plan, m).after_pick(batch, true, m)
}

/// A round that comes to switch does so to a node that is fit for it: one that is configured, is
/// not the exit that is to be left, is touched by no known draft, is loaded in the running core
/// under its tag with its saved parameters, is ready, can be switched to without a restart, and
/// carries internet traffic; and it announces the latency that was measured of that node.
pub proof fn law_switching_rounds_have_a_fit_target(
    r: RoundView,
    config: Json,
    roster: Roster,
    runtime_config: UserConfig,
    classified: Seq<Option<ClassifiedSwitch>>,
    batch: RuntimeProbeBatch,
    m: MachineView,
)
    requires
        r.phase is Opening,
        round_course(r, config, roster, runtime_config, classified, batch, m).phase is Switching,
    ensures
        ({
            let t = round_course(r, config, roster, runtime_config, classified, batch, m).target->0;
            let id = t.candidate.id;
            &&& exists|i: int|
                {
                    &&& 0 <= i < configured_entries(config)->0.len()
                    &&& (#[trigger] configured_entries(config)->0[i]).id == Some(id)
                }
            &&& roster.current != Some(id)
            &&& !roster.staged.contains(id)
            &&& roster.tags.contains_key(id) && roster.tags[id] == t.candidate.tag
            &&& roster.clean(id)
            &&& !roster.not_ready.contains(id)
            &&& !runtime_config.mesh_only(id)
            &&& exists|i: int|
                0 <= i < roster.plan_config(config).candidates.len()
                    && #[trigger] roster.plan_config(config).candidates[i] == t.candidate
                    && judgement_at(roster.plan_config(config).candidates, classified, i)
                    == CandidateSwitchPlan::HotSwitchable
            &&& latency_of(batch->Completed_0@, id) == Some(t.latency)
            &&& t.new_server_name == t.candidate.name
            &&& t.reason == r.reason
            &&& r.fingerprints.contains_key(id) && r.fingerprints[id]@ == t.fingerprint
        }),
{
    let planned = roster.plan_config(config);
    let verdicts = judgements(planned.candidates, classified);
    let sorted = sort_candidates(runtime_config, planned.candidates, verdicts);
    let plan = swept(planned, sorted);
    let latencies = batch_latencies(plan, batch);
    law_best_candidate_exists(latencies);
    let b = best_index(latencies);
    assert(is_best(latencies, b));
    law_round_switches_to_a_fit_node(
        config,
        roster,
        runtime_config,
        verdicts,
        batch->Completed_0@,
        b,
    );
    let id = plan.candidates[b].id;
    let i = choose|i: int|
        {
            &&& 0 <= i < config.array_member("servers"@)->0.len()
            &&& entry_of(#[trigger] config.array_member("servers"@)->0[i]).id == Some(id)
        };
    assert(configured_entries(config)->0[i].id == Some(id));
    let k = choose|k: int|
        0 <= k < planned.candidates.len() && #[trigger] planned.candidates[k] == plan.candidates[b]
            && verdict_at(verdicts, k) == CandidateSwitchPlan::HotSwitchable;
    assert(planned.candidates[k] == plan.candidates[b]);
    assert(verdicts[k] == judgement_at(planned.candidates, classified, k));
}

/// A round takes its answers in one order, each of them once: what is told in its turn brings the
/// round closer to its end, and what is told out of turn changes nothing.
pub proof fn law_round_ends_in_four_answers(
    r: RoundView,
    obstacle: Option<RoundObstacle>,
    current: Seq<char>,
    plan: PlanView,
    stands: bool,
    batch: RuntimeProbeBatch,
    still_current: bool,
    outcome: AutoHotSwitchOutcome,
    m: MachineView,
)
    ensures
        r.phase is Opening ==> r.after_open(obstacle, current, plan).answers_left()
            < r.answers_left(),
        r.phase is Sweeping ==> r.after_sweep(stands, plan, m).answers_left() < r.answers_left(),
        r.phase is Probing ==> r.after_pick(batch, still_current, m).answers_left()
            < r.answers_left(),
        r.phase is Switching ==> r.after_conclude(outcome).answers_left() < r.answers_left(),
        !(r.phase is Opening) ==> r.after_open(obstacle, current, plan) == r,
        !(r.phase is Sweeping) ==> r.after_sweep(stands, plan, m) == r,
        !(r.phase is Probing) ==> r.after_pick(batch, still_current, m) == r,
        !(r.phase is Switching) ==> r.after_conclude(outcome) == r,
        r.answers_left() == 0 <==> r.phase is Done,
{
}

/// A round counts as switched exactly where its transaction was applied.
pub proof fn law_only_applied_rounds_count(r: RoundView, outcome: AutoHotSwitchOutcome)
    requires
        r.phase is Switching,
    ensures
        r.after_conclude(outcome).phase == RoundPhase::Done(RoundEnd::Switched) <==> outcome
            is Applied,
{
}

/// A round reports where it claims the report of the generation, and nowhere else: what the machine
/// remembers of the report changes exactly when one is made.
pub proof fn law_round_reports_what_it_claims(
    r: RoundView,
    stands: bool,
    plan: PlanView,
    batch: RuntimeProbeBatch,
    still_current: bool,
    m: MachineView,
)
    ensures
        r.phase is Sweeping ==> {
            let claims = m.after_report_for(r.sweep_gives_cause(stands, plan)) != m;
            let after = r.after_sweep(stands, plan, m);
            claims <==> after.phase is Done && after.phase->Done_0.reports() is Some
        },
        r.phase is Probing ==> {
            let claims = m.after_report_for(r.probes_give_cause(batch, still_current)) != m;
            let after = r.after_pick(batch, still_current, m);
            claims <==> after.phase is Done && after.phase->Done_0.reports() is Some
        },
{
}

} // verus!
