//! What beats and rounds are decided by, over what was read, and where they lead.
use crate::candidates::PlanView;
use crate::failover::{RoundEnd, RoundPhase, RoundView};
use crate::heartbeat::{BeatReadings, HeartbeatPhase, HeartbeatView};
use crate::json::Json;
use crate::machine::MachineView;
use crate::mesh::UserConfig;
use crate::round::{round_obstacle, RoundObstacle};
use crate::sweep::{none_void, sort_classified, swept, ClassifiedSwitch};
use crate::tick::{SkipReason, TickAction, TickFacts, TickInput};
use crate::transaction::{AutoHotSwitchOutcome, StagedNodeMask};
use vstd::prelude::*;

verus! {

/// What a tick does, case by case: the first obstacle in the order of setting, switch, core,
/// selection, block and port decides, and core, block and port forget the failures.
pub proof fn law_tick_meets_its_obstacles_in_order(i: TickInput)
    ensures
        i.action() == TickAction::Skip(SkipReason::Disabled) <==> !i.enabled,
        i.action() == TickAction::Skip(SkipReason::Switching) <==> i.enabled && i.switching,
        i.action() == TickAction::SkipAfterResettingFailures(SkipReason::CoreNotRunning)
            <==> i.enabled && !i.switching && !i.core_running,
        i.action() == TickAction::Skip(SkipReason::SelectionNotReal) <==> i.enabled && !i.switching
            && i.core_running && !i.selected_server_is_real,
        i.action() == TickAction::SkipAfterResettingFailures(SkipReason::GenerationBlocked)
            <==> i.enabled && !i.switching && i.core_running && i.selected_server_is_real
            && i.generation_blocked,
        i.action() == TickAction::SkipAfterResettingFailures(SkipReason::NoProbePort) <==> i.enabled
            && !i.switching && i.core_running && i.selected_server_is_real && !i.generation_blocked
            && i.probe_proxy_port is None,
        i.action() is Probe <==> i.enabled && !i.switching && i.core_running
            && i.selected_server_is_real && !i.generation_blocked && i.probe_proxy_port is Some,
        i.action() matches TickAction::Probe { probe_proxy_port } ==> i.probe_proxy_port == Some(
            probe_proxy_port,
        ),
{
}

/// A tick is decided by the setting as it is now, a switch under way, and the facts as reported.
pub proof fn law_tick_is_decided_by_the_facts(m: MachineView, facts: TickFacts)
    ensures
        m.tick_input(facts).enabled == facts.want_enabled,
        m.tick_input(facts).switching == m.is_switching,
        m.tick_input(facts).core_running == facts.core_running,
        m.tick_input(facts).selected_server_is_real == facts.selected_server_is_real,
        m.tick_input(facts).generation_blocked == facts.generation_blocked,
        m.tick_input(facts).probe_proxy_port == facts.probe_proxy_port,
{
}

/// What a tick makes of the machine: it takes over the setting, which clears the counts where it is
/// turned on, and forgets the failures where the exit could not have been probed.
pub proof fn law_tick_leaves_the_rest(m: MachineView, facts: TickFacts)
    ensures
        ({
            let n = m.after_tick(facts);
            let turned_on = facts.want_enabled && !m.enabled;
            let standstill = facts.want_enabled && !m.is_switching && (!facts.core_running || (
            facts.selected_server_is_real && (facts.generation_blocked || facts.probe_proxy_port
                is None)));
            &&& n.enabled == facts.want_enabled
            &&& n.is_switching == m.is_switching
            &&& n.last_switch_time == m.last_switch_time
            &&& n.restart_blocked_reported == m.restart_blocked_reported
            &&& n.consecutive_switches == if turned_on {
                0
            } else {
                m.consecutive_switches
            }
            &&& n.breaker_tripped_at == if turned_on {
                None
            } else {
                m.breaker_tripped_at
            }
            &&& n.consecutive_failures == if turned_on || standstill {
                0
            } else {
                m.consecutive_failures
            }
        }),
{
}

/// Where a beat leads: another core ends the heartbeat; a tick that probes leads to the probe, any
/// other to the next wait. The tick is decided by the readings and by the terms of the heartbeat.
pub proof fn law_beat_leads_where_its_tick_says(
    h: HeartbeatView,
    m: MachineView,
    generation: u64,
    readings: BeatReadings,
)
    requires
        h.phase is Waiting,
    ensures
        ({
            let n = h.after_wake(m, generation, readings);
            let probes = readings.want_enabled && !m.is_switching && readings.core_running
                && readings.selected_server_is_real && !h.generation_blocked && h.probe_proxy_port
                is Some;
            &&& generation != h.my_gen <==> n.phase is Ended
            &&& generation == h.my_gen && probes <==> n.phase is Probing
            &&& generation == h.my_gen && !probes <==> n.phase is Waiting
            &&& n.phase matches HeartbeatPhase::Probing { probe_proxy_port } ==> h.probe_proxy_port
                == Some(probe_proxy_port)
            &&& n.my_gen == h.my_gen
            &&& n.probe_proxy_port == h.probe_proxy_port
            &&& n.generation_blocked == h.generation_blocked
            &&& h.tick(m, generation, readings) is Some <==> generation == h.my_gen
            &&& generation == h.my_gen ==> h.tick(m, generation, readings) == Some(
                m.tick_input(
                    TickFacts {
                        want_enabled: readings.want_enabled,
                        core_running: readings.core_running,
                        selected_server_is_real: readings.selected_server_is_real,
                        generation_blocked: h.generation_blocked,
                        probe_proxy_port: h.probe_proxy_port,
                    },
                ).action(),
            )
            &&& generation != h.my_gen ==> h.machine_after_wake(m, generation, readings) == m
            &&& generation == h.my_gen ==> h.machine_after_wake(m, generation, readings)
                == m.after_tick(
                TickFacts {
                    want_enabled: readings.want_enabled,
                    core_running: readings.core_running,
                    selected_server_is_real: readings.selected_server_is_real,
                    generation_blocked: h.generation_blocked,
                    probe_proxy_port: h.probe_proxy_port,
                },
            )
        }),
{
}

/// Where a probe leads: another core ends the heartbeat and feeds nothing; the failure that completes
/// the streak leads to a switch; anything else to the next wait.
pub proof fn law_probe_leads_where_the_streak_says(
    h: HeartbeatView,
    m: MachineView,
    generation: u64,
    alive: bool,
)
    requires
        h.phase is Probing,
    ensures
        ({
            let n = h.after_probe(m, generation, alive);
            &&& generation != h.my_gen <==> n.phase is Ended
            &&& n.phase is Switching <==> generation == h.my_gen && m.heartbeat_outcome(
                alive,
            ) is Trigger
            &&& n.phase is Waiting <==> generation == h.my_gen && !(m.heartbeat_outcome(
                alive,
            ) is Trigger)
            &&& n.my_gen == h.my_gen
            &&& n.probe_proxy_port == h.probe_proxy_port
            &&& n.generation_blocked == h.generation_blocked
            &&& generation == h.my_gen ==> h.outcome(m, generation, alive) == Some(
                m.heartbeat_outcome(alive),
            )
            &&& generation != h.my_gen ==> h.outcome(m, generation, alive) is None
            &&& generation == h.my_gen ==> h.machine_after_probe(m, generation, alive)
                == m.after_heartbeat(alive)
            &&& generation != h.my_gen ==> h.machine_after_probe(m, generation, alive) == m
        }),
{
}

/// A switch, or an attempt at one, is followed by the next wait, on the same terms.
pub proof fn law_switch_is_followed_by_a_wait(h: HeartbeatView)
    ensures
        h.phase is Switching ==> h.after_switch().phase is Waiting,
        !(h.phase is Switching) ==> h.after_switch().phase == h.phase,
        h.after_switch().my_gen == h.my_gen,
        h.after_switch().probe_proxy_port == h.probe_proxy_port,
        h.after_switch().generation_blocked == h.generation_blocked,
{
}

/// A round meets its obstacles in order: an unreadable configuration, a core without one, a core
/// without a selected exit, a saved selection other than the running one, a draft of unknown scope,
/// and a probe pool that is not ready. Without any of these it is opened.
pub proof fn law_round_meets_its_obstacles_in_order(
    config: Option<Json>,
    runtime: Option<Json>,
    staged: StagedNodeMask,
    targets_ready: bool,
)
    ensures
        ({
            let o = round_obstacle(config, runtime, staged, targets_ready);
            let saved = config->0.text_member("selectedServerId"@);
            let running = runtime->0.text_member("selectedServerId"@);
            let both = config is Some && runtime is Some;
            let agree = both && running is Some && saved == running;
            let unknown = staged.pending && !staged.scope_known;
            &&& o == Some(RoundObstacle::ConfigUnreadable) <==> config is None
            &&& o == Some(RoundObstacle::NoRuntimeConfig) <==> config is Some && runtime is None
            &&& o == Some(RoundObstacle::NothingSelected) <==> both && running is None
            &&& o == Some(RoundObstacle::SelectionPending) <==> both && running is Some && saved
                != running
            &&& o == Some(RoundObstacle::DraftScopeUnknown) <==> agree && unknown
            &&& o == Some(RoundObstacle::NoProbeTargets) <==> agree && !unknown && !targets_ready
            &&& o is None <==> agree && !unknown && targets_ready
        }),
{
}

/// A new round is about its arguments, waits to be opened, and holds nothing else yet.
pub proof fn law_new_round_is_about_its_arguments(
    generation: u64,
    reason: Seq<char>,
    fingerprints: Map<Seq<char>, String>,
)
    ensures
        ({
            let r = RoundView::initial(generation, reason, fingerprints);
            &&& r.generation == generation
            &&& r.reason == reason
            &&& r.fingerprints == fingerprints
            &&& r.phase is Opening
            &&& r.plan.candidates.len() == 0
            &&& r.target is None
        }),
{
}

/// An opened round holds the exit that is to be left and the planned candidates, and goes on to the
/// sweep; an obstacle ends it. What the round is about stays.
pub proof fn law_opening_holds_what_was_planned(
    r: RoundView,
    obstacle: Option<RoundObstacle>,
    current: Seq<char>,
    plan: PlanView,
)
    requires
        r.phase is Opening,
    ensures
        ({
            let n = r.after_open(obstacle, current, plan);
            &&& obstacle is None ==> n.phase is Sweeping && n.current == current && n.plan == plan
            &&& obstacle matches Some(o) ==> n.phase == RoundPhase::Done(RoundEnd::Obstructed(o))
                && n.plan == r.plan
            &&& n.generation == r.generation
            &&& n.reason == r.reason
            &&& n.fingerprints == r.fingerprints
            &&& n.target == r.target
        }),
{
}

/// A sweep that does not stand ends the round and leaves the plan; one that stands leaves its plan,
/// and goes on to the probes exactly where that has a candidate. Without one the round ends, with a
/// report where restarts were the cause and none was made yet. What the round is about stays.
pub proof fn law_sweep_goes_on_with_its_candidates(
    r: RoundView,
    stands: bool,
    plan: PlanView,
    m: MachineView,
)
    requires
        r.phase is Sweeping,
    ensures
        ({
            let n = r.after_sweep(stands, plan, m);
            &&& !stands ==> n.phase == RoundPhase::Done(RoundEnd::Void) && n.plan == r.plan
            &&& stands ==> n.plan == plan
            &&& stands && plan.candidates.len() > 0 <==> n.phase is Probing
            &&& stands && plan.candidates.len() == 0 <==> n.phase is Done && n.phase->Done_0
                is NoCandidates
            &&& stands && plan.candidates.len() == 0 ==> (n.phase->Done_0.reports() is Some
                <==> plan.needs_restart > 0 && !m.restart_blocked_reported)
            &&& r.sweep_gives_cause(stands, plan) <==> stands && plan.candidates.len() == 0
                && plan.needs_restart > 0
            &&& n.generation == r.generation
            &&& n.reason == r.reason
            &&& n.fingerprints == r.fingerprints
            &&& n.current == r.current
            &&& n.target == r.target
        }),
{
}

/// A sweep stands, and leaves its plan, by the parsed running configuration, a baseline, a core that
/// is still the same, and the classification of each candidate of the round.
pub proof fn law_sweep_is_made_of_the_rounds_candidates(
    r: RoundView,
    runtime_config: &UserConfig,
    snapshot_present: bool,
    classified: Seq<Option<ClassifiedSwitch>>,
    still_current: bool,
)
    ensures
        r.sweep_stands(Some(runtime_config), snapshot_present, classified, still_current)
            <==> snapshot_present && still_current && none_void(
            sort_classified(*runtime_config, r.plan.candidates, classified),
        ),
        !r.sweep_stands(None, snapshot_present, classified, still_current),
        r.swept_plan(Some(runtime_config), classified) == swept(
            r.plan,
            sort_classified(*runtime_config, r.plan.candidates, classified),
        ),
{
}

/// Picking a target touches phase and target only, and a round that does not go on to switch keeps
/// the target as it was. The failed probes give cause for the report exactly where nobody was
/// reached and restarts had a part in it.
pub proof fn law_picking_touches_the_target_only(
    r: RoundView,
    batch: crate::round::RuntimeProbeBatch,
    still_current: bool,
    m: MachineView,
)
    requires
        r.phase is Probing,
    ensures
        ({
            let n = r.after_pick(batch, still_current, m);
            &&& n.generation == r.generation
            &&& n.reason == r.reason
            &&& n.fingerprints == r.fingerprints
            &&& n.current == r.current
            &&& n.plan == r.plan
            &&& !(n.phase is Switching) ==> n.target == r.target
            &&& n.phase is Switching ==> n.target is Some
            &&& r.probes_give_cause(batch, still_current) <==> n.phase is Done && n.phase->Done_0
                is Unreachable && r.plan.needs_restart > 0
        }),
{
}

/// What the outcome of the transaction means: applied is switched, reconciliation is handed on with
/// its intent, and anything else is missed. Nothing but the phase changes.
pub proof fn law_outcome_ends_the_round(r: RoundView, outcome: AutoHotSwitchOutcome)
    requires
        r.phase is Switching,
    ensures
        ({
            let n = r.after_conclude(outcome);
            &&& n.phase is Done
            &&& n.phase->Done_0 is Switched <==> outcome is Applied
            &&& n.phase->Done_0 is Reconcile <==> outcome is ReconcilePending
            &&& outcome matches AutoHotSwitchOutcome::ReconcilePending { intent_generation }
                ==> n.phase == RoundPhase::Done(RoundEnd::Reconcile { intent_generation })
            &&& n.phase->Done_0 is Missed <==> outcome is Busy || outcome is Superseded || outcome
                is NotEligible || outcome is Failed
            &&& n.generation == r.generation
            &&& n.reason == r.reason
            &&& n.fingerprints == r.fingerprints
            &&& n.current == r.current
            &&& n.plan == r.plan
            &&& n.target == r.target
        }),
{
}

/// Only a round without candidates, or without an answer, reports, and it reports what it holds.
pub proof fn law_only_empty_rounds_report(end: RoundEnd)
    ensures
        end matches RoundEnd::NoCandidates { report } ==> end.reports() == report,
        end matches RoundEnd::Unreachable { report } ==> end.reports() == report,
        !(end is NoCandidates) && !(end is Unreachable) ==> end.reports() is None,
{
}

} // verus!
