//! What each operation of the decision machine changes, and what it leaves alone.
use crate::machine::{
    HeartbeatOutcome, MachineView, SwitchGate, BREAKER_COOLDOWN_MS, MAX_AUTO_SWITCHES,
    MAX_CONSECUTIVE_FAILURES, SWITCH_COOLDOWN_MS,
};
use crate::machine_laws::{run, MachineOp};
use vstd::prelude::*;

verus! {

/// A failed heartbeat touches the failures only: the switches counted so far, the breaker, the
/// cooldown and everything else stay as they are, whether or not it triggers.
pub proof fn law_failed_heartbeat_touches_failures_only(m: MachineView)
    ensures
        m.after_heartbeat(false).enabled == m.enabled,
        m.after_heartbeat(false).is_switching == m.is_switching,
        m.after_heartbeat(false).last_switch_time == m.last_switch_time,
        m.after_heartbeat(false).consecutive_switches == m.consecutive_switches,
        m.after_heartbeat(false).breaker_tripped_at == m.breaker_tripped_at,
        m.after_heartbeat(false).restart_blocked_reported == m.restart_blocked_reported,
        m.consecutive_failures + 1 < MAX_CONSECUTIVE_FAILURES ==> m.after_heartbeat(
            false,
        ).consecutive_failures == m.consecutive_failures + 1,
        m.consecutive_failures + 1 >= MAX_CONSECUTIVE_FAILURES ==> m.after_heartbeat(
            false,
        ).consecutive_failures == 0,
{
}

/// A heartbeat that connects clears the two counts, and nothing else.
pub proof fn law_connected_heartbeat_clears_the_counts(m: MachineView)
    ensures
        m.after_heartbeat(true).consecutive_failures == 0,
        m.after_heartbeat(true).consecutive_switches == 0,
        m.after_heartbeat(true).enabled == m.enabled,
        m.after_heartbeat(true).is_switching == m.is_switching,
        m.after_heartbeat(true).last_switch_time == m.last_switch_time,
        m.after_heartbeat(true).breaker_tripped_at == m.breaker_tripped_at,
        m.after_heartbeat(true).restart_blocked_reported == m.restart_blocked_reported,
{
}

/// What a heartbeat leads to is told by the failures counted before it, and by nothing else.
pub proof fn law_heartbeat_tells_the_streak(m: MachineView)
    requires
        m.well_formed(),
    ensures
        m.heartbeat_outcome(false) is Trigger <==> m.consecutive_failures + 1
            == MAX_CONSECUTIVE_FAILURES,
        m.consecutive_failures + 1 < MAX_CONSECUTIVE_FAILURES <==> m.heartbeat_outcome(
            false,
        ) is Failing,
        m.heartbeat_outcome(false) matches HeartbeatOutcome::Failing { failures } ==> failures
            == m.consecutive_failures + 1,
        m.heartbeat_outcome(true) is Stable <==> m.consecutive_failures == 0,
        m.heartbeat_outcome(true) is Recovered <==> m.consecutive_failures > 0,
        m.heartbeat_outcome(true) matches HeartbeatOutcome::Recovered { prior } ==> prior
            == m.consecutive_failures,
{
}

/// The switch gate is decided by the clock, the two recorded times and the count of switches: it is
/// shut while a switch is under way, for the whole time of a breaker that has reached its count, and
/// for the whole cooldown after a switch began, and is open otherwise. What it names as remaining is
/// what is left of that time; a clock that reads earlier than a recorded time counts as that time.
pub proof fn law_gate_is_decided_by_the_clock(m: MachineView, now: u64)
    ensures
        ({
            let breaker = m.consecutive_switches >= MAX_AUTO_SWITCHES && m.breaker_tripped_at is Some
                && now < m.breaker_tripped_at->0 + BREAKER_COOLDOWN_MS;
            let cooldown = m.last_switch_time is Some && now < m.last_switch_time->0
                + SWITCH_COOLDOWN_MS;
            &&& m.gate(now) is InFlight <==> m.is_switching
            &&& m.gate(now) is Breaker <==> !m.is_switching && breaker
            &&& m.gate(now) is Cooldown <==> !m.is_switching && !breaker && cooldown
            &&& m.gate(now) is Proceed <==> !m.is_switching && !breaker && !cooldown
            &&& m.gate(now) matches SwitchGate::Breaker { remaining_ms } ==> {
                &&& now >= m.breaker_tripped_at->0 ==> now + remaining_ms
                    == m.breaker_tripped_at->0 + BREAKER_COOLDOWN_MS
                &&& now < m.breaker_tripped_at->0 ==> remaining_ms == BREAKER_COOLDOWN_MS
            }
            &&& m.gate(now) matches SwitchGate::Cooldown { remaining_ms } ==> {
                &&& now >= m.last_switch_time->0 ==> now + remaining_ms == m.last_switch_time->0
                    + SWITCH_COOLDOWN_MS
                &&& now < m.last_switch_time->0 ==> remaining_ms == SWITCH_COOLDOWN_MS
            }
        }),
{
}

/// Asking at the switch gate touches the count of switches only, and that only where no switch is
/// under way, the count has been reached and the breaker's time is over: it then starts over.
pub proof fn law_asking_touches_a_finished_breaker_only(m: MachineView, now: u64)
    ensures
        m.after_gate(now).enabled == m.enabled,
        m.after_gate(now).consecutive_failures == m.consecutive_failures,
        m.after_gate(now).is_switching == m.is_switching,
        m.after_gate(now).last_switch_time == m.last_switch_time,
        m.after_gate(now).breaker_tripped_at == m.breaker_tripped_at,
        m.after_gate(now).restart_blocked_reported == m.restart_blocked_reported,
        ({
            let over = m.breaker_tripped_at is None || now >= m.breaker_tripped_at->0
                + BREAKER_COOLDOWN_MS;
            m.after_gate(now).consecutive_switches == if !m.is_switching && m.consecutive_switches
                >= MAX_AUTO_SWITCHES && over {
                0
            } else {
                m.consecutive_switches
            }
        }),
{
}

/// Beginning a switch notes that it is under way and when it began, and nothing else.
pub proof fn law_beginning_notes_the_time(m: MachineView, now: u64)
    ensures
        m.after_begin(now).is_switching,
        m.after_begin(now).last_switch_time == Some(now),
        m.after_begin(now).enabled == m.enabled,
        m.after_begin(now).consecutive_failures == m.consecutive_failures,
        m.after_begin(now).consecutive_switches == m.consecutive_switches,
        m.after_begin(now).breaker_tripped_at == m.breaker_tripped_at,
        m.after_begin(now).restart_blocked_reported == m.restart_blocked_reported,
{
}

/// Counting a switch adds one to the count, notes the time where the count is reached, and changes
/// nothing else.
pub proof fn law_recording_counts_one(m: MachineView, now: u64)
    ensures
        m.after_record(now).consecutive_switches == m.consecutive_switches + 1,
        m.consecutive_switches + 1 >= MAX_AUTO_SWITCHES ==> m.after_record(now).breaker_tripped_at
            == Some(now),
        m.consecutive_switches + 1 < MAX_AUTO_SWITCHES ==> m.after_record(now).breaker_tripped_at
            == m.breaker_tripped_at,
        m.after_record(now).enabled == m.enabled,
        m.after_record(now).consecutive_failures == m.consecutive_failures,
        m.after_record(now).is_switching == m.is_switching,
        m.after_record(now).last_switch_time == m.last_switch_time,
        m.after_record(now).restart_blocked_reported == m.restart_blocked_reported,
{
}

/// Ending a switch ends it, and nothing else.
pub proof fn law_ending_ends_the_switch_only(m: MachineView)
    ensures
        !m.after_end().is_switching,
        m.after_end().enabled == m.enabled,
        m.after_end().consecutive_failures == m.consecutive_failures,
        m.after_end().last_switch_time == m.last_switch_time,
        m.after_end().consecutive_switches == m.consecutive_switches,
        m.after_end().breaker_tripped_at == m.breaker_tripped_at,
        m.after_end().restart_blocked_reported == m.restart_blocked_reported,
{
}

/// Concluding a switch ends it, and counts it exactly where it was made.
pub proof fn law_concluding_counts_what_was_made(m: MachineView, switched: bool, now: u64)
    ensures
        !m.after_conclude(switched, now).is_switching,
        m.after_conclude(switched, now).consecutive_switches == m.consecutive_switches + if switched {
            1int
        } else {
            0int
        },
        m.after_conclude(switched, now).breaker_tripped_at == if switched
            && m.consecutive_switches + 1 >= MAX_AUTO_SWITCHES {
            Some(now)
        } else {
            m.breaker_tripped_at
        },
        m.after_conclude(switched, now).enabled == m.enabled,
        m.after_conclude(switched, now).consecutive_failures == m.consecutive_failures,
        m.after_conclude(switched, now).last_switch_time == m.last_switch_time,
        m.after_conclude(switched, now).restart_blocked_reported == m.restart_blocked_reported,
{
}

/// Starting a switch begins it at an open switch gate: it is then under way since `began`. Either
/// way failures, setting, trip time and report are left alone.
pub proof fn law_starting_begins_at_an_open_gate(m: MachineView, asked: u64, began: u64)
    ensures
        m.gate(asked) is Proceed ==> m.after_start(asked, began).is_switching && m.after_start(
            asked,
            began,
        ).last_switch_time == Some(began),
        m.after_start(asked, began).consecutive_switches == m.after_gate(
            asked,
        ).consecutive_switches,
        m.after_start(asked, began).enabled == m.enabled,
        m.after_start(asked, began).consecutive_failures == m.consecutive_failures,
        m.after_start(asked, began).breaker_tripped_at == m.breaker_tripped_at,
        m.after_start(asked, began).restart_blocked_reported == m.restart_blocked_reported,
{
}

/// Enabling a disabled machine clears failures, switches and breaker, and nothing else; an enabled
/// one is left as it is.
pub proof fn law_enabling_clears_a_disabled_machine(m: MachineView)
    ensures
        m.after_enable().enabled,
        m.after_enable().is_switching == m.is_switching,
        m.after_enable().last_switch_time == m.last_switch_time,
        m.after_enable().restart_blocked_reported == m.restart_blocked_reported,
        !m.enabled ==> m.after_enable().consecutive_failures == 0
            && m.after_enable().consecutive_switches == 0
            && m.after_enable().breaker_tripped_at is None,
        m.enabled ==> m.after_enable().consecutive_failures == m.consecutive_failures
            && m.after_enable().consecutive_switches == m.consecutive_switches
            && m.after_enable().breaker_tripped_at == m.breaker_tripped_at,
{
}

/// Disabling, clearing the failures and claiming the report each touch their own field only.
pub proof fn law_single_fields_are_touched_alone(m: MachineView)
    ensures
        !m.after_disable().enabled,
        m.after_disable().consecutive_failures == m.consecutive_failures,
        m.after_disable().is_switching == m.is_switching,
        m.after_disable().last_switch_time == m.last_switch_time,
        m.after_disable().consecutive_switches == m.consecutive_switches,
        m.after_disable().breaker_tripped_at == m.breaker_tripped_at,
        m.after_disable().restart_blocked_reported == m.restart_blocked_reported,
        m.after_reset_failures().consecutive_failures == 0,
        m.after_reset_failures().enabled == m.enabled,
        m.after_reset_failures().is_switching == m.is_switching,
        m.after_reset_failures().last_switch_time == m.last_switch_time,
        m.after_reset_failures().consecutive_switches == m.consecutive_switches,
        m.after_reset_failures().breaker_tripped_at == m.breaker_tripped_at,
        m.after_reset_failures().restart_blocked_reported == m.restart_blocked_reported,
        m.after_claim().restart_blocked_reported,
        m.after_claim().enabled == m.enabled,
        m.after_claim().consecutive_failures == m.consecutive_failures,
        m.after_claim().is_switching == m.is_switching,
        m.after_claim().last_switch_time == m.last_switch_time,
        m.after_claim().consecutive_switches == m.consecutive_switches,
        m.after_claim().breaker_tripped_at == m.breaker_tripped_at,
{
}

/// A new machine is disabled and has nothing counted, noted or claimed.
pub proof fn law_new_machine_is_blank()
    ensures
        !MachineView::initial().enabled,
        MachineView::initial().consecutive_failures == 0,
        !MachineView::initial().is_switching,
        MachineView::initial().last_switch_time is None,
        MachineView::initial().consecutive_switches == 0,
        MachineView::initial().breaker_tripped_at is None,
        !MachineView::initial().restart_blocked_reported,
{
}

/// How many switches a run counts.
pub open spec fn switches_counted(ops: Seq<MachineOp>) -> nat {
    ops.filter(|op: MachineOp| op is Record).len()
}

/// Switches add up until something gives reason to forget them. In a run in which no heartbeat
/// connects, no disabled machine is enabled, and nobody asks at the switch gate after the breaker's
/// time, each counted switch is in the count, whatever fails or triggers in between; so the third of
/// them trips the breaker, at the time of the last one.
pub proof fn law_switches_add_up_without_recovery(m: MachineView, ops: Seq<MachineOp>)
    requires
        forall|i: int|
            0 <= i < ops.len() ==> {
                let before = run(m, ops.take(i));
                match #[trigger] ops[i] {
                    MachineOp::Heartbeat(alive) => !alive,
                    MachineOp::Enable => before.enabled,
                    MachineOp::Gate(now) => before.consecutive_switches >= MAX_AUTO_SWITCHES
                        ==> before.breaker_tripped_at is Some && now
                        < before.breaker_tripped_at->0 + BREAKER_COOLDOWN_MS,
                    _ => true,
                }
            },
    ensures
        run(m, ops).consecutive_switches == m.consecutive_switches + switches_counted(ops),
        switches_counted(ops) == 0 ==> run(m, ops).breaker_tripped_at == m.breaker_tripped_at,
        ops.len() > 0 && ops.last() is Record && run(m, ops).consecutive_switches
            >= MAX_AUTO_SWITCHES ==> run(m, ops).breaker_tripped_at == Some(ops.last()->Record_0),
    decreases ops.len(),
{
    reveal(Seq::filter);
    if ops.len() > 0 {
        let rest = ops.drop_last();
        let last = ops.len() - 1;
        assert(ops.take(last) =~= rest);
        assert(ops[last] == ops.last());
        assert forall|i: int| 0 <= i < rest.len() implies {
            let before = run(m, rest.take(i));
            match #[trigger] rest[i] {
                MachineOp::Heartbeat(alive) => !alive,
                MachineOp::Enable => before.enabled,
                MachineOp::Gate(now) => before.consecutive_switches >= MAX_AUTO_SWITCHES
                    ==> before.breaker_tripped_at is Some && now < before.breaker_tripped_at->0
                    + BREAKER_COOLDOWN_MS,
                _ => true,
            }
        } by {
            assert(rest[i] == ops[i]);
            assert(rest.take(i) =~= ops.take(i));
        }
        law_switches_add_up_without_recovery(m, rest);
    }
}

} // verus!
