//! What holds of the decision machine over whole runs.
use crate::machine::{
    elapsed, HeartbeatOutcome, MachineView, SwitchGate, BREAKER_COOLDOWN_MS, MAX_AUTO_SWITCHES,
    MAX_CONSECUTIVE_FAILURES, SWITCH_COOLDOWN_MS,
};
use vstd::prelude::*;

verus! {

/// An operation on the machine.
pub enum MachineOp {
    Enable,
    Disable,
    ResetFailures,
    Heartbeat(bool),
    Gate(u64),
    Begin(u64),
    Record(u64),
    End,
    Claim,
}

/// The state after one operation.
pub open spec fn apply(m: MachineView, op: MachineOp) -> MachineView {
    match op {
        MachineOp::Enable => m.after_enable(),
        MachineOp::Disable => m.after_disable(),
        MachineOp::ResetFailures => m.after_reset_failures(),
        MachineOp::Heartbeat(alive) => m.after_heartbeat(alive),
        MachineOp::Gate(now) => m.after_gate(now),
        MachineOp::Begin(now) => m.after_begin(now),
        MachineOp::Record(now) => m.after_record(now),
        MachineOp::End => m.after_end(),
        MachineOp::Claim => m.after_claim(),
    }
}

/// The state after a run of operations.
pub open spec fn run(m: MachineView, ops: Seq<MachineOp>) -> MachineView
    decreases ops.len(),
{
    if ops.len() == 0 {
        m
    } else {
        apply(run(m, ops.drop_last()), ops.last())
    }
}

/// How many claims of a run are granted.
pub open spec fn claims_granted(m: MachineView, ops: Seq<MachineOp>) -> nat
    decreases ops.len(),
{
    if ops.len() == 0 {
        0
    } else {
        let before = run(m, ops.drop_last());
        claims_granted(m, ops.drop_last()) + if ops.last() is Claim
            && !before.restart_blocked_reported {
            1nat
        } else {
            0nat
        }
    }
}

/// The state after `n` failed heartbeats in a row.
pub open spec fn after_failures(m: MachineView, n: nat) -> MachineView
    decreases n,
{
    if n == 0 {
        m
    } else {
        after_failures(m, (n - 1) as nat).after_heartbeat(false)
    }
}

/// The machine starts well-formed, and every operation keeps it so.
pub proof fn law_operations_keep_the_machine_well_formed(m: MachineView, op: MachineOp)
    requires
        m.well_formed(),
    ensures
        MachineView::initial().well_formed(),
        apply(m, op).well_formed(),
{
}

/// Whatever is done with it, a machine stays well-formed.
pub proof fn law_runs_keep_the_machine_well_formed(m: MachineView, ops: Seq<MachineOp>)
    requires
        m.well_formed(),
    ensures
        run(m, ops).well_formed(),
    decreases ops.len(),
{
    if ops.len() > 0 {
        law_runs_keep_the_machine_well_formed(m, ops.drop_last());
    }
}

/// A switch is triggered by every third of the failures in a row, and by no other: outages that are
/// shorter never switch, and those that last always do.
pub proof fn law_every_third_failure_triggers(m: MachineView, n: nat)
    requires
        m.consecutive_failures == 0,
        n >= 1,
    ensures
        after_failures(m, n).consecutive_failures == n % (MAX_CONSECUTIVE_FAILURES as nat),
        (after_failures(m, (n - 1) as nat).heartbeat_outcome(false) is Trigger) <==> n % (
        MAX_CONSECUTIVE_FAILURES as nat) == 0,
        n % (MAX_CONSECUTIVE_FAILURES as nat) != 0 ==> after_failures(
            m,
            (n - 1) as nat,
        ).heartbeat_outcome(false) == (HeartbeatOutcome::Failing {
            failures: (n % (MAX_CONSECUTIVE_FAILURES as nat)) as u32,
        }),
    decreases n,
{
    reveal_with_fuel(after_failures, 2);
    if n > 1 {
        law_every_third_failure_triggers(m, (n - 1) as nat);
    }
}

/// A heartbeat never triggers while the machine is connected, and it takes three failures in a row
/// from there, however many there were before.
pub proof fn law_recovery_starts_the_streak_over(m: MachineView)
    ensures
        !(m.heartbeat_outcome(true) is Trigger),
        m.after_heartbeat(true).consecutive_failures == 0,
        !(after_failures(m.after_heartbeat(true), 0).heartbeat_outcome(false) is Trigger),
        !(after_failures(m.after_heartbeat(true), 1).heartbeat_outcome(false) is Trigger),
        after_failures(m.after_heartbeat(true), 2).heartbeat_outcome(false) is Trigger,
{
    reveal_with_fuel(after_failures, 3);
}

/// Only one switch is under way at a time: from its beginning to its end the switch gate stays
/// shut.
pub proof fn law_one_switch_at_a_time(m: MachineView, began: u64, ops: Seq<MachineOp>, now: u64)
    requires
        forall|i: int| 0 <= i < ops.len() ==> !(#[trigger] ops[i] is End),
    ensures
        run(m.after_begin(began), ops).gate(now) is InFlight,
    decreases ops.len(),
{
    if ops.len() > 0 {
        let rest = ops.drop_last();
        assert forall|i: int| 0 <= i < rest.len() implies !(#[trigger] rest[i] is End) by {
            assert(rest[i] == ops[i]);
        }
        law_one_switch_at_a_time(m, began, rest, now);
    }
}

/// Until another switch begins, the time of the last one stands, whatever else is done.
proof fn lemma_last_switch_time_stands(m: MachineView, began: u64, ops: Seq<MachineOp>)
    requires
        forall|i: int| 0 <= i < ops.len() ==> !(#[trigger] ops[i] is Begin),
    ensures
        run(m.after_begin(began), ops).last_switch_time == Some(began),
    decreases ops.len(),
{
    if ops.len() > 0 {
        let rest = ops.drop_last();
        assert forall|i: int| 0 <= i < rest.len() implies !(#[trigger] rest[i] is Begin) by {
            assert(rest[i] == ops[i]);
        }
        lemma_last_switch_time_stands(m, began, rest);
    }
}

/// Two switches begin at least a cooldown apart: after one has begun, no switch gate opens before
/// the cooldown is over, whatever is done in between and whether or not the switch succeeded.
pub proof fn law_switches_are_a_cooldown_apart(
    m: MachineView,
    began: u64,
    ops: Seq<MachineOp>,
    now: u64,
)
    requires
        forall|i: int| 0 <= i < ops.len() ==> !(#[trigger] ops[i] is Begin),
        run(m.after_begin(began), ops).gate(now) is Proceed,
    ensures
        now >= began + SWITCH_COOLDOWN_MS,
{
    lemma_last_switch_time_stands(m, began, ops);
}

/// An operation that leaves a breaker tripped at `tripped` as it is: no sign of recovery, no
/// re-enabling, no further switch, and no question at the switch gate once its time is over.
pub open spec fn leaves_breaker(op: MachineOp, tripped: u64) -> bool {
    match op {
        MachineOp::Heartbeat(alive) => !alive,
        MachineOp::Enable => false,
        MachineOp::Record(_) => false,
        MachineOp::Gate(now) => elapsed(now, tripped) < BREAKER_COOLDOWN_MS,
        _ => true,
    }
}

/// A tripped breaker keeps the switch gate shut for its whole time, unless connectivity returns or
/// the machine is enabled anew.
pub proof fn law_breaker_holds_its_time(
    m: MachineView,
    tripped: u64,
    ops: Seq<MachineOp>,
    now: u64,
)
    requires
        m.consecutive_switches >= MAX_AUTO_SWITCHES,
        m.breaker_tripped_at == Some(tripped),
        forall|i: int| 0 <= i < ops.len() ==> leaves_breaker(#[trigger] ops[i], tripped),
        elapsed(now, tripped) < BREAKER_COOLDOWN_MS,
    ensures
        run(m, ops).consecutive_switches == m.consecutive_switches,
        run(m, ops).breaker_tripped_at == Some(tripped),
        !(run(m, ops).gate(now) is Proceed),
        !run(m, ops).is_switching ==> run(m, ops).gate(now) == (SwitchGate::Breaker {
            remaining_ms: (BREAKER_COOLDOWN_MS - elapsed(now, tripped)) as u64,
        }),
    decreases ops.len(),
{
    if ops.len() > 0 {
        assert forall|i: int| 0 <= i < ops.drop_last().len() implies leaves_breaker(
            #[trigger] ops.drop_last()[i],
            tripped,
        ) by {
            assert(ops.drop_last()[i] == ops[i]);
        }
        law_breaker_holds_its_time(m, tripped, ops.drop_last(), now);
        assert(leaves_breaker(ops.last(), tripped));
    }
}

/// The third switch in a row trips the breaker, at the time of that switch; fewer never do.
pub proof fn law_third_switch_trips_the_breaker(m: MachineView, now: u64, asked: u64)
    requires
        m.well_formed(),
        m.consecutive_switches < MAX_AUTO_SWITCHES,
    ensures
        m.consecutive_switches + 1 == MAX_AUTO_SWITCHES ==> m.after_record(now).breaker_tripped_at
            == Some(now),
        m.consecutive_switches + 1 < MAX_AUTO_SWITCHES ==> !(m.after_record(now).gate(
            asked,
        ) is Breaker),
{
}

/// The switch gate never stays shut for good: where no switch is under way it opens once both
/// waiting times are over.
pub proof fn law_gate_opens_again(m: MachineView, now: u64)
    requires
        !m.is_switching,
        m.last_switch_time is Some ==> now >= m.last_switch_time->0 + SWITCH_COOLDOWN_MS,
        m.breaker_tripped_at is Some ==> now >= m.breaker_tripped_at->0 + BREAKER_COOLDOWN_MS,
    ensures
        m.gate(now) is Proceed,
{
}

/// The remaining time that a shut switch gate names is exact: it is shut for the same reason all
/// through that time, and no longer for that reason once it has passed.
pub proof fn law_remaining_time_is_exact(m: MachineView, now: u64, later: u64)
    requires
        now <= later,
        m.last_switch_time is Some ==> m.last_switch_time->0 <= now,
        m.breaker_tripped_at is Some ==> m.breaker_tripped_at->0 <= now,
    ensures
        match m.gate(now) {
            SwitchGate::Cooldown { remaining_ms } => {
                &&& 0 < remaining_ms <= SWITCH_COOLDOWN_MS
                &&& later < now + remaining_ms <==> m.after_gate(now).gate(later) is Cooldown
                &&& later >= now + remaining_ms <==> m.after_gate(now).gate(later) is Proceed
            },
            SwitchGate::Breaker { remaining_ms } => {
                &&& 0 < remaining_ms <= BREAKER_COOLDOWN_MS
                &&& later < now + remaining_ms <==> m.after_gate(now).gate(later) is Breaker
            },
            _ => true,
        },
{
}

/// After the switch gate has opened, the breaker has room for the switch that follows: its count is
/// below the limit.
pub proof fn law_open_gate_has_room(m: MachineView, now: u64)
    requires
        m.well_formed(),
        m.gate(now) is Proceed,
    ensures
        m.after_gate(now).consecutive_switches < MAX_AUTO_SWITCHES,
{
}

/// A switch that was started can be counted when it is over: whatever is done meanwhile, short of
/// counting another one, the count stays below the limit.
pub proof fn law_started_switch_can_be_counted(
    m: MachineView,
    asked: u64,
    began: u64,
    ops: Seq<MachineOp>,
)
    requires
        m.well_formed(),
        m.gate(asked) is Proceed,
        forall|i: int| 0 <= i < ops.len() ==> !(#[trigger] ops[i] is Record),
    ensures
        run(m.after_start(asked, began), ops).consecutive_switches < MAX_AUTO_SWITCHES,
    decreases ops.len(),
{
    if ops.len() > 0 {
        let rest = ops.drop_last();
        assert forall|i: int| 0 <= i < rest.len() implies !(#[trigger] rest[i] is Record) by {
            assert(rest[i] == ops[i]);
        }
        law_started_switch_can_be_counted(m, asked, began, rest);
        assert(!(ops[ops.len() - 1] is Record));
    }
}

/// A switch begins at an open switch gate only: where it is shut, nothing is begun and the time of
/// the last switch stands.
pub proof fn law_shut_gate_starts_nothing(m: MachineView, asked: u64, began: u64)
    requires
        !(m.gate(asked) is Proceed),
    ensures
        m.after_start(asked, began).is_switching == m.is_switching,
        m.after_start(asked, began).last_switch_time == m.last_switch_time,
{
}

/// Asking twice at the switch gate is asking once: the same answer, and no further change.
pub proof fn law_asking_twice_is_asking_once(m: MachineView, now: u64)
    requires
        m.well_formed(),
    ensures
        m.after_gate(now).gate(now) == m.gate(now),
        m.after_gate(now).after_gate(now) == m.after_gate(now),
{
}

/// A claimed report stays claimed: no operation gives it back.
pub proof fn law_claimed_report_stays_claimed(m: MachineView, ops: Seq<MachineOp>)
    requires
        m.restart_blocked_reported,
    ensures
        run(m, ops).restart_blocked_reported,
    decreases ops.len(),
{
    if ops.len() > 0 {
        law_claimed_report_stays_claimed(m, ops.drop_last());
    }
}

/// A generation reports once: of all claims in a run at most one is granted, the first, and none
/// where the report has been claimed before.
pub proof fn law_report_is_granted_once(m: MachineView, ops: Seq<MachineOp>)
    ensures
        claims_granted(m, ops) <= 1,
        m.restart_blocked_reported ==> claims_granted(m, ops) == 0,
        !m.restart_blocked_reported ==> (claims_granted(m, ops) == 1 <==> exists|i: int|
            0 <= i < ops.len() && #[trigger] ops[i] is Claim),
        run(m, ops).restart_blocked_reported <==> m.restart_blocked_reported || exists|i: int|
            0 <= i < ops.len() && #[trigger] ops[i] is Claim,
    decreases ops.len(),
{
    if ops.len() > 0 {
        let rest = ops.drop_last();
        law_report_is_granted_once(m, rest);
        if exists|i: int| 0 <= i < rest.len() && #[trigger] rest[i] is Claim {
            let i = choose|i: int| 0 <= i < rest.len() && #[trigger] rest[i] is Claim;
            assert(ops[i] is Claim);
        }
        if ops.last() is Claim {
            assert(ops[ops.len() - 1] is Claim);
        }
        if exists|i: int| 0 <= i < ops.len() && #[trigger] ops[i] is Claim {
            let i = choose|i: int| 0 <= i < ops.len() && #[trigger] ops[i] is Claim;
            if i < rest.len() {
                assert(rest[i] is Claim);
            }
        }
    }
}

/// Enabling an enabled machine does nothing, so that a streak of failures survives it.
pub proof fn law_enable_is_idempotent(m: MachineView)
    ensures
        m.after_enable().after_enable() == m.after_enable(),
        m.enabled ==> m.after_enable() == m,
{
}

/// Turning the machine off and on again clears the failures and the breaker, and keeps the cooldown
/// and the claimed report.
pub proof fn law_toggling_clears_counts_only(m: MachineView)
    ensures
        ({
            let t = m.after_disable().after_enable();
            &&& t.enabled
            &&& t.consecutive_failures == 0
            &&& t.consecutive_switches == 0
            &&& t.breaker_tripped_at is None
            &&& t.is_switching == m.is_switching
            &&& t.last_switch_time == m.last_switch_time
            &&& t.restart_blocked_reported == m.restart_blocked_reported
        }),
{
}

/// Clearing the failures leaves the switch gate as it is: a breaker that holds goes on holding.
pub proof fn law_reset_failures_keeps_the_gate(m: MachineView, now: u64)
    ensures
        m.after_reset_failures().consecutive_failures == 0,
        m.after_reset_failures().gate(now) == m.gate(now),
{
}

/// Connectivity lets go of the breaker at once; only the cooldown still counts.
pub proof fn law_recovery_releases_the_breaker(m: MachineView, now: u64)
    ensures
        !(m.after_heartbeat(true).gate(now) is Breaker),
        !m.is_switching && m.cooldown_remaining(now) == 0 ==> m.after_heartbeat(true).gate(
            now,
        ) is Proceed,
{
}

} // verus!
