//! What one heartbeat tick does: probe, or skip, and whether a skip forgets the failures so far.
use crate::machine::{AutoSwitchMachine, HeartbeatOutcome, MachineView};
use vstd::prelude::*;

verus! {

/// What a tick is decided from.
#[derive(Debug, Clone, Copy, PartialEq, Eq, Structural)]
pub struct TickInput {
    pub enabled: bool,
    pub switching: bool,
    pub core_running: bool,
    pub selected_server_is_real: bool,
    /// Failover stands still for the whole generation.
    pub generation_blocked: bool,
    /// Port of the probe inbound that is pinned to the exit, if one was assigned.
    pub probe_proxy_port: Option<u16>,
}

/// Why a tick is skipped.
#[derive(Debug, Clone, Copy, PartialEq, Eq, Structural)]
pub enum SkipReason {
    /// Failover is turned off.
    Disabled,
    /// A switch is under way.
    Switching,
    CoreNotRunning,
    /// The selection is no configured node: direct, blocked, deleted, or none at all.
    SelectionNotReal,
    GenerationBlocked,
    /// No probe port was assigned; another inbound would not measure the exit.
    NoProbePort,
}

/// What a tick does.
#[derive(Debug, Clone, Copy, PartialEq, Eq, Structural)]
pub enum TickAction {
    /// Skip, and keep the count of failures.
    Skip(SkipReason),
    /// Clear the count of failures and skip.
    SkipAfterResettingFailures(SkipReason),
    Probe { probe_proxy_port: u16 },
}

impl TickInput {
    /// The first obstacle of a tick, in the order of precedence; `None` where it can probe.
    pub open spec fn obstacle(self) -> Option<SkipReason> {
        if !self.enabled {
            Some(SkipReason::Disabled)
        } else if self.switching {
            Some(SkipReason::Switching)
        } else if !self.core_running {
            Some(SkipReason::CoreNotRunning)
        } else if !self.selected_server_is_real {
            Some(SkipReason::SelectionNotReal)
        } else if self.generation_blocked {
            Some(SkipReason::GenerationBlocked)
        } else if self.probe_proxy_port is None {
            Some(SkipReason::NoProbePort)
        } else {
            None
        }
    }

    pub open spec fn action(self) -> TickAction {
        match self.obstacle() {
            None => TickAction::Probe { probe_proxy_port: self.probe_proxy_port->0 },
            Some(reason) => if forgets_failures(reason) {
                TickAction::SkipAfterResettingFailures(reason)
            } else {
                TickAction::Skip(reason)
            },
        }
    }
}

/// Obstacles under which the exit cannot be probed at all. Failures counted before them say nothing
/// of the time after.
pub open spec fn forgets_failures(reason: SkipReason) -> bool {
    reason is CoreNotRunning || reason is GenerationBlocked || reason is NoProbePort
}

/// Decides one tick.
#[must_use]
pub fn decide_tick(input: TickInput) -> (r: TickAction)
    ensures
        r == input.action(),
{
    if !input.enabled {
        return TickAction::Skip(SkipReason::Disabled);
    }
    if input.switching {
        return TickAction::Skip(SkipReason::Switching);
    }
    if !input.core_running {
        return TickAction::SkipAfterResettingFailures(SkipReason::CoreNotRunning);
    }
    if !input.selected_server_is_real {
        return TickAction::Skip(SkipReason::SelectionNotReal);
    }
    if input.generation_blocked {
        return TickAction::SkipAfterResettingFailures(SkipReason::GenerationBlocked);
    }
    match input.probe_proxy_port {
        Some(probe_proxy_port) => TickAction::Probe { probe_proxy_port },
        None => TickAction::SkipAfterResettingFailures(SkipReason::NoProbePort),
    }
}

/// What the runtime reports at the beginning of a tick.
#[derive(Debug, Clone, Copy, PartialEq, Eq, Structural)]
pub struct TickFacts {
    /// The setting asks for automatic failover.
    pub want_enabled: bool,
    pub core_running: bool,
    pub selected_server_is_real: bool,
    pub generation_blocked: bool,
    pub probe_proxy_port: Option<u16>,
}

impl MachineView {
    /// The machine with the setting taken over.
    pub open spec fn after_sync(self, want_enabled: bool) -> MachineView {
        if want_enabled {
            self.after_enable()
        } else {
            self.after_disable()
        }
    }

    /// The input of a tick, once the setting has been taken over.
    pub open spec fn tick_input(self, facts: TickFacts) -> TickInput {
        let synced = self.after_sync(facts.want_enabled);
        TickInput {
            enabled: synced.enabled,
            switching: synced.is_switching,
            core_running: facts.core_running,
            selected_server_is_real: facts.selected_server_is_real,
            generation_blocked: facts.generation_blocked,
            probe_proxy_port: facts.probe_proxy_port,
        }
    }

    /// The machine when the tick has been decided.
    pub open spec fn after_tick(self, facts: TickFacts) -> MachineView {
        let synced = self.after_sync(facts.want_enabled);
        match self.tick_input(facts).action() {
            TickAction::SkipAfterResettingFailures(_) => synced.after_reset_failures(),
            _ => synced,
        }
    }
}

/// Begins a tick: takes over the setting, decides the tick, and clears the failures where the
/// decision says so.
pub fn begin_tick(machine: &mut AutoSwitchMachine, facts: TickFacts) -> (r: TickAction)
    ensures
        r == old(machine)@.tick_input(facts).action(),
        final(machine)@ == old(machine)@.after_tick(facts),
{
    if facts.want_enabled && !machine.is_enabled() {
        machine.enable();
    } else if !facts.want_enabled && machine.is_enabled() {
        machine.disable();
    }
    let action = decide_tick(
        TickInput {
            enabled: machine.is_enabled(),
            switching: machine.is_switching(),
            core_running: facts.core_running,
            selected_server_is_real: facts.selected_server_is_real,
            generation_blocked: facts.generation_blocked,
            probe_proxy_port: facts.probe_proxy_port,
        },
    );
    if let TickAction::SkipAfterResettingFailures(_) = action {
        machine.reset_failures_only();
    }
    action
}

/// Begins a tick of the core generation `my_gen`, `generation` being the one that runs now. Where
/// the core was replaced there is no tick: `None`, and the machine is left as it is.
pub fn enter_tick(
    machine: &mut AutoSwitchMachine,
    my_gen: u64,
    generation: u64,
    facts: TickFacts,
) -> (r: Option<TickAction>)
    ensures
        generation != my_gen ==> r is None && final(machine)@ == old(machine)@,
        generation == my_gen ==> {
            &&& r == Some(old(machine)@.tick_input(facts).action())
            &&& final(machine)@ == old(machine)@.after_tick(facts)
        },
{
    if generation != my_gen {
        return None;
    }
    Some(begin_tick(machine, facts))
}

/// Takes in the result of a probe that was begun in the core generation `my_gen`, `generation` being
/// the one that runs now. Where the core was replaced the result is not heeded: `None`, and the
/// machine is left as it is.
pub fn take_probe(
    machine: &mut AutoSwitchMachine,
    my_gen: u64,
    generation: u64,
    alive: bool,
) -> (r: Option<HeartbeatOutcome>)
    ensures
        generation != my_gen ==> r is None && final(machine)@ == old(machine)@,
        generation == my_gen ==> {
            &&& r == Some(old(machine)@.heartbeat_outcome(alive))
            &&& final(machine)@ == old(machine)@.after_heartbeat(alive)
        },
{
    if generation != my_gen {
        return None;
    }
    Some(machine.on_heartbeat(alive))
}

/// A tick probes exactly when nothing stands in its way, and then through the assigned port.
pub proof fn law_tick_probes_when_clear(input: TickInput, port: u16)
    ensures
        input.action() == (TickAction::Probe { probe_proxy_port: port }) <==> {
            &&& input.enabled
            &&& !input.switching
            &&& input.core_running
            &&& input.selected_server_is_real
            &&& !input.generation_blocked
            &&& input.probe_proxy_port == Some(port)
        },
{
}

/// Failures never outlive a time in which the exit could not be probed: after a tick that meets a
/// stopped core, a blocked generation or a missing port, it takes a whole new streak to switch.
pub proof fn law_failures_do_not_outlive_a_standstill(m: MachineView, facts: TickFacts)
    requires
        m.tick_input(facts).obstacle() is Some,
        forgets_failures(m.tick_input(facts).obstacle()->0),
    ensures
        m.after_tick(facts).consecutive_failures == 0,
        !(m.after_tick(facts).heartbeat_outcome(false) is Trigger),
{
}

/// Every other tick of a machine whose setting has not changed leaves it as it is.
pub proof fn law_other_ticks_change_nothing(m: MachineView, facts: TickFacts)
    requires
        m.enabled == facts.want_enabled,
        m.tick_input(facts).obstacle() is Some ==> !forgets_failures(
            m.tick_input(facts).obstacle()->0,
        ),
    ensures
        m.after_tick(facts) == m,
{
}

/// A tick never touches the switch gate's memory: switch times and the claimed report stay, and the
/// breaker changes only where the setting is turned on.
pub proof fn law_ticks_keep_switch_history(m: MachineView, facts: TickFacts)
    ensures
        ({
            let t = m.after_tick(facts);
            &&& t.last_switch_time == m.last_switch_time
            &&& t.is_switching == m.is_switching
            &&& t.restart_blocked_reported == m.restart_blocked_reported
            &&& (m.enabled || !facts.want_enabled) ==> t.consecutive_switches
                == m.consecutive_switches && t.breaker_tripped_at == m.breaker_tripped_at
        }),
{
}

} // verus!
