//! The heartbeat of one core generation, from beat to beat.
//!
//! Whoever drives the heartbeat performs what [`phase`](Heartbeat::phase) asks for and hands back
//! what came of it, each time together with the core generation that runs by then. Once that is
//! another one, the heartbeat is over.
use crate::machine::{AutoSwitchMachine, HeartbeatOutcome, MachineView};
use crate::tick::{enter_tick, take_probe, TickAction, TickFacts};
use vstd::prelude::*;

verus! {

/// What a heartbeat asks for next.
#[derive(Debug, Clone, Copy, PartialEq, Eq, Structural)]
pub enum HeartbeatPhase {
    /// Wait for the heartbeat interval, and tell `wake`.
    Waiting,
    /// Probe the exit through this port, and tell `probed`.
    Probing { probe_proxy_port: u16 },
    /// Make a switch, if one may be made now, and tell `switch_over`.
    Switching,
    /// Nothing more: the core was replaced.
    Ended,
}

/// What the runtime reports at the beginning of a beat.
#[derive(Debug, Clone, Copy, PartialEq, Eq, Structural)]
pub struct BeatReadings {
    /// The setting asks for automatic failover.
    pub want_enabled: bool,
    pub core_running: bool,
    pub selected_server_is_real: bool,
}

/// The heartbeat of one core generation.
#[derive(Debug)]
pub struct Heartbeat {
    my_gen: u64,
    probe_proxy_port: Option<u16>,
    generation_blocked: bool,
    phase: HeartbeatPhase,
}

/// The state of a [`Heartbeat`].
pub struct HeartbeatView {
    /// The core generation that the heartbeat belongs to.
    pub my_gen: u64,
    /// Port of the probe inbound that is pinned to the exit, if one was assigned.
    pub probe_proxy_port: Option<u16>,
    /// Failover stands still for the whole generation.
    pub generation_blocked: bool,
    pub phase: HeartbeatPhase,
}

impl View for Heartbeat {
    type V = HeartbeatView;

    closed spec fn view(&self) -> HeartbeatView {
        HeartbeatView {
            my_gen: self.my_gen,
            probe_proxy_port: self.probe_proxy_port,
            generation_blocked: self.generation_blocked,
            phase: self.phase,
        }
    }
}

impl HeartbeatView {
    pub open spec fn at(self, phase: HeartbeatPhase) -> HeartbeatView {
        HeartbeatView { phase, ..self }
    }

    /// What the tick of a beat is decided from.
    pub open spec fn facts(self, readings: BeatReadings) -> TickFacts {
        TickFacts {
            want_enabled: readings.want_enabled,
            core_running: readings.core_running,
            selected_server_is_real: readings.selected_server_is_real,
            generation_blocked: self.generation_blocked,
            probe_proxy_port: self.probe_proxy_port,
        }
    }

    /// The tick of a beat, with a machine in the state `m`; `None` out of turn and where the core
    /// was replaced.
    pub open spec fn tick(self, m: MachineView, generation: u64, readings: BeatReadings) -> Option<
        TickAction,
    > {
        if self.phase is Waiting && generation == self.my_gen {
            Some(m.tick_input(self.facts(readings)).action())
        } else {
            None
        }
    }

    /// The heartbeat after its wait.
    pub open spec fn after_wake(
        self,
        m: MachineView,
        generation: u64,
        readings: BeatReadings,
    ) -> HeartbeatView {
        if !(self.phase is Waiting) {
            self
        } else {
            match self.tick(m, generation, readings) {
                None => self.at(HeartbeatPhase::Ended),
                Some(TickAction::Probe { probe_proxy_port }) => self.at(
                    HeartbeatPhase::Probing { probe_proxy_port },
                ),
                Some(_) => self,
            }
        }
    }

    /// The machine after that.
    pub open spec fn machine_after_wake(
        self,
        m: MachineView,
        generation: u64,
        readings: BeatReadings,
    ) -> MachineView {
        if self.tick(m, generation, readings) is Some {
            m.after_tick(self.facts(readings))
        } else {
            m
        }
    }

    /// What a probe leads to, with a machine in the state `m`; `None` out of turn and where the core
    /// was replaced.
    pub open spec fn outcome(self, m: MachineView, generation: u64, alive: bool) -> Option<
        HeartbeatOutcome,
    > {
        if self.phase is Probing && generation == self.my_gen {
            Some(m.heartbeat_outcome(alive))
        } else {
            None
        }
    }

    /// The heartbeat after a probe.
    pub open spec fn after_probe(self, m: MachineView, generation: u64, alive: bool)
        -> HeartbeatView {
        if !(self.phase is Probing) {
            self
        } else {
            match self.outcome(m, generation, alive) {
                None => self.at(HeartbeatPhase::Ended),
                Some(HeartbeatOutcome::Trigger) => self.at(HeartbeatPhase::Switching),
                Some(_) => self.at(HeartbeatPhase::Waiting),
            }
        }
    }

    /// The machine after that.
    pub open spec fn machine_after_probe(self, m: MachineView, generation: u64, alive: bool)
        -> MachineView {
        if self.outcome(m, generation, alive) is Some {
            m.after_heartbeat(alive)
        } else {
            m
        }
    }

    /// The heartbeat after a switch, or an attempt at one.
    pub open spec fn after_switch(self) -> HeartbeatView {
        if self.phase is Switching {
            self.at(HeartbeatPhase::Waiting)
        } else {
            self
        }
    }
}

impl Heartbeat {
    /// The heartbeat of the core generation `my_gen`.
    pub fn new(my_gen: u64, probe_proxy_port: Option<u16>, generation_blocked: bool) -> (r: Self)
        ensures
            r@ == (HeartbeatView {
                my_gen,
                probe_proxy_port,
                generation_blocked,
                phase: HeartbeatPhase::Waiting,
            }),
    {
        Heartbeat { my_gen, probe_proxy_port, generation_blocked, phase: HeartbeatPhase::Waiting }
    }

    /// What is to be done next.
    pub fn phase(&self) -> (r: HeartbeatPhase)
        ensures
            r == self@.phase,
    {
        self.phase
    }

    /// Takes in the readings after a wait, and decides the tick.
    pub fn wake(
        &mut self,
        machine: &mut AutoSwitchMachine,
        generation: u64,
        readings: BeatReadings,
    ) -> (r: Option<TickAction>)
        ensures
            r == old(self)@.tick(old(machine)@, generation, readings),
            final(self)@ == old(self)@.after_wake(old(machine)@, generation, readings),
            final(machine)@ == old(self)@.machine_after_wake(
                old(machine)@,
                generation,
                readings,
            ),
    {
        match self.phase {
            HeartbeatPhase::Waiting => {},
            _ => {
                return None;
            },
        }
        let facts = TickFacts {
            want_enabled: readings.want_enabled,
            core_running: readings.core_running,
            selected_server_is_real: readings.selected_server_is_real,
            generation_blocked: self.generation_blocked,
            probe_proxy_port: self.probe_proxy_port,
        };
        let action = enter_tick(machine, self.my_gen, generation, facts);
        match action {
            None => {
                self.phase = HeartbeatPhase::Ended;
            },
            Some(TickAction::Probe { probe_proxy_port }) => {
                self.phase = HeartbeatPhase::Probing { probe_proxy_port };
            },
            Some(_) => {},
        }
        action
    }

    /// Takes in whether the exit was found to work.
    pub fn probed(&mut self, machine: &mut AutoSwitchMachine, generation: u64, alive: bool) -> (r:
        Option<HeartbeatOutcome>)
        ensures
            r == old(self)@.outcome(old(machine)@, generation, alive),
            final(self)@ == old(self)@.after_probe(old(machine)@, generation, alive),
            final(machine)@ == old(self)@.machine_after_probe(old(machine)@, generation, alive),
    {
        match self.phase {
            HeartbeatPhase::Probing { .. } => {},
            _ => {
                return None;
            },
        }
        let outcome = take_probe(machine, self.my_gen, generation, alive);
        self.phase = match outcome {
            None => HeartbeatPhase::Ended,
            Some(HeartbeatOutcome::Trigger) => HeartbeatPhase::Switching,
            Some(_) => HeartbeatPhase::Waiting,
        };
        outcome
    }

    /// Takes in that the switch, or the attempt at one, is over.
    pub fn switch_over(&mut self)
        ensures
            final(self)@ == old(self)@.after_switch(),
    {
        if let HeartbeatPhase::Switching = self.phase {
            self.phase = HeartbeatPhase::Waiting;
        }
    }
}

/// What can be told to a heartbeat.
pub enum BeatEvent {
    Wake { generation: u64, readings: BeatReadings },
    Probed { generation: u64, alive: bool },
    SwitchOver,
}

/// The heartbeat after one event, with a machine in the state `m`.
pub open spec fn beat(h: HeartbeatView, m: MachineView, event: BeatEvent) -> HeartbeatView {
    match event {
        BeatEvent::Wake { generation, readings } => h.after_wake(m, generation, readings),
        BeatEvent::Probed { generation, alive } => h.after_probe(m, generation, alive),
        BeatEvent::SwitchOver => h.after_switch(),
    }
}

/// The machine after one event.
pub open spec fn machine_after_beat(h: HeartbeatView, m: MachineView, event: BeatEvent)
    -> MachineView {
    match event {
        BeatEvent::Wake { generation, readings } => h.machine_after_wake(m, generation, readings),
        BeatEvent::Probed { generation, alive } => h.machine_after_probe(m, generation, alive),
        BeatEvent::SwitchOver => m,
    }
}

/// The heartbeat after a course of events, each with the state that the machine was in by then.
pub open spec fn beats(h: HeartbeatView, events: Seq<(MachineView, BeatEvent)>) -> HeartbeatView
    decreases events.len(),
{
    if events.len() == 0 {
        h
    } else {
        beat(beats(h, events.drop_last()), events.last().0, events.last().1)
    }
}

/// The event tells of another core generation than that of the heartbeat.
pub open spec fn tells_of_another_core(h: HeartbeatView, event: BeatEvent) -> bool {
    match event {
        BeatEvent::Wake { generation, .. } => h.phase is Waiting && generation != h.my_gen,
        BeatEvent::Probed { generation, .. } => h.phase is Probing && generation != h.my_gen,
        BeatEvent::SwitchOver => false,
    }
}

/// A heartbeat of a blocked generation, or without a probe port, never probes and never switches,
/// whatever it is told.
pub proof fn law_standing_still_heartbeat_never_acts(
    h: HeartbeatView,
    events: Seq<(MachineView, BeatEvent)>,
)
    requires
        h.phase is Waiting,
        h.generation_blocked || h.probe_proxy_port is None,
    ensures
        !(beats(h, events).phase is Probing),
        !(beats(h, events).phase is Switching),
    decreases events.len(),
{
    if events.len() > 0 {
        law_standing_still_heartbeat_never_acts(h, events.drop_last());
        lemma_heartbeat_keeps_its_terms(h, events.drop_last());
    }
}

proof fn lemma_heartbeat_keeps_its_terms(h: HeartbeatView, events: Seq<(MachineView, BeatEvent)>)
    ensures
        beats(h, events).my_gen == h.my_gen,
        beats(h, events).probe_proxy_port == h.probe_proxy_port,
        beats(h, events).generation_blocked == h.generation_blocked,
    decreases events.len(),
{
    if events.len() > 0 {
        lemma_heartbeat_keeps_its_terms(h, events.drop_last());
    }
}

/// Once a beat or a finished probe finds another core generation, the heartbeat ends there: the
/// machine is not fed, nothing is switched, and whatever it is told afterwards, it stays ended.
pub proof fn law_replaced_core_ends_the_heartbeat(
    h: HeartbeatView,
    m: MachineView,
    event: BeatEvent,
    later: Seq<(MachineView, BeatEvent)>,
)
    requires
        tells_of_another_core(h, event),
    ensures
        machine_after_beat(h, m, event) == m,
        beats(beat(h, m, event), later).phase is Ended,
    decreases later.len(),
{
    if later.len() > 0 {
        law_replaced_core_ends_the_heartbeat(h, m, event, later.drop_last());
    }
}

/// An ended heartbeat leaves the machine alone.
pub proof fn law_ended_heartbeat_feeds_nothing(h: HeartbeatView, m: MachineView, event: BeatEvent)
    requires
        h.phase is Ended,
    ensures
        beat(h, m, event) == h,
        machine_after_beat(h, m, event) == m,
{
}

/// A heartbeat comes to switch only by a failed probe that completes the streak, in its own core
/// generation.
pub proof fn law_only_completed_streaks_switch(h: HeartbeatView, m: MachineView, event: BeatEvent)
    requires
        !(h.phase is Switching),
        beat(h, m, event).phase is Switching,
    ensures
        h.phase is Probing,
        event == (BeatEvent::Probed { generation: h.my_gen, alive: false }),
        m.on_the_brink(),
{
}

} // verus!
