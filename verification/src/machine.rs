//! The timing state of automatic failover: when connectivity failures trigger a switch, and when a
//! switch may be made.
//!
//! The machine serves one generation of the running core and does no I/O: the clock readings and
//! the results of the connectivity probes are handed to it.
use vstd::prelude::*;

verus! {

/// Interval between two connectivity heartbeats.
pub const HEARTBEAT_INTERVAL_MS: u64 = 30_000;

/// Consecutive failures that trigger a switch. A single outage only adds to the count.
pub const MAX_CONSECUTIVE_FAILURES: u32 = 3;

/// Time after a switch during which no other is made.
pub const SWITCH_COOLDOWN_MS: u64 = 60_000;

/// Timeout of one connectivity probe.
pub const CONNECTIVITY_TIMEOUT_MS: u64 = 5_000;

/// Consecutive switches without recovery that trip the breaker.
pub const MAX_AUTO_SWITCHES: u32 = 3;

/// Time that a tripped breaker holds before it lets one more attempt through.
pub const BREAKER_COOLDOWN_MS: u64 = 600_000;

/// Endpoints that answer a connectivity probe; one that is reached proves the exit.
pub const CONNECTIVITY_URLS: [&'static str; 2] = [
    "http://cp.cloudflare.com/generate_204",
    "http://www.gstatic.com/generate_204",
];

/// What one heartbeat leads to.
#[derive(Debug, Clone, Copy, PartialEq, Eq, Structural)]
pub enum HeartbeatOutcome {
    /// Connected, as before.
    Stable,
    /// Connected again after `prior` consecutive failures.
    Recovered { prior: u32 },
    /// Not connected, for the `failures`-th time in a row; not enough to switch.
    Failing { failures: u32 },
    /// The failures in a row have reached the threshold: switch.
    Trigger,
}

/// Whether a switch may be made now.
#[derive(Debug, Clone, Copy, PartialEq, Eq, Structural)]
pub enum SwitchGate {
    Proceed,
    /// A switch is under way.
    InFlight,
    /// The breaker holds for another `remaining_ms`.
    Breaker { remaining_ms: u64 },
    /// The last switch is too recent; `remaining_ms` are to pass.
    Cooldown { remaining_ms: u64 },
}

/// The decision machine of one core generation.
#[derive(Debug)]
pub struct AutoSwitchMachine {
    enabled: bool,
    consecutive_failures: u32,
    is_switching: bool,
    /// Monotonic clock, in milliseconds; `None` before the first switch.
    last_switch_time: Option<u64>,
    consecutive_switches: u32,
    breaker_tripped_at: Option<u64>,
    restart_blocked_reported: bool,
}

/// The state of an [`AutoSwitchMachine`].
pub struct MachineView {
    pub enabled: bool,
    /// Failed heartbeats in a row.
    pub consecutive_failures: nat,
    /// A switch is under way.
    pub is_switching: bool,
    /// When the last switch began.
    pub last_switch_time: Option<u64>,
    /// Completed switches since connectivity was last seen, or since the breaker let go.
    pub consecutive_switches: nat,
    /// When the breaker last tripped.
    pub breaker_tripped_at: Option<u64>,
    /// The one report of this generation has been claimed.
    pub restart_blocked_reported: bool,
}

impl View for AutoSwitchMachine {
    type V = MachineView;

    closed spec fn view(&self) -> MachineView {
        MachineView {
            enabled: self.enabled,
            consecutive_failures: self.consecutive_failures as nat,
            is_switching: self.is_switching,
            last_switch_time: self.last_switch_time,
            consecutive_switches: self.consecutive_switches as nat,
            breaker_tripped_at: self.breaker_tripped_at,
            restart_blocked_reported: self.restart_blocked_reported,
        }
    }
}

/// The time from `then` to `now`; none where the clock reads earlier.
pub open spec fn elapsed(now: u64, then: u64) -> int {
    if now >= then {
        now - then
    } else {
        0
    }
}

impl MachineView {
    /// What holds of every machine: the failure count stays below the threshold, and a breaker that
    /// has reached its count has a trip time.
    pub open spec fn well_formed(self) -> bool {
        &&& self.consecutive_failures < MAX_CONSECUTIVE_FAILURES
        &&& self.consecutive_switches >= MAX_AUTO_SWITCHES ==> self.breaker_tripped_at is Some
    }

    pub open spec fn initial() -> MachineView {
        MachineView {
            enabled: false,
            consecutive_failures: 0,
            is_switching: false,
            last_switch_time: None,
            consecutive_switches: 0,
            breaker_tripped_at: None,
            restart_blocked_reported: false,
        }
    }

    pub open spec fn after_claim(self) -> MachineView {
        MachineView { restart_blocked_reported: true, ..self }
    }

    /// Enabling clears the failure count and the breaker; an enabled machine is left as it is.
    pub open spec fn after_enable(self) -> MachineView {
        if self.enabled {
            self
        } else {
            MachineView {
                enabled: true,
                consecutive_failures: 0,
                consecutive_switches: 0,
                breaker_tripped_at: None,
                ..self
            }
        }
    }

    pub open spec fn after_disable(self) -> MachineView {
        MachineView { enabled: false, ..self }
    }

    pub open spec fn after_reset_failures(self) -> MachineView {
        MachineView { consecutive_failures: 0, ..self }
    }

    /// The failure that comes next completes the streak.
    pub open spec fn on_the_brink(self) -> bool {
        self.consecutive_failures + 1 >= MAX_CONSECUTIVE_FAILURES
    }

    pub open spec fn heartbeat_outcome(self, alive: bool) -> HeartbeatOutcome {
        if alive {
            if self.consecutive_failures > 0 {
                HeartbeatOutcome::Recovered { prior: self.consecutive_failures as u32 }
            } else {
                HeartbeatOutcome::Stable
            }
        } else if self.on_the_brink() {
            HeartbeatOutcome::Trigger
        } else {
            HeartbeatOutcome::Failing { failures: (self.consecutive_failures + 1) as u32 }
        }
    }

    /// A heartbeat that connects clears both counts; one that fails adds to the failures, which
    /// start over when they trigger.
    pub open spec fn after_heartbeat(self, alive: bool) -> MachineView {
        if alive {
            MachineView { consecutive_failures: 0, consecutive_switches: 0, ..self }
        } else if self.on_the_brink() {
            MachineView { consecutive_failures: 0, ..self }
        } else {
            MachineView { consecutive_failures: self.consecutive_failures + 1, ..self }
        }
    }

    /// The time for which the breaker still holds at `now`; none where it does not hold.
    pub open spec fn breaker_remaining(self, now: u64) -> int {
        match self.breaker_tripped_at {
            Some(at) if self.consecutive_switches >= MAX_AUTO_SWITCHES && elapsed(now, at)
                < BREAKER_COOLDOWN_MS => BREAKER_COOLDOWN_MS - elapsed(now, at),
            _ => 0,
        }
    }

    /// The time that must still pass at `now` since the last switch; none where enough has.
    pub open spec fn cooldown_remaining(self, now: u64) -> int {
        match self.last_switch_time {
            Some(at) if elapsed(now, at) < SWITCH_COOLDOWN_MS => SWITCH_COOLDOWN_MS - elapsed(
                now,
                at,
            ),
            _ => 0,
        }
    }

    /// The switch gate at `now`: a switch under way comes before the breaker, and that before the
    /// cooldown.
    pub open spec fn gate(self, now: u64) -> SwitchGate {
        if self.is_switching {
            SwitchGate::InFlight
        } else if self.breaker_remaining(now) > 0 {
            SwitchGate::Breaker { remaining_ms: self.breaker_remaining(now) as u64 }
        } else if self.cooldown_remaining(now) > 0 {
            SwitchGate::Cooldown { remaining_ms: self.cooldown_remaining(now) as u64 }
        } else {
            SwitchGate::Proceed
        }
    }

    /// Asking at the switch gate lets go of a breaker whose time is over, and changes nothing else.
    pub open spec fn after_gate(self, now: u64) -> MachineView {
        if !self.is_switching && self.consecutive_switches >= MAX_AUTO_SWITCHES
            && self.breaker_remaining(now) == 0 {
            MachineView { consecutive_switches: 0, ..self }
        } else {
            self
        }
    }

    /// The machine after a switch was asked for at `asked` and, where the switch gate was open,
    /// begun at `began`.
    pub open spec fn after_start(self, asked: u64, began: u64) -> MachineView {
        if self.gate(asked) is Proceed {
            self.after_gate(asked).after_begin(began)
        } else {
            self.after_gate(asked)
        }
    }

    pub open spec fn after_begin(self, now: u64) -> MachineView {
        MachineView { is_switching: true, last_switch_time: Some(now), ..self }
    }

    /// A completed switch is counted, and trips the breaker once the count is reached.
    pub open spec fn after_record(self, now: u64) -> MachineView {
        MachineView {
            consecutive_switches: self.consecutive_switches + 1,
            breaker_tripped_at: if self.consecutive_switches + 1 >= MAX_AUTO_SWITCHES {
                Some(now)
            } else {
                self.breaker_tripped_at
            },
            ..self
        }
    }

    pub open spec fn after_end(self) -> MachineView {
        MachineView { is_switching: false, ..self }
    }

    /// The end of a switch that was made, or that came to nothing.
    pub open spec fn after_conclude(self, switched: bool, now: u64) -> MachineView {
        if switched {
            self.after_record(now).after_end()
        } else {
            self.after_end()
        }
    }
}

impl Default for AutoSwitchMachine {
    fn default() -> (r: Self)
        ensures
            r@ == MachineView::initial(),
    {
        AutoSwitchMachine::new()
    }
}

impl AutoSwitchMachine {
    #[verifier::type_invariant]
    spec fn invariant_holds(self) -> bool {
        self@.well_formed()
    }

    /// A disabled machine with nothing counted.
    #[must_use]
    pub fn new() -> (r: Self)
        ensures
            r@ == MachineView::initial(),
    {
        AutoSwitchMachine {
            enabled: false,
            consecutive_failures: 0,
            is_switching: false,
            last_switch_time: None,
            consecutive_switches: 0,
            breaker_tripped_at: None,
            restart_blocked_reported: false,
        }
    }

    /// Claims the one report that a generation may make of candidates lost to restarts: `true` the
    /// first time, `false` ever after. Neither enabling nor disabling gives it back: a toggled
    /// setting is no new generation.
    pub fn claim_restart_blocked_report(&mut self) -> (r: bool)
        ensures
            r == !old(self)@.restart_blocked_reported,
            final(self)@ == old(self)@.after_claim(),
    {
        proof {
            use_type_invariant(&*self);
        }
        if self.restart_blocked_reported {
            return false;
        }
        self.restart_blocked_reported = true;
        true
    }

    /// Enables the machine and clears its counts; no effect on an enabled one.
    pub fn enable(&mut self)
        ensures
            final(self)@ == old(self)@.after_enable(),
    {
        proof {
            use_type_invariant(&*self);
        }
        if self.enabled {
            return ;
        }
        self.enabled = true;
        self.consecutive_failures = 0;
        self.consecutive_switches = 0;
        self.breaker_tripped_at = None;
    }

    /// Disables the machine.
    pub fn disable(&mut self)
        ensures
            final(self)@ == old(self)@.after_disable(),
    {
        proof {
            use_type_invariant(&*self);
        }
        self.enabled = false;
    }

    #[must_use]
    pub fn is_enabled(&self) -> (r: bool)
        ensures
            r == self@.enabled,
    {
        self.enabled
    }

    #[must_use]
    pub fn is_switching(&self) -> (r: bool)
        ensures
            r == self@.is_switching,
    {
        self.is_switching
    }

    /// Clears the failure count alone; the breaker keeps its count.
    pub fn reset_failures_only(&mut self)
        ensures
            final(self)@ == old(self)@.after_reset_failures(),
    {
        proof {
            use_type_invariant(&*self);
        }
        self.consecutive_failures = 0;
    }

    /// Takes in the result of one heartbeat.
    pub fn on_heartbeat(&mut self, alive: bool) -> (r: HeartbeatOutcome)
        ensures
            r == old(self)@.heartbeat_outcome(alive),
            final(self)@ == old(self)@.after_heartbeat(alive),
            !alive ==> final(self)@.consecutive_switches == old(self)@.consecutive_switches,
            alive ==> final(self)@.consecutive_switches == 0,
            final(self)@.breaker_tripped_at == old(self)@.breaker_tripped_at,
            final(self)@.last_switch_time == old(self)@.last_switch_time,
    {
        proof {
            use_type_invariant(&*self);
        }
        if alive {
            let prior: u32 = self.consecutive_failures;
            self.consecutive_failures = 0;
            self.consecutive_switches = 0;
            if prior > 0 {
                HeartbeatOutcome::Recovered { prior }
            } else {
                HeartbeatOutcome::Stable
            }
        } else {
            let failures: u32 = self.consecutive_failures + 1;
            if failures >= MAX_CONSECUTIVE_FAILURES {
                self.consecutive_failures = 0;
                HeartbeatOutcome::Trigger
            } else {
                self.consecutive_failures = failures;
                HeartbeatOutcome::Failing { failures }
            }
        }
    }

    /// Asks whether a switch may be made at `now`. A breaker whose time is over is let go.
    pub fn evaluate_switch(&mut self, now: u64) -> (r: SwitchGate)
        ensures
            r == old(self)@.gate(now),
            final(self)@ == old(self)@.after_gate(now),
    {
        proof {
            use_type_invariant(&*self);
        }
        if self.is_switching {
            return SwitchGate::InFlight;
        }
        if self.consecutive_switches >= MAX_AUTO_SWITCHES {
            let since_trip: u64 = match self.breaker_tripped_at {
                Some(at) => now.saturating_sub(at),
                None => BREAKER_COOLDOWN_MS,
            };
            if since_trip < BREAKER_COOLDOWN_MS {
                return SwitchGate::Breaker { remaining_ms: BREAKER_COOLDOWN_MS - since_trip };
            }
            self.consecutive_switches = 0;
        }
        if let Some(last_switch_time) = self.last_switch_time {
            let since_last: u64 = now.saturating_sub(last_switch_time);
            if since_last < SWITCH_COOLDOWN_MS {
                return SwitchGate::Cooldown { remaining_ms: SWITCH_COOLDOWN_MS - since_last };
            }
        }
        SwitchGate::Proceed
    }

    /// Notes that a switch has begun. The cooldown runs from here, whatever comes of the switch.
    pub fn begin_switch(&mut self, now: u64)
        ensures
            final(self)@ == old(self)@.after_begin(now),
    {
        proof {
            use_type_invariant(&*self);
        }
        self.is_switching = true;
        self.last_switch_time = Some(now);
    }

    /// Begins a switch where one may be made: asks at `asked`, and begins at `began` only if the
    /// answer is to proceed. The breaker then has room to count the switch.
    pub fn start_switch(&mut self, asked: u64, began: u64) -> (r: SwitchGate)
        ensures
            r == old(self)@.gate(asked),
            final(self)@ == old(self)@.after_start(asked, began),
            r is Proceed ==> final(self)@.consecutive_switches < MAX_AUTO_SWITCHES,
    {
        proof {
            use_type_invariant(&*self);
        }
        let gate = self.evaluate_switch(asked);
        if let SwitchGate::Proceed = gate {
            self.begin_switch(began);
        }
        gate
    }

    /// Counts a switch that was really made.
    pub fn record_switch_success(&mut self, now: u64)
        requires
            old(self)@.consecutive_switches < u32::MAX,
        ensures
            final(self)@ == old(self)@.after_record(now),
    {
        proof {
            use_type_invariant(&*self);
        }
        let switches: u32 = self.consecutive_switches + 1;
        if switches >= MAX_AUTO_SWITCHES {
            self.breaker_tripped_at = Some(now);
        }
        self.consecutive_switches = switches;
    }

    /// Notes that the switch is over, whatever came of it.
    pub fn end_switch(&mut self)
        ensures
            final(self)@ == old(self)@.after_end(),
    {
        proof {
            use_type_invariant(&*self);
        }
        self.is_switching = false;
    }

    /// Ends a switch: counts it if it was made at `now`, and leaves the in-flight state either way.
    pub fn conclude_switch(&mut self, switched: bool, now: u64)
        requires
            switched ==> old(self)@.consecutive_switches < u32::MAX,
        ensures
            final(self)@ == old(self)@.after_conclude(switched, now),
    {
        if switched {
            self.record_switch_success(now);
        }
        self.end_switch();
    }
}

} // verus!
