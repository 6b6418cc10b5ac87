use auto_switch::machine::{
    AutoSwitchMachine, HeartbeatOutcome, SwitchGate, BREAKER_COOLDOWN_MS, CONNECTIVITY_TIMEOUT_MS,
    CONNECTIVITY_URLS, HEARTBEAT_INTERVAL_MS, MAX_AUTO_SWITCHES, MAX_CONSECUTIVE_FAILURES,
    SWITCH_COOLDOWN_MS,
};

// Heartbeats: neither too eager nor too slow to trigger.

#[test]
fn heartbeat_alive_when_no_prior_failures_is_stable() {
    let mut m = AutoSwitchMachine::new();
    m.enable();
    assert_eq!(m.on_heartbeat(true), HeartbeatOutcome::Stable);
}

#[test]
fn heartbeat_two_failures_do_not_trigger() {
    let mut m = AutoSwitchMachine::new();
    m.enable();
    assert_eq!(m.on_heartbeat(false), HeartbeatOutcome::Failing { failures: 1 });
    assert_eq!(m.on_heartbeat(false), HeartbeatOutcome::Failing { failures: 2 });
}

#[test]
fn heartbeat_third_consecutive_failure_triggers() {
    let mut m = AutoSwitchMachine::new();
    m.enable();
    m.on_heartbeat(false);
    m.on_heartbeat(false);
    assert_eq!(m.on_heartbeat(false), HeartbeatOutcome::Trigger);
}

#[test]
fn heartbeat_trigger_resets_failure_count() {
    let mut m = AutoSwitchMachine::new();
    m.enable();
    m.on_heartbeat(false);
    m.on_heartbeat(false);
    assert_eq!(m.on_heartbeat(false), HeartbeatOutcome::Trigger);
    assert_eq!(m.on_heartbeat(false), HeartbeatOutcome::Failing { failures: 1 });
}

#[test]
fn heartbeat_alive_resets_failure_streak() {
    let mut m = AutoSwitchMachine::new();
    m.enable();
    m.on_heartbeat(false);
    m.on_heartbeat(false);
    assert_eq!(m.on_heartbeat(true), HeartbeatOutcome::Recovered { prior: 2 });
    assert_eq!(m.on_heartbeat(false), HeartbeatOutcome::Failing { failures: 1 });
}

// The switch gate: cooldown, breaker, in flight.

#[test]
fn gate_in_flight_blocks() {
    let mut m = AutoSwitchMachine::new();
    m.enable();
    m.begin_switch(1_000_000);
    assert_eq!(m.evaluate_switch(2_000_000), SwitchGate::InFlight);
}

#[test]
fn gate_proceeds_when_clear() {
    let mut m = AutoSwitchMachine::new();
    m.enable();
    assert_eq!(m.evaluate_switch(10_000_000), SwitchGate::Proceed);
}

#[test]
fn first_gate_proceeds_even_when_monotonic_clock_starts_at_zero() {
    let mut m = AutoSwitchMachine::new();
    m.enable();
    assert_eq!(m.evaluate_switch(0), SwitchGate::Proceed);
}

#[test]
fn gate_cooldown_blocks_within_window() {
    let mut m = AutoSwitchMachine::new();
    m.enable();
    m.begin_switch(1_000_000);
    m.end_switch();
    match m.evaluate_switch(1_000_000 + 30_000) {
        SwitchGate::Cooldown { remaining_ms } => assert_eq!(remaining_ms, 30_000),
        other => panic!("expected Cooldown, got {other:?}"),
    }
}

#[test]
fn gate_proceeds_after_cooldown_window() {
    let mut m = AutoSwitchMachine::new();
    m.enable();
    m.begin_switch(1_000_000);
    m.end_switch();
    assert_eq!(m.evaluate_switch(1_000_000 + 60_001), SwitchGate::Proceed);
}

#[test]
fn gate_breaker_trips_after_max_switches() {
    let mut m = AutoSwitchMachine::new();
    m.enable();
    m.record_switch_success(1_000_000);
    m.record_switch_success(1_000_000);
    m.record_switch_success(1_000_000);
    match m.evaluate_switch(1_000_000 + 5 * 60_000) {
        SwitchGate::Breaker { remaining_ms } => assert_eq!(remaining_ms, 5 * 60_000),
        other => panic!("expected Breaker, got {other:?}"),
    }
}

#[test]
fn gate_breaker_resets_and_proceeds_after_cooldown() {
    let mut m = AutoSwitchMachine::new();
    m.enable();
    m.record_switch_success(1_000_000);
    m.record_switch_success(1_000_000);
    m.record_switch_success(1_000_000);
    let now = 1_000_000 + BREAKER_COOLDOWN_MS + 1;
    assert_eq!(m.evaluate_switch(now), SwitchGate::Proceed);
}

#[test]
fn recovered_heartbeat_clears_breaker_count() {
    let mut m = AutoSwitchMachine::new();
    m.enable();
    m.record_switch_success(1_000_000);
    m.record_switch_success(1_000_000);
    m.record_switch_success(1_000_000);
    m.on_heartbeat(true);
    assert_eq!(m.evaluate_switch(20_000_000), SwitchGate::Proceed);
}

#[test]
fn record_success_only_trips_breaker_at_threshold() {
    let mut m = AutoSwitchMachine::new();
    m.enable();
    m.record_switch_success(500);
    m.record_switch_success(600);
    assert_eq!(m.evaluate_switch(10_000_000), SwitchGate::Proceed);
}

// Turning the setting on and off.

#[test]
fn enable_resets_counters() {
    let mut m = AutoSwitchMachine::new();
    m.enable();
    m.on_heartbeat(false);
    m.record_switch_success(1_000_000);
    m.disable();
    m.enable();
    assert_eq!(m.on_heartbeat(false), HeartbeatOutcome::Failing { failures: 1 });
}

#[test]
fn enable_is_idempotent_no_reset_on_second_call() {
    let mut m = AutoSwitchMachine::new();
    m.enable();
    m.on_heartbeat(false);
    m.on_heartbeat(false);
    m.enable();
    assert_eq!(m.on_heartbeat(false), HeartbeatOutcome::Trigger);
}

#[test]
fn reset_failures_only_keeps_breaker_count() {
    let mut m = AutoSwitchMachine::new();
    m.enable();
    m.record_switch_success(1_000_000);
    m.record_switch_success(1_000_000);
    m.record_switch_success(1_000_000);
    m.on_heartbeat(false);
    m.reset_failures_only();
    assert_eq!(m.on_heartbeat(false), HeartbeatOutcome::Failing { failures: 1 });
    assert!(matches!(
        m.evaluate_switch(1_000_000 + 60_001),
        SwitchGate::Breaker { .. }
    ));
}

// The one report of a generation.

#[test]
fn restart_blocked_report_claims_once_per_generation() {
    let mut m = AutoSwitchMachine::new();
    m.enable();
    assert!(m.claim_restart_blocked_report(), "the first of a generation is granted");
    assert!(!m.claim_restart_blocked_report(), "the second is not");
    assert!(!m.claim_restart_blocked_report(), "nor the third");

    let mut next_generation = AutoSwitchMachine::new();
    next_generation.enable();
    assert!(
        next_generation.claim_restart_blocked_report(),
        "a new generation may report again"
    );
}

#[test]
fn restart_blocked_report_latch_is_not_reset_by_disable_enable() {
    let mut m = AutoSwitchMachine::new();
    m.enable();
    assert!(m.claim_restart_blocked_report());
    m.disable();
    m.enable();
    assert!(
        !m.claim_restart_blocked_report(),
        "a toggled setting is no new generation"
    );
}

// Further cases.

#[test]
fn a_new_machine_is_disabled_and_idle() {
    for m in [AutoSwitchMachine::new(), AutoSwitchMachine::default()] {
        assert!(!m.is_enabled());
        assert!(!m.is_switching());
    }
}

#[test]
fn flags_follow_their_operations() {
    let mut m = AutoSwitchMachine::new();
    m.enable();
    assert!(m.is_enabled());
    m.begin_switch(5);
    assert!(m.is_switching());
    m.end_switch();
    assert!(!m.is_switching());
    m.disable();
    assert!(!m.is_enabled());
}

#[test]
fn the_limits_are_as_documented() {
    assert_eq!(HEARTBEAT_INTERVAL_MS, 30_000);
    assert_eq!(MAX_CONSECUTIVE_FAILURES, 3);
    assert_eq!(SWITCH_COOLDOWN_MS, 60_000);
    assert_eq!(CONNECTIVITY_TIMEOUT_MS, 5_000);
    assert_eq!(MAX_AUTO_SWITCHES, 3);
    assert_eq!(BREAKER_COOLDOWN_MS, 10 * 60_000);
    assert_eq!(
        CONNECTIVITY_URLS,
        [
            "http://cp.cloudflare.com/generate_204",
            "http://www.gstatic.com/generate_204"
        ]
    );
}

#[test]
fn every_third_of_nine_failures_triggers() {
    let mut m = AutoSwitchMachine::new();
    m.enable();
    let triggers: Vec<bool> = (0..9)
        .map(|_| m.on_heartbeat(false) == HeartbeatOutcome::Trigger)
        .collect();
    assert_eq!(
        triggers,
        vec![false, false, true, false, false, true, false, false, true]
    );
}

#[test]
fn cooldown_ends_on_the_millisecond() {
    let mut m = AutoSwitchMachine::new();
    m.begin_switch(1_000);
    m.end_switch();
    assert_eq!(
        m.evaluate_switch(60_999),
        SwitchGate::Cooldown { remaining_ms: 1 }
    );
    assert_eq!(m.evaluate_switch(61_000), SwitchGate::Proceed);
}

#[test]
fn breaker_ends_on_the_millisecond_and_lets_go() {
    let mut m = AutoSwitchMachine::new();
    for at in [10, 20, 30] {
        m.record_switch_success(at);
    }
    assert_eq!(
        m.evaluate_switch(30 + BREAKER_COOLDOWN_MS - 1),
        SwitchGate::Breaker { remaining_ms: 1 }
    );
    assert_eq!(m.evaluate_switch(30 + BREAKER_COOLDOWN_MS), SwitchGate::Proceed);
    // The count starts over: two more switches do not trip it again.
    m.record_switch_success(31 + BREAKER_COOLDOWN_MS);
    m.record_switch_success(32 + BREAKER_COOLDOWN_MS);
    assert_eq!(m.evaluate_switch(33 + BREAKER_COOLDOWN_MS), SwitchGate::Proceed);
}

#[test]
fn breaker_comes_before_cooldown() {
    let mut m = AutoSwitchMachine::new();
    for at in [100, 200, 300] {
        m.begin_switch(at);
        m.conclude_switch(true, at);
    }
    assert_eq!(
        m.evaluate_switch(300),
        SwitchGate::Breaker {
            remaining_ms: BREAKER_COOLDOWN_MS
        }
    );
}

#[test]
fn a_clock_that_runs_back_counts_as_no_time() {
    let mut m = AutoSwitchMachine::new();
    m.begin_switch(1_000_000);
    m.end_switch();
    assert_eq!(
        m.evaluate_switch(5),
        SwitchGate::Cooldown {
            remaining_ms: SWITCH_COOLDOWN_MS
        }
    );
}

#[test]
fn a_switch_that_came_to_nothing_cools_down_but_is_not_counted() {
    let mut m = AutoSwitchMachine::new();
    for round in 0..5u64 {
        let now = round * 100_000;
        assert_eq!(m.evaluate_switch(now), SwitchGate::Proceed);
        m.begin_switch(now);
        m.conclude_switch(false, now);
        assert!(!m.is_switching());
        assert_eq!(
            m.evaluate_switch(now + 1),
            SwitchGate::Cooldown {
                remaining_ms: 59_999
            }
        );
    }
}

#[test]
fn the_third_switch_in_a_row_trips_the_breaker() {
    let mut m = AutoSwitchMachine::new();
    for round in 0..3u64 {
        let now = round * 100_000;
        assert_eq!(m.evaluate_switch(now), SwitchGate::Proceed);
        m.begin_switch(now);
        m.conclude_switch(true, now + 7);
    }
    assert_eq!(
        m.evaluate_switch(300_000),
        SwitchGate::Breaker {
            remaining_ms: BREAKER_COOLDOWN_MS - 99_993
        }
    );
}

#[test]
fn asking_again_gives_the_same_answer() {
    let mut m = AutoSwitchMachine::new();
    for at in [1, 2, 3] {
        m.record_switch_success(at);
    }
    for now in [4, 1_000, 3 + BREAKER_COOLDOWN_MS, 4 + BREAKER_COOLDOWN_MS] {
        let first = m.evaluate_switch(now);
        assert_eq!(m.evaluate_switch(now), first);
    }
}

#[test]
fn toggling_keeps_the_cooldown() {
    let mut m = AutoSwitchMachine::new();
    m.enable();
    m.begin_switch(1_000);
    m.end_switch();
    m.disable();
    m.enable();
    assert_eq!(
        m.evaluate_switch(2_000),
        SwitchGate::Cooldown {
            remaining_ms: 59_000
        }
    );
}

#[test]
fn a_switch_is_started_at_an_open_gate_only() {
    let mut m = AutoSwitchMachine::new();
    assert_eq!(m.start_switch(1_000, 1_001), SwitchGate::Proceed);
    assert!(m.is_switching());
    assert_eq!(m.start_switch(90_000, 90_000), SwitchGate::InFlight);
    m.conclude_switch(false, 2_000);
    assert_eq!(
        m.start_switch(2_000, 2_000),
        SwitchGate::Cooldown {
            remaining_ms: 59_001
        },
        "the cooldown runs from the beginning of the switch"
    );
    assert!(!m.is_switching());
    assert_eq!(m.start_switch(61_001, 61_001), SwitchGate::Proceed);
}

#[test]
fn a_started_switch_can_always_be_counted() {
    let mut m = AutoSwitchMachine::new();
    let mut now = 0;
    let mut made = 0;
    for _ in 0..200 {
        if m.start_switch(now, now) == SwitchGate::Proceed {
            m.conclude_switch(true, now);
            made += 1;
        }
        now += SWITCH_COOLDOWN_MS;
    }
    // Three switches a minute apart, and then the breaker, every twelve minutes.
    assert_eq!(made, 51);
}
