use auto_switch::machine::{AutoSwitchMachine, HeartbeatOutcome, SwitchGate};
use auto_switch::tick::{begin_tick, decide_tick, SkipReason, TickAction, TickFacts, TickInput};

/// A tick that probes; each case turns one thing.
fn clear_tick() -> TickInput {
    TickInput {
        enabled: true,
        switching: false,
        core_running: true,
        selected_server_is_real: true,
        generation_blocked: false,
        probe_proxy_port: Some(7891),
    }
}

#[test]
fn decide_tick_probes_when_everything_is_clear() {
    assert_eq!(
        decide_tick(clear_tick()),
        TickAction::Probe {
            probe_proxy_port: 7891
        }
    );
}

#[test]
fn decide_tick_truth_table_per_leg() {
    let cases: &[(&str, TickInput, TickAction)] = &[
        (
            "turned off: skip, keep the count",
            TickInput {
                enabled: false,
                ..clear_tick()
            },
            TickAction::Skip(SkipReason::Disabled),
        ),
        (
            "switch under way: skip, keep the count",
            TickInput {
                switching: true,
                ..clear_tick()
            },
            TickAction::Skip(SkipReason::Switching),
        ),
        (
            "core stopped: skip, clear the count",
            TickInput {
                core_running: false,
                ..clear_tick()
            },
            TickAction::SkipAfterResettingFailures(SkipReason::CoreNotRunning),
        ),
        (
            "no real node selected: skip, keep the count",
            TickInput {
                selected_server_is_real: false,
                ..clear_tick()
            },
            TickAction::Skip(SkipReason::SelectionNotReal),
        ),
        (
            "generation blocked: skip, clear the count",
            TickInput {
                generation_blocked: true,
                ..clear_tick()
            },
            TickAction::SkipAfterResettingFailures(SkipReason::GenerationBlocked),
        ),
        (
            "no probe port: skip, clear the count",
            TickInput {
                probe_proxy_port: None,
                ..clear_tick()
            },
            TickAction::SkipAfterResettingFailures(SkipReason::NoProbePort),
        ),
    ];
    for (label, input, expected) in cases {
        assert_eq!(decide_tick(*input), *expected, "{label}");
    }
}

#[test]
fn decide_tick_generation_block_sits_between_selection_and_port() {
    assert_eq!(
        decide_tick(TickInput {
            selected_server_is_real: false,
            generation_blocked: true,
            ..clear_tick()
        }),
        TickAction::Skip(SkipReason::SelectionNotReal)
    );
    assert_eq!(
        decide_tick(TickInput {
            generation_blocked: true,
            probe_proxy_port: None,
            ..clear_tick()
        }),
        TickAction::SkipAfterResettingFailures(SkipReason::GenerationBlocked)
    );
}

#[test]
fn decide_tick_guard_precedence_is_unchanged() {
    let all_bad = TickInput {
        enabled: false,
        switching: true,
        core_running: false,
        selected_server_is_real: false,
        generation_blocked: true,
        probe_proxy_port: None,
    };
    assert_eq!(
        decide_tick(all_bad),
        TickAction::Skip(SkipReason::Disabled),
        "the setting comes before everything"
    );
    assert_eq!(
        decide_tick(TickInput {
            enabled: true,
            ..all_bad
        }),
        TickAction::Skip(SkipReason::Switching),
        "a switch under way comes before the core"
    );
    assert_eq!(
        decide_tick(TickInput {
            enabled: true,
            switching: false,
            ..all_bad
        }),
        TickAction::SkipAfterResettingFailures(SkipReason::CoreNotRunning),
        "the core comes before the selection"
    );
}

fn clear_facts() -> TickFacts {
    TickFacts {
        want_enabled: true,
        core_running: true,
        selected_server_is_real: true,
        generation_blocked: false,
        probe_proxy_port: Some(9),
    }
}

#[test]
fn a_tick_takes_over_the_setting() {
    let mut m = AutoSwitchMachine::new();
    assert_eq!(
        begin_tick(&mut m, clear_facts()),
        TickAction::Probe {
            probe_proxy_port: 9
        }
    );
    assert!(m.is_enabled());
    assert_eq!(
        begin_tick(
            &mut m,
            TickFacts {
                want_enabled: false,
                ..clear_facts()
            }
        ),
        TickAction::Skip(SkipReason::Disabled)
    );
    assert!(!m.is_enabled());
}

#[test]
fn a_tick_of_an_enabled_machine_keeps_the_streak() {
    let mut m = AutoSwitchMachine::new();
    m.enable();
    m.on_heartbeat(false);
    m.on_heartbeat(false);
    begin_tick(&mut m, clear_facts());
    begin_tick(
        &mut m,
        TickFacts {
            selected_server_is_real: false,
            ..clear_facts()
        },
    );
    assert_eq!(m.on_heartbeat(false), HeartbeatOutcome::Trigger);
}

#[test]
fn a_standstill_ends_the_streak_and_keeps_the_breaker() {
    for facts in [
        TickFacts {
            core_running: false,
            ..clear_facts()
        },
        TickFacts {
            generation_blocked: true,
            ..clear_facts()
        },
        TickFacts {
            probe_proxy_port: None,
            ..clear_facts()
        },
    ] {
        let mut m = AutoSwitchMachine::new();
        m.enable();
        for at in [1, 2, 3] {
            m.record_switch_success(at);
        }
        m.on_heartbeat(false);
        m.on_heartbeat(false);
        assert!(matches!(
            begin_tick(&mut m, facts),
            TickAction::SkipAfterResettingFailures(_)
        ));
        assert_eq!(m.on_heartbeat(false), HeartbeatOutcome::Failing { failures: 1 });
        assert!(matches!(m.evaluate_switch(4), SwitchGate::Breaker { .. }));
    }
}

#[test]
fn a_switch_under_way_skips_the_tick() {
    let mut m = AutoSwitchMachine::new();
    m.enable();
    m.begin_switch(1);
    assert_eq!(
        begin_tick(&mut m, clear_facts()),
        TickAction::Skip(SkipReason::Switching)
    );
    assert!(m.is_switching());
}
