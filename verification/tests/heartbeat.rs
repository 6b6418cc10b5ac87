use auto_switch::heartbeat::{BeatReadings, Heartbeat, HeartbeatPhase};
use auto_switch::machine::{AutoSwitchMachine, HeartbeatOutcome};
use auto_switch::tick::{enter_tick, take_probe, SkipReason, TickAction, TickFacts};

const READY: BeatReadings = BeatReadings {
    want_enabled: true,
    core_running: true,
    selected_server_is_real: true,
};

const PROBING: HeartbeatPhase = HeartbeatPhase::Probing {
    probe_proxy_port: 7891,
};

#[test]
fn three_failed_beats_lead_to_a_switch() {
    let mut machine = AutoSwitchMachine::new();
    let mut h = Heartbeat::new(5, Some(7891), false);
    for failures in [1, 2] {
        assert_eq!(h.phase(), HeartbeatPhase::Waiting);
        assert_eq!(
            h.wake(&mut machine, 5, READY),
            Some(TickAction::Probe {
                probe_proxy_port: 7891
            })
        );
        assert_eq!(h.phase(), PROBING);
        assert_eq!(
            h.probed(&mut machine, 5, false),
            Some(HeartbeatOutcome::Failing { failures })
        );
    }
    h.wake(&mut machine, 5, READY);
    assert_eq!(h.probed(&mut machine, 5, false), Some(HeartbeatOutcome::Trigger));
    assert_eq!(h.phase(), HeartbeatPhase::Switching);
    h.switch_over();
    assert_eq!(h.phase(), HeartbeatPhase::Waiting);
}

#[test]
fn a_replaced_core_ends_the_heartbeat_at_the_beat() {
    let mut machine = AutoSwitchMachine::new();
    let mut h = Heartbeat::new(5, Some(7891), false);
    assert_eq!(h.wake(&mut machine, 6, READY), None);
    assert_eq!(h.phase(), HeartbeatPhase::Ended);
    assert!(!machine.is_enabled(), "the machine was not fed");
    assert_eq!(h.wake(&mut machine, 5, READY), None);
    assert_eq!(h.phase(), HeartbeatPhase::Ended, "for good");
}

#[test]
fn a_replaced_core_ends_the_heartbeat_after_the_probe() {
    let mut machine = AutoSwitchMachine::new();
    let mut h = Heartbeat::new(5, Some(7891), false);
    for _ in 0..2 {
        h.wake(&mut machine, 5, READY);
        h.probed(&mut machine, 5, false);
    }
    h.wake(&mut machine, 5, READY);
    assert_eq!(h.probed(&mut machine, 6, false), None);
    assert_eq!(h.phase(), HeartbeatPhase::Ended);
    assert_eq!(
        machine.on_heartbeat(false),
        HeartbeatOutcome::Trigger,
        "the failure of the other core was not counted"
    );
}

#[test]
fn a_heartbeat_that_stands_still_never_probes() {
    for mut h in [
        Heartbeat::new(5, Some(7891), true),
        Heartbeat::new(5, None, false),
        Heartbeat::new(5, None, true),
    ] {
        let mut machine = AutoSwitchMachine::new();
        for _ in 0..10 {
            assert!(matches!(
                h.wake(&mut machine, 5, READY),
                Some(TickAction::SkipAfterResettingFailures(_))
            ));
            assert_eq!(h.probed(&mut machine, 5, false), None);
            assert_eq!(h.phase(), HeartbeatPhase::Waiting);
        }
    }
}

#[test]
fn a_skipped_beat_waits_for_the_next() {
    let mut machine = AutoSwitchMachine::new();
    let mut h = Heartbeat::new(5, Some(7891), false);
    let off = BeatReadings {
        want_enabled: false,
        ..READY
    };
    assert_eq!(
        h.wake(&mut machine, 5, off),
        Some(TickAction::Skip(SkipReason::Disabled))
    );
    assert_eq!(h.phase(), HeartbeatPhase::Waiting);
}

#[test]
fn what_is_told_out_of_turn_is_not_heard() {
    let mut machine = AutoSwitchMachine::new();
    let mut h = Heartbeat::new(5, Some(7891), false);
    assert_eq!(h.probed(&mut machine, 6, false), None);
    h.switch_over();
    assert_eq!(h.phase(), HeartbeatPhase::Waiting);
    h.wake(&mut machine, 5, READY);
    assert_eq!(h.wake(&mut machine, 6, READY), None);
    assert_eq!(h.phase(), PROBING);
}

#[test]
fn ticks_and_probes_of_another_core_leave_the_machine_alone() {
    let facts = TickFacts {
        want_enabled: true,
        core_running: true,
        selected_server_is_real: true,
        generation_blocked: false,
        probe_proxy_port: Some(9),
    };
    let mut machine = AutoSwitchMachine::new();
    assert_eq!(enter_tick(&mut machine, 1, 2, facts), None);
    assert!(!machine.is_enabled());
    assert_eq!(
        enter_tick(&mut machine, 1, 1, facts),
        Some(TickAction::Probe {
            probe_proxy_port: 9
        })
    );
    assert!(machine.is_enabled());

    assert_eq!(take_probe(&mut machine, 1, 2, false), None);
    assert_eq!(
        take_probe(&mut machine, 1, 1, false),
        Some(HeartbeatOutcome::Failing { failures: 1 })
    );
}
