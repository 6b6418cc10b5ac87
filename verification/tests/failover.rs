use auto_switch::failover::{RoundEnd, RoundPhase, SwitchRound};
use auto_switch::machine::AutoSwitchMachine;
use auto_switch::mesh::UserConfig;
use auto_switch::node_map::{NodeMap, NodeSet};
use auto_switch::report::ReportCode;
use auto_switch::round::{ProbeTargets, RoundObstacle, RuntimeProbeBatch};
use auto_switch::sweep::{ClassifiedSwitch, SelectorPut};
use auto_switch::transaction::{AutoHotSwitchOutcome, StagedNodeMask, TransactionPhase};
use serde_json::Value;

fn json(text: &str) -> Value {
    serde_json::from_str(text).unwrap()
}

fn map(entries: &[(&str, &str)]) -> NodeMap<String> {
    let mut map = NodeMap::new();
    for (id, value) in entries {
        map.insert(id.to_string(), value.to_string());
    }
    map
}

fn no_draft() -> StagedNodeMask {
    StagedNodeMask {
        pending: false,
        scope_known: true,
        node_ids: NodeSet::new(),
    }
}

fn saved() -> Value {
    json(
        r#"{ "selectedServerId": "a", "servers": [
            { "id": "a", "name": "A" }, { "id": "b", "name": "B" }, { "id": "c", "name": "C" }
        ] }"#,
    )
}

fn runtime_config() -> UserConfig {
    UserConfig {
        selected_server_id: Some("a".to_string()),
        ..UserConfig::default()
    }
}

fn batch(entries: &[(&str, Option<u32>)]) -> RuntimeProbeBatch {
    let mut map = NodeMap::new();
    for (id, latency) in entries {
        map.insert(id.to_string(), *latency);
    }
    RuntimeProbeBatch::Completed(map)
}

/// A hot switch to the node `id`.
fn hot(id: &str) -> Option<ClassifiedSwitch> {
    Some(ClassifiedSwitch::HotSwitch {
        puts: vec![SelectorPut {
            selector_tag: "proxy-selector".to_string(),
            member_tag: format!("{id}-tag"),
        }],
        new_cfg: UserConfig::default(),
    })
}

const RESTART: Option<ClassifiedSwitch> = Some(ClassifiedSwitch::Restart);
const REPORT: Option<ReportCode> = Some(ReportCode::AutoSwitchNeedsRestart);

fn new_round() -> SwitchRound {
    SwitchRound::new(
        6,
        "connectivity".to_string(),
        map(&[("a", "fa"), ("b", "fb"), ("c", "fc")]),
    )
}

fn sweeping() -> SwitchRound {
    let mut round = new_round();
    let targets = ProbeTargets {
        id_to_tag: map(&[("a", "a-tag"), ("b", "b-tag"), ("c", "c-tag")]),
        fingerprints: map(&[("a", "fa"), ("b", "fb"), ("c", "fc")]),
    };
    round.open(
        Some(&saved()),
        Some(&saved()),
        &no_draft(),
        Some(&targets),
        &NodeSet::new(),
    );
    assert_eq!(round.phase(), RoundPhase::Sweeping);
    round
}

fn probing(
    machine: &mut AutoSwitchMachine,
    classified: Vec<Option<ClassifiedSwitch>>,
) -> SwitchRound {
    let mut round = sweeping();
    round.sweep(machine, Some(&runtime_config()), true, &classified, true);
    assert_eq!(round.phase(), RoundPhase::Probing);
    round
}

fn switching() -> SwitchRound {
    let mut machine = AutoSwitchMachine::new();
    let mut round = probing(&mut machine, vec![hot("b"), hot("c")]);
    round.pick(&mut machine, &batch(&[("b", Some(70)), ("c", Some(20))]), true);
    assert_eq!(round.phase(), RoundPhase::Switching);
    round
}

#[test]
fn a_round_leads_to_the_transaction_of_its_target() {
    let mut round = switching();
    let target = round.target().unwrap();
    assert_eq!(target.candidate.id, "c");
    assert_eq!(target.fingerprint, "fc");
    assert_eq!(target.payload.reason, "connectivity");
    assert_eq!(target.payload.new_server_name, "C");
    assert_eq!(target.payload.latency, 20);

    let transaction = round.transaction().unwrap();
    assert_eq!(transaction.phase(), TransactionPhase::Admitting);
    assert_eq!(transaction.generation(), 6);
    assert_eq!(transaction.candidate().tag, "c-tag");

    round.conclude(AutoHotSwitchOutcome::Applied);
    assert_eq!(round.phase(), RoundPhase::Done(RoundEnd::Switched));
    assert!(RoundEnd::Switched.switched());
    assert!(round.transaction().is_none());
}

#[test]
fn a_transaction_that_is_not_applied_is_no_switch() {
    for (outcome, end) in [
        (AutoHotSwitchOutcome::Busy, RoundEnd::Missed),
        (AutoHotSwitchOutcome::Superseded, RoundEnd::Missed),
        (AutoHotSwitchOutcome::NotEligible, RoundEnd::Missed),
        (AutoHotSwitchOutcome::Failed, RoundEnd::Missed),
        (
            AutoHotSwitchOutcome::ReconcilePending {
                intent_generation: 3,
            },
            RoundEnd::Reconcile {
                intent_generation: 3,
            },
        ),
    ] {
        let mut round = switching();
        round.conclude(outcome);
        assert_eq!(round.phase(), RoundPhase::Done(end));
        assert!(!end.switched());
        assert_eq!(end.report(), None);
    }
}

#[test]
fn an_obstacle_ends_the_round() {
    let mut round = new_round();
    round.open(None, Some(&saved()), &no_draft(), None, &NodeSet::new());
    assert_eq!(
        round.phase(),
        RoundPhase::Done(RoundEnd::Obstructed(RoundObstacle::ConfigUnreadable))
    );
    assert!(round.plan().candidates.is_empty());
    assert!(round.target().is_none());
}

#[test]
fn a_sweep_that_does_not_stand_ends_the_round_in_silence() {
    let mut machine = AutoSwitchMachine::new();
    let mut round = sweeping();
    round.sweep(&mut machine, Some(&runtime_config()), false, &vec![RESTART, RESTART], true);
    assert_eq!(round.phase(), RoundPhase::Done(RoundEnd::Void));
    assert_eq!(round.plan().candidates.len(), 2);
    assert!(machine.claim_restart_blocked_report());
}

#[test]
fn candidates_lost_to_restarts_are_reported_once() {
    let mut machine = AutoSwitchMachine::new();
    for report in [REPORT, None] {
        let mut round = sweeping();
        round.sweep(&mut machine, Some(&runtime_config()), true, &vec![RESTART, RESTART], true);
        let end = RoundEnd::NoCandidates { report };
        assert_eq!(round.phase(), RoundPhase::Done(end));
        assert_eq!(end.report(), report);
        assert_eq!(round.plan().needs_restart, 2);
    }
    // The probes claim the same report.
    let mut round = probing(&mut machine, vec![hot("b"), RESTART]);
    round.pick(&mut machine, &batch(&[]), true);
    assert_eq!(
        round.phase(),
        RoundPhase::Done(RoundEnd::Unreachable { report: None })
    );
}

#[test]
fn probes_that_all_fail_are_reported_where_restarts_had_a_part() {
    let mut machine = AutoSwitchMachine::new();
    let mut round = probing(&mut machine, vec![hot("b"), hot("c")]);
    round.pick(&mut machine, &batch(&[("b", None)]), true);
    assert_eq!(
        round.phase(),
        RoundPhase::Done(RoundEnd::Unreachable { report: None })
    );

    let mut round = probing(&mut machine, vec![RESTART, hot("c")]);
    round.pick(&mut machine, &batch(&[("b", Some(1)), ("c", None)]), true);
    let end = RoundEnd::Unreachable { report: REPORT };
    assert_eq!(round.phase(), RoundPhase::Done(end));
    assert_eq!(end.report(), REPORT);
}

#[test]
fn probes_that_are_overtaken_end_the_round() {
    let good = || batch(&[("b", Some(5))]);
    for (batch, still_current, end) in [
        (RuntimeProbeBatch::Busy, true, RoundEnd::Busy),
        (RuntimeProbeBatch::Interrupted, true, RoundEnd::Interrupted),
        (good(), false, RoundEnd::Overtaken),
    ] {
        let mut machine = AutoSwitchMachine::new();
        let mut round = probing(&mut machine, vec![hot("b"), RESTART]);
        round.pick(&mut machine, &batch, still_current);
        assert_eq!(round.phase(), RoundPhase::Done(end));
        assert!(machine.claim_restart_blocked_report());
    }
}

#[test]
fn answers_out_of_turn_are_not_heard() {
    let mut machine = AutoSwitchMachine::new();
    let mut round = new_round();
    round.sweep(&mut machine, Some(&runtime_config()), true, &vec![], true);
    round.pick(&mut machine, &batch(&[]), true);
    round.conclude(AutoHotSwitchOutcome::Applied);
    assert_eq!(round.phase(), RoundPhase::Opening);
    assert!(round.transaction().is_none());

    let mut round = sweeping();
    round.open(None, None, &no_draft(), None, &NodeSet::new());
    assert_eq!(round.phase(), RoundPhase::Sweeping);
    assert_eq!(round.plan().candidates.len(), 2);
}
