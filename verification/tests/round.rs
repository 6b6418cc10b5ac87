use auto_switch::candidates::{RuntimeCandidate, RuntimeCandidatePlan};
use auto_switch::machine::AutoSwitchMachine;
use auto_switch::node_map::{NodeMap, NodeSet};
use auto_switch::report::{
    report_message, ReportCode, EXIT_MISMATCH_MESSAGE, RESTART_BLOCKED_MESSAGE,
};
use auto_switch::round::{
    choose_target, conclude_round, measure, open_round, probe_inputs, settle_candidates,
    ProbeTargets, RoundConclusion, RoundObstacle, RuntimeProbeBatch, SettledCandidates,
    TargetChoice,
};
use auto_switch::selection::AutoNodeSwitchedPayload;
use auto_switch::transaction::{AutoHotSwitchOutcome, StagedNodeMask};
use serde_json::Value;

fn json(text: &str) -> Value {
    serde_json::from_str(text).unwrap()
}

fn map(entries: &[(&str, &str)]) -> NodeMap<String> {
    let mut map = NodeMap::new();
    for (id, value) in entries {
        map.insert(id.to_string(), value.to_string());
    }
    map
}

fn set(ids: &[&str]) -> NodeSet {
    let mut set = NodeSet::new();
    for id in ids {
        set.insert(id.to_string());
    }
    set
}

fn no_draft() -> StagedNodeMask {
    StagedNodeMask {
        pending: false,
        scope_known: false,
        node_ids: set(&[]),
    }
}

fn plan(candidates: &[&str], needs_restart: usize) -> RuntimeCandidatePlan {
    RuntimeCandidatePlan {
        candidates: candidates
            .iter()
            .map(|id| RuntimeCandidate {
                id: id.to_string(),
                name: format!("name-{id}"),
                tag: format!("{id}-tag"),
            })
            .collect(),
        needs_restart,
        ..RuntimeCandidatePlan::default()
    }
}

fn latencies(entries: &[(&str, Option<u32>)]) -> RuntimeProbeBatch {
    let mut map = NodeMap::new();
    for (id, latency) in entries {
        map.insert(id.to_string(), *latency);
    }
    RuntimeProbeBatch::Completed(map)
}

const REPORT: Option<ReportCode> = Some(ReportCode::AutoSwitchNeedsRestart);

/// A round whose candidates were all lost reports it, and only where restarts were the cause: a
/// round that is empty for another reason must not use up the one report of the generation.
#[test]
fn auto_switch_needs_restart_report_is_wired_into_do_switch_io() {
    let mut machine = AutoSwitchMachine::new();
    let other_reasons = RuntimeCandidatePlan {
        staged: 3,
        not_loaded: 1,
        dirty: 1,
        not_ready: 1,
        not_exit: 2,
        ..plan(&[], 0)
    };
    assert_eq!(
        settle_candidates(&mut machine, true, &other_reasons),
        SettledCandidates::NoCandidates { report: None },
        "no restart was the cause"
    );
    assert_eq!(
        settle_candidates(&mut machine, false, &plan(&[], 1)),
        SettledCandidates::Void,
        "a void sweep reports nothing"
    );
    assert_eq!(
        settle_candidates(&mut machine, true, &plan(&["b"], 1)),
        SettledCandidates::Probe,
        "a candidate is left"
    );
    assert_eq!(
        settle_candidates(&mut machine, true, &plan(&[], 1)),
        SettledCandidates::NoCandidates { report: REPORT },
        "the report was still to be had"
    );
    assert_eq!(
        settle_candidates(&mut machine, true, &plan(&[], 1)),
        SettledCandidates::NoCandidates { report: None },
        "once in a generation"
    );
}

/// A round whose candidates all failed their probes reports with the same code and text, and by the
/// same claim, as one that had none left; and again only where restarts had their part.
#[test]
fn probe_all_failed_early_exit_reports_with_the_same_code_and_latch() {
    let dead = latencies(&[("b", None)]);
    let fingerprints = map(&[("b", "f")]);

    let mut machine = AutoSwitchMachine::new();
    assert_eq!(
        choose_target(&mut machine, &plan(&["b"], 0), &dead, true, &fingerprints, "r"),
        TargetChoice::Unreachable { report: None },
        "no restart had a part in it"
    );
    assert_eq!(
        choose_target(&mut machine, &plan(&["b"], 2), &dead, true, &fingerprints, "r"),
        TargetChoice::Unreachable { report: REPORT }
    );
    assert_eq!(
        settle_candidates(&mut machine, true, &plan(&[], 1)),
        SettledCandidates::NoCandidates { report: None },
        "the claim is the same"
    );

    let mut machine = AutoSwitchMachine::new();
    assert_eq!(
        settle_candidates(&mut machine, true, &plan(&[], 1)),
        SettledCandidates::NoCandidates { report: REPORT }
    );
    assert_eq!(
        choose_target(&mut machine, &plan(&["b"], 2), &dead, true, &fingerprints, "r"),
        TargetChoice::Unreachable { report: None },
        "and the other way round"
    );

    assert_eq!(
        report_message(ReportCode::AutoSwitchNeedsRestart),
        RESTART_BLOCKED_MESSAGE
    );
}

#[test]
fn reports_have_their_texts() {
    assert_eq!(
        report_message(ReportCode::AutoSwitchNeedsRestart),
        "自动切换已触发，但本轮未能换成节点：有候选节点需要重启内核才能切换过去"
    );
    assert_eq!(
        report_message(ReportCode::ExitMismatch),
        "自动故障切换未能确认目标出口，恢复原出口也失败；正在后台对账运行出口"
    );
    assert_ne!(RESTART_BLOCKED_MESSAGE, EXIT_MISMATCH_MESSAGE);
}

fn saved() -> Value {
    json(
        r#"{ "selectedServerId": "a", "servers": [
            { "id": "a", "name": "A" },
            { "id": "b", "name": "B" },
            { "id": "t", "protocol": "tailscale" },
            { "id": "d" }
        ] }"#,
    )
}

fn targets() -> ProbeTargets {
    ProbeTargets {
        id_to_tag: map(&[("a", "a-tag"), ("b", "b-tag"), ("t", "t-tag"), ("d", "d-tag")]),
        fingerprints: map(&[("a", "fa"), ("b", "fb"), ("t", "ft"), ("d", "fd")]),
    }
}

fn fingerprints() -> NodeMap<String> {
    map(&[("a", "fa"), ("b", "fb"), ("t", "ft"), ("d", "fd")])
}

#[test]
fn a_round_opens_with_the_planned_candidates() {
    let staged = StagedNodeMask {
        pending: true,
        scope_known: true,
        node_ids: set(&["d"]),
    };
    let opened = open_round(
        Some(&saved()),
        Some(&saved()),
        &staged,
        Some(&targets()),
        &fingerprints(),
        &set(&[]),
    )
    .unwrap();
    assert_eq!(opened.current_id, "a");
    assert_eq!(
        opened.plan,
        RuntimeCandidatePlan {
            candidates: vec![RuntimeCandidate {
                id: "b".to_string(),
                name: "B".to_string(),
                tag: "b-tag".to_string(),
            }],
            staged: 1,
            not_ready: 1,
            ..RuntimeCandidatePlan::default()
        }
    );
}

#[test]
fn a_ready_tailscale_node_is_a_candidate() {
    let opened = open_round(
        Some(&saved()),
        Some(&saved()),
        &no_draft(),
        Some(&targets()),
        &fingerprints(),
        &set(&["t"]),
    )
    .unwrap();
    let ids: Vec<&str> = opened.plan.candidates.iter().map(|c| c.id.as_str()).collect();
    assert_eq!(ids, vec!["b", "t", "d"]);
}

#[test]
fn a_round_meets_its_obstacles_in_order() {
    let saved = saved();
    let other = json(r#"{ "selectedServerId": "b" }"#);
    let nothing = json("{}");
    let unknown = StagedNodeMask {
        pending: true,
        scope_known: false,
        node_ids: set(&[]),
    };
    let open = |config: Option<&Value>, runtime: Option<&Value>, staged: &StagedNodeMask| {
        open_round(config, runtime, staged, None, &fingerprints(), &set(&[])).unwrap_err()
    };
    assert_eq!(open(None, None, &unknown), RoundObstacle::ConfigUnreadable);
    assert_eq!(
        open(Some(&saved), None, &unknown),
        RoundObstacle::NoRuntimeConfig
    );
    assert_eq!(
        open(Some(&nothing), Some(&nothing), &unknown),
        RoundObstacle::NothingSelected
    );
    assert_eq!(
        open(Some(&saved), Some(&other), &unknown),
        RoundObstacle::SelectionPending
    );
    assert_eq!(
        open(Some(&saved), Some(&saved), &unknown),
        RoundObstacle::DraftScopeUnknown
    );
    assert_eq!(
        open(Some(&saved), Some(&saved), &no_draft()),
        RoundObstacle::NoProbeTargets
    );
}

#[test]
fn the_pool_measures_ids_by_their_tags() {
    assert_eq!(
        probe_inputs(&plan(&["b", "c"], 0)),
        vec![
            ("b".to_string(), "b-tag".to_string()),
            ("c".to_string(), "c-tag".to_string()),
        ]
    );
}

#[test]
fn what_was_not_measured_is_unreachable() {
    let mut map = NodeMap::new();
    map.insert("b".to_string(), Some(12));
    map.insert("c".to_string(), None);
    let list = measure(&plan(&["b", "c", "d"], 0).candidates, &map);
    let found: Vec<(&str, &str, Option<u32>)> = list
        .iter()
        .map(|c| (c.id.as_str(), c.name.as_str(), c.latency_ms))
        .collect();
    assert_eq!(
        found,
        vec![
            ("b", "name-b", Some(12)),
            ("c", "name-c", None),
            ("d", "name-d", None),
        ]
    );
}

#[test]
fn the_fastest_candidate_is_switched_to() {
    let mut machine = AutoSwitchMachine::new();
    let batch = latencies(&[("b", Some(80)), ("c", Some(30)), ("d", Some(30)), ("x", Some(1))]);
    let choice = choose_target(
        &mut machine,
        &plan(&["b", "c", "d"], 1),
        &batch,
        true,
        &map(&[("b", "fb"), ("c", "fc"), ("d", "fd")]),
        "connectivity",
    );
    assert_eq!(
        choice,
        TargetChoice::Switch {
            candidate: plan(&["c"], 0).candidates[0].clone(),
            fingerprint: "fc".to_string(),
            payload: AutoNodeSwitchedPayload {
                reason: "connectivity".to_string(),
                new_server_name: "name-c".to_string(),
                latency: 30,
            },
        }
    );
    assert!(
        machine.claim_restart_blocked_report(),
        "a round with a target leaves the report unclaimed"
    );
}

#[test]
fn probes_that_are_of_no_use_choose_nothing() {
    let mut machine = AutoSwitchMachine::new();
    let plan = plan(&["b"], 1);
    let good = latencies(&[("b", Some(5))]);
    let prints = map(&[("b", "fb")]);
    for (batch, still_current, fingerprints, want) in [
        (&RuntimeProbeBatch::Busy, true, &prints, TargetChoice::Busy),
        (&RuntimeProbeBatch::Busy, false, &prints, TargetChoice::Busy),
        (
            &RuntimeProbeBatch::Interrupted,
            true,
            &prints,
            TargetChoice::Interrupted,
        ),
        (&good, false, &prints, TargetChoice::Overtaken),
        (&good, true, &map(&[]), TargetChoice::Unknown),
    ] {
        assert_eq!(
            choose_target(&mut machine, &plan, batch, still_current, fingerprints, "r"),
            want
        );
    }
    assert!(machine.claim_restart_blocked_report());
}

#[test]
fn an_outcome_concludes_the_round() {
    for (outcome, want) in [
        (AutoHotSwitchOutcome::Applied, RoundConclusion::Switched),
        (AutoHotSwitchOutcome::Busy, RoundConclusion::Missed),
        (AutoHotSwitchOutcome::Superseded, RoundConclusion::Missed),
        (AutoHotSwitchOutcome::NotEligible, RoundConclusion::Missed),
        (AutoHotSwitchOutcome::Failed, RoundConclusion::Missed),
        (
            AutoHotSwitchOutcome::ReconcilePending {
                intent_generation: 12,
            },
            RoundConclusion::Reconcile {
                intent_generation: 12,
            },
        ),
    ] {
        assert_eq!(conclude_round(outcome), want);
    }
}
