use auto_switch::candidates::{RuntimeCandidate, RuntimeCandidatePlan};
use auto_switch::mesh::{NodeTraffic, ServerConfig, UserConfig};
use auto_switch::sweep::{
    candidate_switch_plan, judge_candidates, next_classification, retain_hot_switchable_candidates,
    switched_config, CandidateSwitchPlan, ClassificationStep, ClassifiedSwitch, SelectorPut,
    PROXY_SELECTOR,
};
use serde_json::Value;

fn json(text: &str) -> Value {
    serde_json::from_str(text).unwrap()
}

fn candidate(id: &str) -> RuntimeCandidate {
    RuntimeCandidate {
        id: id.to_string(),
        name: format!("name-{id}"),
        tag: format!("{id}-tag"),
    }
}

fn put(selector: &str, member: &str) -> SelectorPut {
    SelectorPut {
        selector_tag: selector.to_string(),
        member_tag: member.to_string(),
    }
}

fn hot(puts: Vec<SelectorPut>) -> Option<ClassifiedSwitch> {
    Some(ClassifiedSwitch::HotSwitch {
        puts,
        new_cfg: UserConfig::default(),
    })
}

/// A hot switch that puts the candidate `id` on the exit selector.
fn exit(id: &str) -> Option<ClassifiedSwitch> {
    hot(vec![put(PROXY_SELECTOR, &format!("{id}-tag"))])
}

#[test]
fn the_judged_configuration_differs_in_the_selection_alone() {
    let runtime = json(r#"{ "selectedServerId": "a", "servers": [{ "id": "b" }], "mtu": 1500 }"#);
    assert_eq!(
        switched_config(&runtime, &candidate("b")),
        Some(json(
            r#"{ "selectedServerId": "b", "servers": [{ "id": "b" }], "mtu": 1500 }"#
        ))
    );
    assert_eq!(
        runtime,
        json(r#"{ "selectedServerId": "a", "servers": [{ "id": "b" }], "mtu": 1500 }"#)
    );
    assert_eq!(switched_config(&json("[]"), &candidate("b")), None);
}

#[test]
fn a_candidate_is_judged_by_its_classification() {
    let c = candidate("b");
    let exit = || put(PROXY_SELECTOR, "b-tag");
    for (classified, want) in [
        (None, CandidateSwitchPlan::Void),
        (Some(ClassifiedSwitch::NotRunning), CandidateSwitchPlan::Void),
        (Some(ClassifiedSwitch::Unchanged), CandidateSwitchPlan::Void),
        (Some(ClassifiedSwitch::Fallback), CandidateSwitchPlan::NeedsRestart),
        (Some(ClassifiedSwitch::Restart), CandidateSwitchPlan::NeedsRestart),
        (hot(vec![]), CandidateSwitchPlan::NeedsRestart),
        (hot(vec![exit()]), CandidateSwitchPlan::HotSwitchable),
        (
            hot(vec![put("dns-selector", "x"), exit()]),
            CandidateSwitchPlan::HotSwitchable,
        ),
        (
            hot(vec![put(PROXY_SELECTOR, "c-tag"), put("other", "b-tag")]),
            CandidateSwitchPlan::NeedsRestart,
        ),
    ] {
        assert_eq!(candidate_switch_plan(&classified, &c), want, "{classified:?}");
    }
}

fn runtime_config(mesh_only: &[&str]) -> UserConfig {
    UserConfig {
        selected_server_id: Some("a".to_string()),
        servers: mesh_only
            .iter()
            .map(|id| ServerConfig {
                id: id.to_string(),
                traffic: NodeTraffic::Tailscale {
                    exit_node: None,
                    always_route_subnets: None,
                },
            })
            .collect(),
        ..UserConfig::default()
    }
}

fn plan(ids: &[&str]) -> RuntimeCandidatePlan {
    RuntimeCandidatePlan {
        candidates: ids.iter().map(|id| candidate(id)).collect(),
        staged: 1,
        not_loaded: 2,
        dirty: 3,
        not_ready: 4,
        not_exit: 0,
        needs_restart: 0,
    }
}

#[test]
fn the_sweep_keeps_what_can_be_switched_to_and_counts_the_rest() {
    let mut swept = plan(&["b", "mesh", "c", "d", "e"]);
    // The classification of the mesh-only node does not matter, not even that there is none.
    let classified = vec![
        exit("b"),
        None,
        Some(ClassifiedSwitch::Restart),
        exit("d"),
        exit("b"),
    ];
    assert!(retain_hot_switchable_candidates(
        &mut swept,
        Some(&runtime_config(&["mesh"])),
        true,
        &classified,
        true,
    ));
    assert_eq!(
        swept,
        RuntimeCandidatePlan {
            candidates: vec![candidate("b"), candidate("d")],
            not_exit: 1,
            needs_restart: 2,
            ..plan(&[])
        }
    );
}

#[test]
fn a_sweep_without_a_footing_leaves_the_plan_alone() {
    let good = vec![exit("b"), exit("c")];
    let void = vec![exit("b"), Some(ClassifiedSwitch::NotRunning)];
    let short = vec![exit("b")];
    let config = runtime_config(&[]);
    for (config, snapshot_present, classified, still_current, why) in [
        (None, true, &good, true, "configuration not parsed"),
        (Some(&config), false, &good, true, "no baseline"),
        (Some(&config), true, &void, true, "void classification"),
        (Some(&config), true, &short, true, "missing classification"),
        (Some(&config), true, &good, false, "core replaced"),
    ] {
        let mut swept = plan(&["b", "c"]);
        assert!(
            !retain_hot_switchable_candidates(
                &mut swept,
                config,
                snapshot_present,
                classified,
                still_current
            ),
            "{why}"
        );
        assert_eq!(swept, plan(&["b", "c"]), "{why}");
    }
}

#[test]
fn a_sweep_of_nothing_stands() {
    let mut swept = plan(&[]);
    assert!(retain_hot_switchable_candidates(
        &mut swept,
        Some(&runtime_config(&[])),
        true,
        &vec![],
        true
    ));
    assert_eq!(swept, plan(&[]));
}

#[test]
fn each_candidate_is_judged_by_its_own_classification() {
    let plan = plan(&["b", "c", "d"]);
    assert_eq!(
        judge_candidates(&plan, &vec![exit("b"), Some(ClassifiedSwitch::Fallback)]),
        vec![
            CandidateSwitchPlan::HotSwitchable,
            CandidateSwitchPlan::NeedsRestart,
            CandidateSwitchPlan::Void,
        ]
    );
    // Shifted by one, the same hot switches are those of other candidates.
    assert_eq!(
        judge_candidates(&plan, &vec![None, exit("b"), exit("c"), exit("d")]),
        vec![
            CandidateSwitchPlan::Void,
            CandidateSwitchPlan::NeedsRestart,
            CandidateSwitchPlan::NeedsRestart,
        ]
    );
}

#[test]
fn classifications_are_collected_as_far_as_they_matter() {
    let plan = plan(&["b", "mesh", "c", "d"]);
    let config = runtime_config(&["mesh"]);
    let mut classified = Vec::new();
    assert_eq!(
        next_classification(&plan, &config, &classified),
        ClassificationStep::Classify
    );
    classified.push(exit("b"));
    assert_eq!(
        next_classification(&plan, &config, &classified),
        ClassificationStep::Skip
    );
    classified.push(None);
    assert_eq!(
        next_classification(&plan, &config, &classified),
        ClassificationStep::Classify,
        "what was skipped is not void"
    );
    let mut stopped = vec![exit("b"), None, Some(ClassifiedSwitch::NotRunning)];
    assert_eq!(
        next_classification(&plan, &config, &stopped),
        ClassificationStep::Complete,
        "a void candidate voids the round"
    );
    for more in [None, exit("d")] {
        stopped.push(more);
        let mut swept = plan.clone();
        assert!(!retain_hot_switchable_candidates(
            &mut swept,
            Some(&config),
            true,
            &stopped,
            true
        ));
        stopped.pop();
    }
    classified.push(Some(ClassifiedSwitch::Restart));
    assert_eq!(
        next_classification(&plan, &config, &classified),
        ClassificationStep::Classify
    );
    classified.push(exit("d"));
    assert_eq!(
        next_classification(&plan, &config, &classified),
        ClassificationStep::Complete
    );
    let mut swept = plan.clone();
    assert!(retain_hot_switchable_candidates(
        &mut swept,
        Some(&config),
        true,
        &classified,
        true
    ));
    assert_eq!(swept.candidates, vec![candidate("b"), candidate("d")]);
}

#[test]
fn a_skipped_classification_does_not_matter() {
    for any in [
        None,
        exit("mesh"),
        Some(ClassifiedSwitch::NotRunning),
        Some(ClassifiedSwitch::Restart),
    ] {
        let mut swept = plan(&["mesh", "b"]);
        assert!(retain_hot_switchable_candidates(
            &mut swept,
            Some(&runtime_config(&["mesh"])),
            true,
            &vec![any, exit("b")],
            true
        ));
        assert_eq!(swept.candidates, vec![candidate("b")]);
        assert_eq!(swept.not_exit, 1);
        assert_eq!(swept.needs_restart, 0);
    }
}
