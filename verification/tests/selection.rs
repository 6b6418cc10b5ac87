use auto_switch::candidates::{RuntimeCandidate, RuntimeCandidatePlan};
use auto_switch::selection::{
    select_best_candidate, switch_blocked_by_restart, switch_payload, AutoNodeSwitchedPayload,
    CandidateLatency,
};

fn cand(id: &str, lat: Option<u32>) -> CandidateLatency {
    CandidateLatency {
        id: id.to_string(),
        name: format!("name-{id}"),
        latency_ms: lat,
    }
}

#[test]
fn select_picks_lowest_latency() {
    let list = vec![
        cand("a", Some(120)),
        cand("b", Some(40)),
        cand("c", Some(80)),
    ];
    assert_eq!(select_best_candidate(&list).unwrap().id, "b");
}

#[test]
fn select_skips_unreachable() {
    let list = vec![cand("a", None), cand("b", Some(200))];
    assert_eq!(select_best_candidate(&list).unwrap().id, "b");
}

#[test]
fn select_none_when_all_unreachable() {
    let list = vec![cand("a", None), cand("b", None)];
    assert!(select_best_candidate(&list).is_none());
}

#[test]
fn select_empty_is_none() {
    assert!(select_best_candidate(&[]).is_none());
}

#[test]
fn select_ties_take_first() {
    let list = vec![cand("a", Some(50)), cand("b", Some(50))];
    assert_eq!(select_best_candidate(&list).unwrap().id, "a");
}

#[test]
fn switch_payload_uses_selected_candidate_fields() {
    let best = cand("new-id", Some(42));
    let payload = switch_payload(&best, "连通性检测").unwrap();
    assert_eq!(payload.reason, "连通性检测");
    assert_eq!(payload.new_server_name, "name-new-id");
    assert_eq!(payload.latency, 42);
}

#[test]
fn switch_payload_none_when_candidate_unreachable() {
    assert!(switch_payload(&cand("x", None), "r").is_none());
}

/// A plan with so many candidates, so many lost to restarts, and so many under each other reason.
fn restart_plan(candidates: usize, needs_restart: usize, others: usize) -> RuntimeCandidatePlan {
    RuntimeCandidatePlan {
        candidates: (0..candidates)
            .map(|i| RuntimeCandidate {
                id: format!("n{i}"),
                name: format!("节点{i}"),
                tag: format!("tag{i}"),
            })
            .collect(),
        staged: others,
        not_loaded: others,
        dirty: others,
        not_ready: others,
        not_exit: others,
        needs_restart,
    }
}

#[test]
fn switch_blocked_by_restart_truth_table() {
    for (candidates, needs_restart, others, want, why) in [
        (0, 1, 0, true, "the one case to report"),
        (0, 2, 3, true, "restarts among other reasons"),
        (0, 0, 3, false, "empty for other reasons only"),
        (0, 0, 0, false, "there is no other node"),
        (1, 1, 0, false, "a candidate is left"),
        (1, 0, 0, false, "an ordinary round"),
        (2, 3, 1, false, "some were dropped, some are left"),
        (1, 0, 5, false, "many were dropped, one is left"),
    ] {
        assert_eq!(
            switch_blocked_by_restart(&restart_plan(candidates, needs_restart, others)),
            want,
            "{why} (candidates={candidates} needs_restart={needs_restart} others={others})"
        );
    }
}

#[test]
fn a_later_faster_candidate_wins_over_an_earlier_tie() {
    let list = vec![
        cand("a", Some(50)),
        cand("b", None),
        cand("c", Some(50)),
        cand("d", Some(0)),
        cand("e", Some(0)),
        cand("f", Some(u32::MAX)),
    ];
    assert_eq!(select_best_candidate(&list), Some(&list[3]));
}

#[test]
fn a_single_slow_candidate_is_still_the_best() {
    let list = [cand("a", Some(u32::MAX))];
    assert_eq!(select_best_candidate(&list), Some(&list[0]));
}

#[test]
fn a_latency_of_nothing_is_announced_as_such() {
    assert_eq!(
        switch_payload(&cand("n", Some(0)), "connectivity"),
        Some(AutoNodeSwitchedPayload {
            reason: "connectivity".to_string(),
            new_server_name: "name-n".to_string(),
            latency: 0,
        })
    );
}

#[test]
fn clones_hold_the_same() {
    let plan = restart_plan(2, 1, 3);
    assert_eq!(plan.clone(), plan);
    assert_eq!(cand("a", Some(3)).clone(), cand("a", Some(3)));
    let payload = switch_payload(&cand("a", Some(3)), "r").unwrap();
    assert_eq!(payload.clone(), payload);
}
