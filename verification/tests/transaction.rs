use auto_switch::candidates::RuntimeCandidate;
use auto_switch::mesh::UserConfig;
use auto_switch::node_map::{NodeMap, NodeSet};
use auto_switch::report::ReportCode;
use auto_switch::sweep::{
    candidate_switch_plan, CandidateSwitchPlan, ClassifiedSwitch, SelectorPut,
};
use auto_switch::transaction::{
    attests_exit, AdmissionFacts, AutoHotSwitchOutcome, HotSwitchTransaction, JudgedSwitch,
    PersistResult, SelectorGroup, StagedNodeMask, TransactionEnd, TransactionPhase,
};
use serde_json::Value;

fn json(text: &str) -> Value {
    serde_json::from_str(text).unwrap()
}

fn map(entries: &[(&str, &str)]) -> NodeMap<String> {
    let mut map = NodeMap::new();
    for (id, value) in entries {
        map.insert(id.to_string(), value.to_string());
    }
    map
}

fn draft(pending: bool, scope_known: bool, ids: &[&str]) -> StagedNodeMask {
    let mut node_ids = NodeSet::new();
    for id in ids {
        node_ids.insert(id.to_string());
    }
    StagedNodeMask {
        pending,
        scope_known,
        node_ids,
    }
}

fn no_draft() -> StagedNodeMask {
    draft(false, true, &[])
}

fn new_transaction() -> HotSwitchTransaction {
    HotSwitchTransaction::new(
        4,
        "a".to_string(),
        RuntimeCandidate {
            id: "b".to_string(),
            name: "B".to_string(),
            tag: "b-tag".to_string(),
        },
        "fb".to_string(),
    )
}

fn facts() -> AdmissionFacts {
    AdmissionFacts {
        generation: 4,
        core_running: true,
        intent_generation: 10,
        busy: false,
        reconcile_required: false,
        staged: no_draft(),
    }
}

fn runtime() -> Value {
    json(r#"{ "selectedServerId": "a", "mtu": 1500 }"#)
}

fn tags() -> NodeMap<String> {
    map(&[("a", "a-tag"), ("b", "b-tag")])
}

fn groups(selected: &str) -> Vec<SelectorGroup> {
    vec![
        SelectorGroup {
            tag: "dns-selector".to_string(),
            selected: "b-tag".to_string(),
        },
        SelectorGroup {
            tag: "proxy-selector".to_string(),
            selected: selected.to_string(),
        },
    ]
}

fn hot() -> Option<ClassifiedSwitch> {
    Some(ClassifiedSwitch::HotSwitch {
        puts: vec![SelectorPut {
            selector_tag: "proxy-selector".to_string(),
            member_tag: "b-tag".to_string(),
        }],
        new_cfg: UserConfig {
            interrupt_connections_on_switch: Some(true),
            ..UserConfig::default()
        },
    })
}

fn plain(outcome: AutoHotSwitchOutcome) -> TransactionPhase {
    TransactionPhase::Done(TransactionEnd {
        outcome,
        mark_required: false,
        report: None,
        push_pending: false,
    })
}

fn overtaken() -> TransactionPhase {
    TransactionPhase::Done(TransactionEnd {
        outcome: AutoHotSwitchOutcome::Superseded,
        mark_required: true,
        report: None,
        push_pending: false,
    })
}

fn persisting() -> HotSwitchTransaction {
    let mut t = new_transaction();
    t.begin(&facts(), Some(&runtime()), Some(&tags()));
    assert_eq!(t.phase(), TransactionPhase::Judging);
    t.judge(hot());
    assert_eq!(t.phase(), TransactionPhase::Persisting);
    t
}

fn putting() -> HotSwitchTransaction {
    let mut t = persisting();
    t.persisted(PersistResult::Written {
        intent_generation: 11,
    });
    assert_eq!(t.phase(), TransactionPhase::Putting);
    t
}

fn attesting() -> HotSwitchTransaction {
    let mut t = putting();
    t.target_put(true, true);
    assert_eq!(t.phase(), TransactionPhase::Attesting { applied: true });
    t
}

fn switched() -> Value {
    json(r#"{ "selectedServerId": "b" }"#)
}

fn prints() -> NodeMap<String> {
    map(&[("b", "fb")])
}

fn restoring() -> HotSwitchTransaction {
    let mut t = attesting();
    t.target_read(None, true, &no_draft(), Some(&switched()), &prints());
    assert_eq!(t.phase(), TransactionPhase::Restoring);
    t
}

fn rolling_back() -> HotSwitchTransaction {
    let mut t = restoring();
    t.restore_put(true, true);
    assert_eq!(t.phase(), TransactionPhase::AttestingRestore { put_ok: true });
    t.restore_read(Some(&groups("a-tag")), true);
    assert_eq!(t.phase(), TransactionPhase::RollingBack);
    t
}

#[test]
fn a_new_transaction_waits_for_the_runtime() {
    let t = new_transaction();
    assert_eq!(t.phase(), TransactionPhase::Admitting);
    assert_eq!(t.generation(), 4);
    assert_eq!(t.candidate().id, "b");
    assert_eq!(t.intent(), None);
}

#[test]
fn a_switch_that_proves_itself_is_applied() {
    let mut t = attesting();
    assert_eq!(t.old_tag(), "a-tag");
    assert_eq!(t.intent(), Some(11));
    t.target_read(
        Some(&groups("b-tag")),
        true,
        &no_draft(),
        Some(&switched()),
        &prints(),
    );
    assert_eq!(t.phase(), TransactionPhase::Committing);
    t.committed(true);
    assert_eq!(t.phase(), TransactionPhase::Refreshing);
    t.refreshed(true);
    assert_eq!(
        t.phase(),
        TransactionPhase::Done(TransactionEnd {
            outcome: AutoHotSwitchOutcome::Applied,
            mark_required: false,
            report: None,
            push_pending: true,
        })
    );
}

#[test]
fn admission_is_refused_by_the_first_obstacle() {
    let cases: Vec<(AdmissionFacts, AutoHotSwitchOutcome)> = vec![
        (
            AdmissionFacts {
                generation: 5,
                busy: true,
                ..facts()
            },
            AutoHotSwitchOutcome::Superseded,
        ),
        (
            AdmissionFacts {
                core_running: false,
                busy: true,
                ..facts()
            },
            AutoHotSwitchOutcome::Superseded,
        ),
        (
            AdmissionFacts {
                busy: true,
                reconcile_required: true,
                ..facts()
            },
            AutoHotSwitchOutcome::Busy,
        ),
        (
            AdmissionFacts {
                reconcile_required: true,
                staged: draft(true, false, &[]),
                ..facts()
            },
            AutoHotSwitchOutcome::NotEligible,
        ),
        (
            AdmissionFacts {
                staged: draft(true, false, &[]),
                ..facts()
            },
            AutoHotSwitchOutcome::Superseded,
        ),
        (
            AdmissionFacts {
                staged: draft(true, true, &["b"]),
                ..facts()
            },
            AutoHotSwitchOutcome::Superseded,
        ),
    ];
    for (facts, outcome) in cases {
        let mut t = new_transaction();
        t.begin(&facts, Some(&runtime()), Some(&tags()));
        assert_eq!(t.phase(), plain(outcome), "{facts:?}");
    }
}

#[test]
fn admission_needs_the_running_configuration() {
    let other = json(r#"{ "selectedServerId": "c" }"#);
    for (runtime, tags, outcome) in [
        (None, Some(&tags()), AutoHotSwitchOutcome::NotEligible),
        (Some(&other), Some(&tags()), AutoHotSwitchOutcome::Superseded),
        (Some(&runtime()), None, AutoHotSwitchOutcome::NotEligible),
        (
            Some(&runtime()),
            Some(&map(&[("b", "b-tag")])),
            AutoHotSwitchOutcome::NotEligible,
        ),
    ] {
        let mut t = new_transaction();
        t.begin(&facts(), runtime, tags);
        assert_eq!(t.phase(), plain(outcome));
    }
}

#[test]
fn drafts_elsewhere_do_not_stand_in_the_way() {
    for staged in [
        draft(true, true, &["x"]),
        draft(false, false, &["b"]),
        draft(true, true, &[]),
    ] {
        assert!(!staged.is_masked("b"));
        let mut t = new_transaction();
        t.begin(
            &AdmissionFacts { staged, ..facts() },
            Some(&runtime()),
            Some(&tags()),
        );
        assert_eq!(t.phase(), TransactionPhase::Judging);
    }
}

#[test]
fn only_a_hot_switch_is_eligible() {
    for classified in [
        None,
        Some(ClassifiedSwitch::NotRunning),
        Some(ClassifiedSwitch::Unchanged),
        Some(ClassifiedSwitch::Fallback),
        Some(ClassifiedSwitch::Restart),
        Some(ClassifiedSwitch::HotSwitch {
            puts: vec![],
            new_cfg: UserConfig::default(),
        }),
    ] {
        let mut t = new_transaction();
        t.begin(&facts(), Some(&runtime()), Some(&tags()));
        t.judge(classified);
        assert_eq!(t.phase(), plain(AutoHotSwitchOutcome::NotEligible));
    }
}

#[test]
fn the_choice_is_saved_where_nothing_has_changed() {
    let t = persisting();
    let mut latest = json(r#"{ "selectedServerId": "a", "servers": [], "n": 1 }"#);
    assert!(t.claim_target(&mut latest, 10, &prints()));
    assert_eq!(
        latest,
        json(r#"{ "selectedServerId": "b", "servers": [], "n": 1 }"#)
    );
}

#[test]
fn the_choice_is_not_saved_over_a_change() {
    let t = persisting();
    let same = json(r#"{ "selectedServerId": "a" }"#);
    let moved = json(r#"{ "selectedServerId": "c" }"#);
    for (latest, intent, prints) in [
        (&same, 11, prints()),
        (&moved, 10, prints()),
        (&same, 10, map(&[("b", "edited")])),
        (&same, 10, map(&[])),
        (&json("[]"), 10, map(&[("b", "fb")])),
    ] {
        let mut copy = latest.clone();
        assert!(!t.claim_target(&mut copy, intent, &prints));
        assert_eq!(&copy, latest);
    }
    // Nor before its time.
    let mut copy = same.clone();
    assert!(!new_transaction().claim_target(&mut copy, 0, &prints()));
    assert_eq!(copy, same);
}

#[test]
fn saving_that_is_skipped_or_fails_ends_the_transaction() {
    let mut t = persisting();
    t.persisted(PersistResult::Skipped);
    assert_eq!(t.phase(), plain(AutoHotSwitchOutcome::Superseded));
    let mut t = persisting();
    t.persisted(PersistResult::Failed);
    assert_eq!(t.phase(), plain(AutoHotSwitchOutcome::Failed));
}

#[test]
fn a_newer_owner_of_the_selector_takes_over() {
    let mut t = putting();
    t.target_put(true, false);
    assert_eq!(t.phase(), overtaken());

    let mut t = attesting();
    t.target_read(
        Some(&groups("b-tag")),
        false,
        &no_draft(),
        Some(&switched()),
        &prints(),
    );
    assert_eq!(t.phase(), overtaken());

    let mut t = restoring();
    t.restore_put(true, false);
    assert_eq!(t.phase(), overtaken());

    let mut t = restoring();
    t.restore_put(true, true);
    t.restore_read(Some(&groups("a-tag")), false);
    assert_eq!(t.phase(), overtaken());
}

#[test]
fn a_newer_owner_after_the_commit_silences_the_success() {
    for owned_at_commit in [false, true] {
        let mut t = attesting();
        t.target_read(
            Some(&groups("b-tag")),
            true,
            &no_draft(),
            Some(&switched()),
            &prints(),
        );
        t.committed(owned_at_commit);
        t.refreshed(false);
        assert_eq!(t.phase(), plain(AutoHotSwitchOutcome::Superseded));
    }
}

#[test]
fn a_switch_that_is_not_confirmed_is_taken_back() {
    let unselected = runtime();
    let edited = map(&[("b", "edited")]);
    for (groups, staged, latest, prints) in [
        (None, no_draft(), Some(&switched()), prints()),
        (Some(&groups("a-tag")), no_draft(), Some(&switched()), prints()),
        (
            Some(&groups("b-tag")),
            draft(true, true, &["b"]),
            Some(&switched()),
            prints(),
        ),
        (Some(&groups("b-tag")), no_draft(), Some(&unselected), prints()),
        (Some(&groups("b-tag")), no_draft(), None, prints()),
        (Some(&groups("b-tag")), no_draft(), Some(&switched()), edited),
    ] {
        let mut t = attesting();
        t.target_read(groups, true, &staged, latest, &prints);
        assert_eq!(t.phase(), TransactionPhase::Restoring);
    }
    // A switch that was refused is not confirmed by a reading either.
    let mut t = putting();
    t.target_put(false, true);
    t.target_read(
        Some(&groups("b-tag")),
        true,
        &no_draft(),
        Some(&switched()),
        &prints(),
    );
    assert_eq!(t.phase(), TransactionPhase::Restoring);
}

#[test]
fn a_restored_selector_takes_the_choice_back() {
    let mut t = rolling_back();
    let mut latest = json(r#"{ "selectedServerId": "b", "edited": true }"#);
    assert!(t.roll_back(&mut latest, 11));
    assert_eq!(latest, json(r#"{ "selectedServerId": "a", "edited": true }"#));
    t.rolled_back(true);
    assert_eq!(t.phase(), plain(AutoHotSwitchOutcome::Failed));

    let mut t = rolling_back();
    t.rolled_back(false);
    assert_eq!(t.phase(), plain(AutoHotSwitchOutcome::Superseded));
}

#[test]
fn a_newer_choice_is_never_taken_back() {
    let t = rolling_back();
    for (text, intent) in [
        (r#"{ "selectedServerId": "b" }"#, 12),
        (r#"{ "selectedServerId": "c" }"#, 11),
        ("[]", 11),
    ] {
        let mut latest = json(text);
        assert!(!t.roll_back(&mut latest, intent));
        assert_eq!(latest, json(text));
    }
    let mut latest = switched();
    assert!(!attesting().roll_back(&mut latest, 11));
    assert_eq!(latest, switched());
}

#[test]
fn an_exit_that_cannot_be_confirmed_is_left_to_reconciliation() {
    let unconfirmed = TransactionPhase::Done(TransactionEnd {
        outcome: AutoHotSwitchOutcome::ReconcilePending {
            intent_generation: 11,
        },
        mark_required: false,
        report: Some(ReportCode::ExitMismatch),
        push_pending: true,
    });
    for (ok, groups) in [
        (true, None),
        (true, Some(&groups("b-tag"))),
        (false, None),
        (false, Some(&groups("a-tag"))),
    ] {
        let mut t = restoring();
        t.restore_put(ok, true);
        t.restore_read(groups, true);
        assert_eq!(t.phase(), unconfirmed);
        assert_eq!(t.intent(), Some(11));
    }
}

#[test]
fn what_is_told_out_of_turn_changes_nothing() {
    let mut t = persisting();
    t.begin(&facts(), None, None);
    t.judge(None);
    t.target_put(true, false);
    t.target_read(None, false, &no_draft(), None, &prints());
    t.committed(false);
    t.refreshed(false);
    t.restore_put(false, false);
    t.restore_read(None, false);
    t.rolled_back(false);
    assert_eq!(t.phase(), TransactionPhase::Persisting);
    assert_eq!(t.intent(), None);

    let mut t = putting();
    t.persisted(PersistResult::Failed);
    assert_eq!(t.phase(), TransactionPhase::Putting);
    assert_eq!(t.intent(), Some(11));
}

#[test]
fn the_end_is_final() {
    let mut t = new_transaction();
    t.begin(
        &AdmissionFacts {
            busy: true,
            ..facts()
        },
        Some(&runtime()),
        Some(&tags()),
    );
    t.begin(&facts(), Some(&runtime()), Some(&tags()));
    t.judge(hot());
    assert_eq!(t.phase(), plain(AutoHotSwitchOutcome::Busy));
}

#[test]
fn the_exit_is_read_off_the_exit_selector() {
    assert!(attests_exit(&groups("b-tag"), "b-tag"));
    assert!(!attests_exit(&groups("a-tag"), "b-tag"));
    assert!(!attests_exit(&vec![], "b-tag"));
}

#[test]
fn the_transaction_goes_on_with_what_the_sweep_keeps() {
    for classified in [
        None,
        Some(ClassifiedSwitch::NotRunning),
        Some(ClassifiedSwitch::Unchanged),
        Some(ClassifiedSwitch::Fallback),
        Some(ClassifiedSwitch::Restart),
        Some(ClassifiedSwitch::HotSwitch {
            puts: vec![],
            new_cfg: UserConfig::default(),
        }),
        hot(),
    ] {
        let mut t = new_transaction();
        t.begin(&facts(), Some(&runtime()), Some(&tags()));
        let keeps = candidate_switch_plan(&classified, t.candidate())
            == CandidateSwitchPlan::HotSwitchable;
        t.judge(classified);
        assert_eq!(t.phase() == TransactionPhase::Persisting, keeps);
    }
}

#[test]
fn what_was_judged_is_what_is_done() {
    let t = new_transaction();
    assert_eq!(t.switched_config(), None);
    assert_eq!(t.judged(), None);

    let mut t = new_transaction();
    t.begin(&facts(), Some(&runtime()), Some(&tags()));
    let switched = json(r#"{ "selectedServerId": "b", "mtu": 1500 }"#);
    assert_eq!(t.switched_config(), Some(switched.clone()));
    assert_eq!(t.judged(), None);
    t.judge(hot());
    let judged = JudgedSwitch {
        puts: vec![SelectorPut {
            selector_tag: "proxy-selector".to_string(),
            member_tag: "b-tag".to_string(),
        }],
        interrupt: true,
        enable_ipv6: false,
    };
    assert_eq!(t.judged(), Some(&judged));

    // Neither another configuration nor another judgement replaces them.
    t.begin(&facts(), Some(&json(r#"{ "selectedServerId": "a" }"#)), Some(&tags()));
    t.judge(None);
    t.persisted(PersistResult::Written {
        intent_generation: 11,
    });
    t.target_put(true, true);
    assert_eq!(t.switched_config(), Some(switched));
    assert_eq!(t.judged(), Some(&judged));
}
