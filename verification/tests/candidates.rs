use auto_switch::candidates::{
    plan_candidates, plan_runtime_candidates, read_servers, RuntimeCandidate, RuntimeCandidatePlan,
    ServerEntry,
};
use auto_switch::node_map::{NodeMap, NodeSet};
use serde_json::Value;

fn json(text: &str) -> Value {
    serde_json::from_str(text).unwrap()
}

fn map(entries: &[(&str, &str)]) -> NodeMap<String> {
    let mut map = NodeMap::new();
    for (id, value) in entries {
        map.insert(id.to_string(), value.to_string());
    }
    map
}

fn set(ids: &[&str]) -> NodeSet {
    let mut set = NodeSet::new();
    for id in ids {
        set.insert(id.to_string());
    }
    set
}

#[test]
fn plan_runtime_candidates_excludes_current() {
    let cfg = json(
        r#"{
            "selectedServerId": "a",
            "servers": [
                { "id": "a", "name": "A", "address": "1.1.1.1", "port": 443 },
                { "id": "b", "name": "B", "address": "2.2.2.2", "port": 8443 }
            ]
        }"#,
    );
    let plan = plan_runtime_candidates(
        &cfg,
        Some("a"),
        &map(&[("b", "b-tag")]),
        &map(&[("b", "fp-b")]),
        &map(&[("b", "fp-b")]),
        &set(&[]),
        &set(&[]),
    );
    assert_eq!(plan.candidates.len(), 1);
    assert_eq!(plan.candidates[0].id, "b");
    assert_eq!(plan.candidates[0].name, "B");
    assert_eq!(plan.candidates[0].tag, "b-tag");
}

#[test]
fn plan_runtime_candidates_missing_servers_is_empty() {
    assert_eq!(
        plan_runtime_candidates(
            &json("{}"),
            Some("a"),
            &map(&[]),
            &map(&[]),
            &map(&[]),
            &set(&[]),
            &set(&[]),
        ),
        RuntimeCandidatePlan::default()
    );
}

#[test]
fn plan_runtime_candidates_name_falls_back_to_id() {
    let cfg = json(r#"{ "servers": [ { "id": "x", "address": "h", "port": 1 } ] }"#);
    let plan = plan_runtime_candidates(
        &cfg,
        None,
        &map(&[("x", "x-tag")]),
        &map(&[("x", "fp-x")]),
        &map(&[("x", "fp-x")]),
        &set(&[]),
        &set(&[]),
    );
    assert_eq!(plan.candidates[0].name, "x");
}

#[test]
fn plan_runtime_candidates_staged_is_excluded() {
    let plan = plan_runtime_candidates(
        &json(r#"{ "servers": [{ "id": "staged", "name": "Staged" }] }"#),
        None,
        &map(&[]),
        &map(&[]),
        &map(&[]),
        &set(&["staged"]),
        &set(&[]),
    );
    assert!(plan.candidates.is_empty());
    assert_eq!(plan.staged, 1);
}

#[test]
fn plan_runtime_candidates_not_loaded_is_excluded() {
    let plan = plan_runtime_candidates(
        &json(r#"{ "servers": [{ "id": "disk-only" }] }"#),
        None,
        &map(&[]),
        &map(&[]),
        &map(&[]),
        &set(&[]),
        &set(&[]),
    );
    assert!(plan.candidates.is_empty());
    assert_eq!(plan.not_loaded, 1);
}

#[test]
fn plan_runtime_candidates_dirty_is_excluded() {
    let plan = plan_runtime_candidates(
        &json(r#"{ "servers": [{ "id": "dirty" }] }"#),
        None,
        &map(&[("dirty", "dirty-tag")]),
        &map(&[("dirty", "running-fp")]),
        &map(&[("dirty", "current-fp")]),
        &set(&[]),
        &set(&[]),
    );
    assert!(plan.candidates.is_empty());
    assert_eq!(plan.dirty, 1);
}

#[test]
fn plan_runtime_candidates_not_ready_is_excluded() {
    let plan = plan_runtime_candidates(
        &json(r#"{ "servers": [{ "id": "not-ready" }] }"#),
        None,
        &map(&[("not-ready", "not-ready-tag")]),
        &map(&[("not-ready", "same-fp")]),
        &map(&[("not-ready", "same-fp")]),
        &set(&[]),
        &set(&["not-ready"]),
    );
    assert!(plan.candidates.is_empty());
    assert_eq!(plan.not_ready, 1);
}

#[test]
fn plan_runtime_candidates_clean_is_included() {
    let plan = plan_runtime_candidates(
        &json(r#"{ "servers": [{ "id": "clean", "name": "Clean" }] }"#),
        None,
        &map(&[("clean", "clean-tag")]),
        &map(&[("clean", "same-fp")]),
        &map(&[("clean", "same-fp")]),
        &set(&[]),
        &set(&[]),
    );
    assert_eq!(
        plan.candidates,
        vec![RuntimeCandidate {
            id: String::from("clean"),
            name: String::from("Clean"),
            tag: String::from("clean-tag"),
        }]
    );
    assert_eq!(plan.staged, 0);
    assert_eq!(plan.not_loaded, 0);
    assert_eq!(plan.dirty, 0);
    assert_eq!(plan.not_ready, 0);
}

#[test]
fn entries_are_read_as_far_as_they_are_strings() {
    let entries = read_servers(&json(
        r#"{ "servers": [
            { "id": "a", "name": "A" }, { "id": 7, "name": "no id" }, { "id": "c", "name": null },
            "d", null, {}
        ] }"#,
    ))
    .unwrap();
    let texts: Vec<(Option<&str>, Option<&str>)> = entries
        .iter()
        .map(|e| (e.id.as_deref(), e.name.as_deref()))
        .collect();
    assert_eq!(
        texts,
        vec![
            (Some("a"), Some("A")),
            (None, Some("no id")),
            (Some("c"), None),
            (None, None),
            (None, None),
            (None, None),
        ]
    );
}

#[test]
fn a_server_list_is_an_array_of_an_object() {
    for text in [
        "{}",
        r#"{ "servers": {} }"#,
        r#"{ "servers": "a" }"#,
        r#"[{ "id": "a" }]"#,
        "null",
    ] {
        assert!(read_servers(&json(text)).is_none(), "{text}");
    }
    assert!(read_servers(&json(r#"{ "servers": [] }"#)).unwrap().is_empty());
}

#[test]
fn every_entry_is_accounted_for_by_its_first_reason() {
    let cfg = json(
        r#"{ "servers": [
            { "id": "current" }, { "id": "draft" }, { "id": "unloaded" }, { "id": "changed" },
            { "id": "unprinted" }, { "id": "asleep" }, { "name": "nameless" },
            { "id": "second" }, { "id": "first", "name": "First" }
        ] }"#,
    );
    let tags = map(&[
        ("current", "t0"),
        ("draft", "t1"),
        ("changed", "t2"),
        ("unprinted", "t3"),
        ("asleep", "t4"),
        ("second", "t5"),
        ("first", "t6"),
    ]);
    let running = map(&[
        ("changed", "old"),
        ("asleep", "z"),
        ("second", "s"),
        ("first", "f"),
    ]);
    let saved = map(&[
        ("changed", "new"),
        ("asleep", "z"),
        ("second", "s"),
        ("first", "f"),
    ]);
    // The draft touches nodes that other reasons would exclude too; the earlier reason counts.
    let plan = plan_runtime_candidates(
        &cfg,
        Some("current"),
        &tags,
        &running,
        &saved,
        &set(&["draft", "current"]),
        &set(&["asleep", "changed", "unloaded"]),
    );
    assert_eq!(
        plan,
        RuntimeCandidatePlan {
            candidates: vec![
                RuntimeCandidate {
                    id: "second".to_string(),
                    name: "second".to_string(),
                    tag: "t5".to_string(),
                },
                RuntimeCandidate {
                    id: "first".to_string(),
                    name: "First".to_string(),
                    tag: "t6".to_string(),
                },
            ],
            staged: 1,
            not_loaded: 1,
            dirty: 2,
            not_ready: 1,
            not_exit: 0,
            needs_restart: 0,
        }
    );
    // Nine entries: one nameless, one current, five excluded, two candidates.
    assert_eq!(1 + 1 + plan.staged + plan.not_loaded + plan.dirty + plan.not_ready + 2, 9);
}

#[test]
fn an_id_that_occurs_twice_is_planned_twice() {
    let entry = || ServerEntry {
        id: Some("twin".to_string()),
        name: None,
    };
    let plan = plan_candidates(
        &vec![entry(), entry()],
        None,
        &map(&[("twin", "t")]),
        &map(&[("twin", "f")]),
        &map(&[("twin", "f")]),
        &set(&[]),
        &set(&[]),
    );
    assert_eq!(plan.candidates.len(), 2);
    assert_eq!(plan.candidates[0], plan.candidates[1].clone());
}
