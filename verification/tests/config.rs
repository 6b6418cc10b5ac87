use auto_switch::config::{
    auto_switch_enabled, not_ready_ids, select_server, selected_server_id, selected_server_is_real,
    selects, tailscale_node_ids,
};
use auto_switch::json::{array_member, set_text_member, text_member};
use auto_switch::node_map::NodeSet;
use serde_json::Value;

fn json(text: &str) -> Value {
    serde_json::from_str(text).unwrap()
}

#[test]
fn members_are_read_by_their_kind() {
    let doc = json(r#"{ "text": "t", "list": [1, "two"], "flag": true, "none": null }"#);
    assert_eq!(text_member(&doc, "text"), Some("t"));
    assert_eq!(text_member(&doc, "list"), None);
    assert_eq!(text_member(&doc, "missing"), None);
    assert_eq!(text_member(&json("[]"), "text"), None);
    assert_eq!(array_member(&doc, "list").unwrap().len(), 2);
    assert_eq!(array_member(&doc, "list").unwrap()[1], json(r#""two""#));
    assert!(array_member(&doc, "text").is_none());
    assert!(array_member(&doc, "none").is_none());
}

#[test]
fn a_member_is_set_in_objects_only() {
    let mut doc = json(r#"{ "n": 1.5, "id": 7 }"#);
    assert!(set_text_member(&mut doc, "id", "seven"));
    assert_eq!(doc, json(r#"{ "n": 1.5, "id": "seven" }"#));
    assert!(set_text_member(&mut doc, "new", ""));
    assert_eq!(doc, json(r#"{ "n": 1.5, "id": "seven", "new": "" }"#));

    let mut list = json(r#"["id"]"#);
    assert!(!set_text_member(&mut list, "id", "x"));
    assert_eq!(list, json(r#"["id"]"#));
}

#[test]
fn the_setting_must_be_true_itself() {
    assert!(auto_switch_enabled(Some(&json(r#"{ "autoSwitchNode": true }"#))));
    for text in [
        r#"{ "autoSwitchNode": false }"#,
        r#"{ "autoSwitchNode": "true" }"#,
        r#"{ "autoSwitchNode": 1 }"#,
        r#"{ "autoSwitchNode": null }"#,
        "{}",
        "true",
    ] {
        assert!(!auto_switch_enabled(Some(&json(text))), "{text}");
    }
    assert!(!auto_switch_enabled(None));
}

#[test]
fn a_real_selection_is_one_of_the_servers() {
    let with = |selected: &str| {
        json(&format!(
            r#"{{ "selectedServerId": {selected}, "servers": [{{ "id": "a" }}, {{}}, {{ "id": "b" }}] }}"#
        ))
    };
    assert!(selected_server_is_real(Some(&with(r#""a""#))));
    assert!(selected_server_is_real(Some(&with(r#""b""#))));
    assert!(!selected_server_is_real(Some(&with(r#""c""#))));
    assert!(!selected_server_is_real(Some(&with(r#""__direct__""#))));
    assert!(!selected_server_is_real(Some(&with("null"))));
    assert!(!selected_server_is_real(Some(&json(
        r#"{ "selectedServerId": "a" }"#
    ))));
    assert!(!selected_server_is_real(None));
}

#[test]
fn a_selection_reads_back_and_can_be_undone() {
    let before = json(
        r#"{ "selectedServerId": "a", "servers": [{ "id": "a", "port": 443 }], "ratio": 0.25 }"#,
    );
    let mut doc = before.clone();
    assert!(select_server(&mut doc, "b"));
    assert_eq!(selected_server_id(&doc), Some("b"));
    assert!(selects(&doc, "b"));
    assert!(!selects(&doc, "a"));
    assert_eq!(doc.get("servers"), before.get("servers"));
    assert_eq!(doc.get("ratio"), before.get("ratio"));
    assert!(select_server(&mut doc, "a"));
    assert_eq!(doc, before);
}

#[test]
fn nothing_can_be_selected_outside_an_object() {
    let mut doc = json("[1]");
    assert!(!select_server(&mut doc, "b"));
    assert_eq!(doc, json("[1]"));
    assert_eq!(selected_server_id(&doc), None);
    assert!(!selects(&doc, "b"));
}

fn mesh_config() -> Value {
    json(
        r#"{ "servers": [
            { "id": "t1", "protocol": "tailscale" },
            { "id": "w", "protocol": "wireguard" },
            { "protocol": "tailscale" },
            { "id": "t2", "protocol": "tailscale" },
            { "id": "u", "protocol": "Tailscale" }
        ] }"#,
    )
}

#[test]
fn tailscale_nodes_are_found_by_protocol() {
    assert_eq!(tailscale_node_ids(&mesh_config()), vec!["t1", "t2"]);
    assert!(tailscale_node_ids(&json("{}")).is_empty());
}

#[test]
fn tailscale_nodes_are_not_ready_unless_known_to_be() {
    let mut ready = NodeSet::new();
    ready.insert("t2".to_string());
    ready.insert("w".to_string());
    let not_ready = not_ready_ids(&mesh_config(), &ready);
    assert!(not_ready.contains("t1"));
    for id in ["t2", "w", "u", ""] {
        assert!(!not_ready.contains(id), "{id}");
    }
}
