use auto_switch::mesh::{
    auto_switch_blocked_for_generation, is_mesh_only, node_is_mesh_only, NodeTraffic, ServerConfig,
    UserConfig,
};

fn texts(list: &[&str]) -> Vec<String> {
    list.iter().map(|s| s.to_string()).collect()
}

/// A configuration of one node, which is selected.
fn cfg_with_selected(server: ServerConfig) -> UserConfig {
    UserConfig {
        selected_server_id: Some(server.id.clone()),
        servers: vec![server],
        ..UserConfig::default()
    }
}

fn wg_node(
    allow_internet: Option<bool>,
    always_route_subnets: Option<bool>,
    allowed_ips: &[&str],
) -> ServerConfig {
    ServerConfig {
        id: "n-wg".to_string(),
        traffic: NodeTraffic::Wireguard {
            warp: false,
            allow_internet,
            always_route_subnets,
            allowed_ips: texts(allowed_ips),
        },
    }
}

fn warp_node(allow_internet: Option<bool>) -> ServerConfig {
    ServerConfig {
        id: "n-wg".to_string(),
        traffic: NodeTraffic::Wireguard {
            warp: true,
            allow_internet,
            always_route_subnets: Some(false),
            allowed_ips: Vec::new(),
        },
    }
}

fn ts_node(exit_node: Option<&str>, always_route_subnets: Option<bool>) -> ServerConfig {
    ServerConfig {
        id: "n-ts".to_string(),
        traffic: NodeTraffic::Tailscale {
            exit_node: exit_node.map(str::to_string),
            always_route_subnets,
        },
    }
}

fn ovpn_node(redirect_gateway: Option<bool>, mesh_routes: &[&str]) -> ServerConfig {
    ServerConfig {
        id: "n-ovpn".to_string(),
        traffic: NodeTraffic::OpenvpnClient {
            redirect_gateway,
            mesh_routes: texts(mesh_routes),
        },
    }
}

fn ss_node() -> ServerConfig {
    ServerConfig {
        id: "n-ss".to_string(),
        traffic: NodeTraffic::Proxy,
    }
}

#[test]
fn blocked_for_generation_truth_table_mesh_exit_falls_back() {
    // WireGuard: internet traffic is on unless it is turned off.
    assert!(!auto_switch_blocked_for_generation(&cfg_with_selected(
        wg_node(None, None, &["10.9.0.0/24"])
    )));
    assert!(!auto_switch_blocked_for_generation(&cfg_with_selected(
        wg_node(Some(true), None, &["10.9.0.0/24"])
    )));
    assert!(auto_switch_blocked_for_generation(&cfg_with_selected(
        wg_node(Some(false), None, &["10.9.0.0/24"])
    )));

    // Tailscale: it is on where an exit node is chosen; white space chooses none.
    assert!(auto_switch_blocked_for_generation(&cfg_with_selected(
        ts_node(None, None)
    )));
    assert!(auto_switch_blocked_for_generation(&cfg_with_selected(
        ts_node(Some(""), None)
    )));
    assert!(auto_switch_blocked_for_generation(&cfg_with_selected(
        ts_node(Some("   "), None)
    )));
    assert!(!auto_switch_blocked_for_generation(&cfg_with_selected(
        ts_node(Some("exit-1"), None)
    )));

    // WARP is a cloud exit whatever its settings say.
    assert!(!auto_switch_blocked_for_generation(&cfg_with_selected(
        warp_node(Some(false))
    )));

    // OpenVPN: routes make it a mesh node, the gateway makes it an exit.
    assert!(auto_switch_blocked_for_generation(&cfg_with_selected(
        ovpn_node(Some(false), &["10.1.0.0/24"])
    )));
    assert!(!auto_switch_blocked_for_generation(&cfg_with_selected(
        ovpn_node(Some(false), &[])
    )));
    assert!(!auto_switch_blocked_for_generation(&cfg_with_selected(
        ovpn_node(Some(true), &["10.1.0.0/24"])
    )));
    assert!(!auto_switch_blocked_for_generation(&cfg_with_selected(
        ovpn_node(Some(true), &[])
    )));
    assert!(!auto_switch_blocked_for_generation(&cfg_with_selected(
        ovpn_node(None, &["10.1.0.0/24"])
    )));

    // Ordinary protocols know no mesh.
    assert!(!auto_switch_blocked_for_generation(&cfg_with_selected(
        ss_node()
    )));
}

#[test]
fn public_carrying_mesh_node_is_never_blocked() {
    assert!(!auto_switch_blocked_for_generation(&cfg_with_selected(
        wg_node(Some(true), Some(false), &["10.9.0.0/24"])
    )));
    assert!(auto_switch_blocked_for_generation(&cfg_with_selected(
        wg_node(Some(false), Some(false), &["10.9.0.0/24"])
    )));
}

#[test]
fn not_blocked_when_selection_is_not_a_real_node() {
    let direct = UserConfig {
        selected_server_id: Some("__direct__".to_string()),
        servers: vec![wg_node(Some(false), Some(false), &["10.9.0.0/24"])],
        ..UserConfig::default()
    };
    assert!(!auto_switch_blocked_for_generation(&direct));

    let ghost = UserConfig {
        selected_server_id: Some("ghost".to_string()),
        servers: vec![wg_node(Some(false), Some(false), &["10.9.0.0/24"])],
        ..UserConfig::default()
    };
    assert!(!auto_switch_blocked_for_generation(&ghost));

    let none_sel = UserConfig {
        selected_server_id: None,
        servers: vec![wg_node(Some(false), Some(false), &["10.9.0.0/24"])],
        ..UserConfig::default()
    };
    assert!(!auto_switch_blocked_for_generation(&none_sel));
}

#[test]
fn exit_nodes_of_any_white_space_are_none() {
    for blank in ["\t", "\n\r", "\u{3000}", "\u{a0}\u{2003}", "\u{85}"] {
        assert!(is_mesh_only(&ts_node(Some(blank), None).traffic), "{blank:?}");
    }
    for named in [" x ", "\u{200b}", "."] {
        assert!(!is_mesh_only(&ts_node(Some(named), None).traffic), "{named:?}");
    }
}

#[test]
fn the_first_node_with_the_id_decides() {
    let two = |first: Option<bool>, second: Option<bool>| UserConfig {
        selected_server_id: None,
        servers: vec![ss_node(), wg_node(first, None, &[]), wg_node(second, None, &[])],
        ..UserConfig::default()
    };
    assert!(node_is_mesh_only(&two(Some(false), None), "n-wg"));
    assert!(!node_is_mesh_only(&two(None, Some(false)), "n-wg"));
    assert!(!node_is_mesh_only(&two(Some(false), None), "n-ss"));
    assert!(!node_is_mesh_only(&two(Some(false), None), "n-w"));
}

#[test]
fn settings_of_a_switch_have_their_defaults() {
    let with = |setting: Option<bool>| UserConfig {
        interrupt_connections_on_switch: setting,
        enable_ipv6: setting,
        ..UserConfig::default()
    };
    for (setting, want) in [(None, false), (Some(false), false), (Some(true), true)] {
        assert_eq!(with(setting).interrupts_connections(), want, "{setting:?}");
        assert_eq!(with(setting).ipv6_enabled(), want, "{setting:?}");
    }
    assert_eq!(UserConfig::default().selected_server_id, None);
    assert!(UserConfig::default().servers.is_empty());
}
