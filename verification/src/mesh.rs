//! Mesh nodes as exits: whether the selected node carries internet traffic at all.
use crate::text::{blank, is_blank, same_text};
use vstd::prelude::*;

verus! {

/// What the configuration of a node says of the traffic it carries.
#[derive(Debug, PartialEq, Eq)]
pub enum NodeTraffic {
    Wireguard {
        /// An anycast cloud exit, which carries internet traffic whatever its settings say.
        warp: bool,
        /// Carries internet traffic unless turned off.
        allow_internet: Option<bool>,
        always_route_subnets: Option<bool>,
        allowed_ips: Vec<String>,
    },
    Tailscale {
        /// The peer that internet traffic leaves by, if one is chosen.
        exit_node: Option<String>,
        always_route_subnets: Option<bool>,
    },
    OpenvpnClient {
        /// Carries internet traffic unless turned off.
        redirect_gateway: Option<bool>,
        /// Subnets behind the node; with none it is no mesh node but an ordinary exit.
        mesh_routes: Vec<String>,
    },
    /// A protocol without mesh networking.
    Proxy,
}

/// A configured node.
#[derive(Debug, PartialEq, Eq)]
pub struct ServerConfig {
    pub id: String,
    pub traffic: NodeTraffic,
}

/// The part of the user's configuration that decides about exits.
#[derive(Debug, PartialEq, Eq)]
pub struct UserConfig {
    pub selected_server_id: Option<String>,
    pub servers: Vec<ServerConfig>,
    /// Close the connections over the old exit after a switch.
    pub interrupt_connections_on_switch: Option<bool>,
    pub enable_ipv6: Option<bool>,
}

impl Default for UserConfig {
    fn default() -> (r: Self)
        ensures
            r.selected_server_id is None,
            r.servers@.len() == 0,
            r.interrupt_connections_on_switch is None,
            r.enable_ipv6 is None,
    {
        UserConfig {
            selected_server_id: None,
            servers: Vec::new(),
            interrupt_connections_on_switch: None,
            enable_ipv6: None,
        }
    }
}

impl NodeTraffic {
    /// A node that belongs to a mesh network with subnets of its own.
    pub open spec fn is_mesh(self) -> bool {
        match self {
            NodeTraffic::Wireguard { .. } => true,
            NodeTraffic::Tailscale { .. } => true,
            NodeTraffic::OpenvpnClient { mesh_routes, .. } => mesh_routes@.len() > 0,
            NodeTraffic::Proxy => false,
        }
    }

    /// A node over which internet traffic can leave.
    pub open spec fn carries_internet(self) -> bool {
        match self {
            NodeTraffic::Wireguard { warp, allow_internet, .. } => warp || allow_internet != Some(
                false,
            ),
            NodeTraffic::Tailscale { exit_node, .. } => match exit_node {
                Some(exit_node) => !blank(exit_node@),
                None => false,
            },
            NodeTraffic::OpenvpnClient { redirect_gateway, .. } => redirect_gateway != Some(false),
            NodeTraffic::Proxy => true,
        }
    }

    /// A mesh node whose internet traffic is turned off: it reaches its own subnets only.
    pub open spec fn mesh_only(self) -> bool {
        self.is_mesh() && !self.carries_internet()
    }
}

/// The index of the node `id`, the first of several; the length where there is none.
pub open spec fn node_index(servers: Seq<ServerConfig>, id: Seq<char>) -> int
    decreases servers.len(),
{
    if servers.len() == 0 {
        0
    } else if node_index(servers.drop_last(), id) < servers.len() - 1 {
        node_index(servers.drop_last(), id)
    } else if servers.last().id@ == id {
        servers.len() - 1
    } else {
        servers.len() as int
    }
}

impl UserConfig {
    /// Connections are closed after a switch. They are kept unless the setting says otherwise.
    pub open spec fn interrupts(self) -> bool {
        self.interrupt_connections_on_switch == Some(true)
    }

    /// The routes of the exit include IPv6. They do not unless the setting says so.
    pub open spec fn uses_ipv6(self) -> bool {
        self.enable_ipv6 == Some(true)
    }

    /// Whether connections are closed after a switch.
    pub fn interrupts_connections(&self) -> (r: bool)
        ensures
            r == self.interrupts(),
    {
        match self.interrupt_connections_on_switch {
            Some(interrupt) => interrupt,
            None => false,
        }
    }

    /// Whether the routes of the exit include IPv6.
    pub fn ipv6_enabled(&self) -> (r: bool)
        ensures
            r == self.uses_ipv6(),
    {
        match self.enable_ipv6 {
            Some(enabled) => enabled,
            None => false,
        }
    }

    /// The node `id` is configured and is mesh-only.
    pub open spec fn mesh_only(self, id: Seq<char>) -> bool {
        let i = node_index(self.servers@, id);
        i < self.servers@.len() && self.servers@[i].traffic.mesh_only()
    }

    /// The selected node is a configured one that is mesh-only, so that all traffic of the user
    /// goes out directly.
    pub open spec fn exit_falls_back_to_direct(self) -> bool {
        self.selected_server_id is Some && self.mesh_only(self.selected_server_id->0@)
    }
}

pub proof fn law_node_index_is_the_first(servers: Seq<ServerConfig>, id: Seq<char>)
    ensures
        0 <= node_index(servers, id) <= servers.len(),
        node_index(servers, id) < servers.len() ==> servers[node_index(servers, id)].id@ == id,
        forall|j: int| 0 <= j < node_index(servers, id) ==> (#[trigger] servers[j]).id@ != id,
    decreases servers.len(),
{
    if servers.len() > 0 {
        let rest = servers.drop_last();
        law_node_index_is_the_first(rest, id);
        assert forall|j: int| 0 <= j < node_index(servers, id) implies (#[trigger] servers[j]).id@
            != id by {
            if j < rest.len() {
                assert(servers[j] == rest[j]);
            }
        }
    }
}

/// Whether a node belongs to a mesh network.
pub fn is_mesh_node(traffic: &NodeTraffic) -> (r: bool)
    ensures
        r == traffic.is_mesh(),
{
    match traffic {
        NodeTraffic::Wireguard { .. } => true,
        NodeTraffic::Tailscale { .. } => true,
        NodeTraffic::OpenvpnClient { mesh_routes, .. } => mesh_routes.len() > 0,
        NodeTraffic::Proxy => false,
    }
}

/// Whether internet traffic can leave over a node.
pub fn node_carries_internet(traffic: &NodeTraffic) -> (r: bool)
    ensures
        r == traffic.carries_internet(),
{
    match traffic {
        NodeTraffic::Wireguard { warp, allow_internet, .. } => *warp || match allow_internet {
            Some(allowed) => *allowed,
            None => true,
        },
        NodeTraffic::Tailscale { exit_node, .. } => match exit_node {
            Some(exit_node) => !is_blank(exit_node.as_str()),
            None => false,
        },
        NodeTraffic::OpenvpnClient { redirect_gateway, .. } => match redirect_gateway {
            Some(redirected) => *redirected,
            None => true,
        },
        NodeTraffic::Proxy => true,
    }
}

/// Whether a node is a mesh node whose internet traffic is turned off.
pub fn is_mesh_only(traffic: &NodeTraffic) -> (r: bool)
    ensures
        r == traffic.mesh_only(),
{
    is_mesh_node(traffic) && !node_carries_internet(traffic)
}

/// Whether the node `id` is configured and is mesh-only.
pub fn node_is_mesh_only(config: &UserConfig, id: &str) -> (r: bool)
    ensures
        r == config.mesh_only(id@),
{
    let mut i: usize = 0;
    proof {
        law_node_index_is_the_first(config.servers@, id@);
    }
    while i < config.servers.len()
        invariant
            i <= config.servers@.len(),
            0 <= node_index(config.servers@, id@) <= config.servers@.len(),
            node_index(config.servers@, id@) < config.servers@.len() ==> config.servers@[node_index(
                config.servers@,
                id@,
            )].id@ == id@,
            forall|j: int|
                0 <= j < node_index(config.servers@, id@) ==> (#[trigger] config.servers@[j]).id@
                    != id@,
            i <= node_index(config.servers@, id@),
        decreases config.servers@.len() - i,
    {
        if same_text(config.servers[i].id.as_str(), id) {
            assert(node_index(config.servers@, id@) == i);
            return is_mesh_only(&config.servers[i].traffic);
        }
        i = i + 1;
    }
    false
}

/// Whether failover stands still for a whole core generation: the selected node is a mesh node
/// without internet traffic.
///
/// The probe inbound is pinned to the selector while the user's traffic goes out directly, so a
/// probe would measure a path that nobody uses. A mesh node that does carry internet traffic is
/// never a reason, whatever subnets it routes.
#[must_use]
pub fn auto_switch_blocked_for_generation(config: &UserConfig) -> (r: bool)
    ensures
        r == config.exit_falls_back_to_direct(),
{
    match &config.selected_server_id {
        Some(id) => node_is_mesh_only(config, id.as_str()),
        None => false,
    }
}

/// A selection that is no configured node never blocks a generation.
pub proof fn law_unknown_selection_never_blocks(config: UserConfig)
    requires
        config.selected_server_id is Some ==> forall|i: int|
            0 <= i < config.servers@.len() ==> (#[trigger] config.servers@[i]).id@
                != config.selected_server_id->0@,
    ensures
        !config.exit_falls_back_to_direct(),
{
    if config.selected_server_id is Some {
        law_node_index_is_the_first(config.servers@, config.selected_server_id->0@);
    }
}

/// A selected node that carries internet traffic never blocks a generation, whatever subnets it
/// routes and whether or not it always routes them; neither does one that belongs to no mesh.
pub proof fn law_internet_exits_never_block(config: UserConfig)
    requires
        config.selected_server_id is Some,
        ({
            let i = node_index(config.servers@, config.selected_server_id->0@);
            0 <= i < config.servers@.len() ==> config.servers@[i].traffic.carries_internet()
                || !config.servers@[i].traffic.is_mesh()
        }),
    ensures
        !config.exit_falls_back_to_direct(),
{
    law_node_index_is_the_first(config.servers@, config.selected_server_id->0@);
}

/// How a WireGuard node routes its subnets has no say in whether it carries internet traffic.
pub proof fn law_subnets_have_no_say(
    warp: bool,
    allow_internet: Option<bool>,
    always: Option<bool>,
    other_always: Option<bool>,
    ips: Vec<String>,
    other_ips: Vec<String>,
)
    ensures
        (NodeTraffic::Wireguard {
            warp,
            allow_internet,
            always_route_subnets: always,
            allowed_ips: ips,
        }).mesh_only() == (NodeTraffic::Wireguard {
            warp,
            allow_internet,
            always_route_subnets: other_always,
            allowed_ips: other_ips,
        }).mesh_only(),
{
}

} // verus!
