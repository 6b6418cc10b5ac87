//! What is read of a configuration, over the document itself.
use crate::config::{
    is_tailscale, not_ready, selection, selection_is_real, tailscale_ids, with_selection,
};
use crate::json::Json;
use crate::mesh::{law_node_index_is_the_first, NodeTraffic, UserConfig};
use crate::text::{blank, is_white_space};
use vstd::prelude::*;

verus! {

/// Members are read off objects only: the text, the list and the flag under a name are there exactly
/// where the object has that name and its value is of that kind, and are then that very value.
pub proof fn law_members_are_read_by_their_kind(
    members: Map<Seq<char>, Json>,
    key: Seq<char>,
    text: Seq<char>,
    items: Seq<Json>,
    flag: bool,
)
    ensures
        ({
            let o = Json::Object(members);
            &&& o.member(key) == if members.contains_key(key) {
                Some(members[key])
            } else {
                None
            }
            &&& o.text_member(key) == Some(text) <==> members.contains_key(key) && members[key]
                == Json::Str(text)
            &&& o.text_member(key) is Some <==> members.contains_key(key) && members[key] is Str
            &&& o.array_member(key) == Some(items) <==> members.contains_key(key) && members[key]
                == Json::Array(items)
            &&& o.array_member(key) is Some <==> members.contains_key(key) && members[key] is Array
            &&& o.bool_member(key) == Some(flag) <==> members.contains_key(key) && members[key]
                == Json::Bool(flag)
            &&& o.bool_member(key) is Some <==> members.contains_key(key) && members[key] is Bool
        }),
{
}

/// Anything but an object has no members, and none can be set in it.
pub proof fn law_only_objects_have_members(doc: Json, key: Seq<char>, value: Json)
    requires
        !(doc is Object),
    ensures
        doc.member(key) is None,
        doc.text_member(key) is None,
        doc.array_member(key) is None,
        doc.bool_member(key) is None,
        doc.with_member(key, value) == doc,
{
}

/// Setting a member of an object sets that one, and leaves the others as they are.
pub proof fn law_setting_a_member_sets_that_one(
    members: Map<Seq<char>, Json>,
    key: Seq<char>,
    other: Seq<char>,
    value: Json,
)
    requires
        other != key,
    ensures
        ({
            let o = Json::Object(members);
            &&& o.with_member(key, value) is Object
            &&& o.with_member(key, value).member(key) == Some(value)
            &&& o.with_member(key, value).member(other) == o.member(other)
            &&& o.with_member(key, value) == Json::Object(members.insert(key, value))
        }),
{
}

/// The selected exit is the text under its name, and selecting one changes that text only.
pub proof fn law_selection_is_one_text(config: Json, id: Seq<char>)
    ensures
        selection(config) == config.text_member("selectedServerId"@),
        config is Object ==> with_selection(config, id) == Json::Object(
            config->Object_0.insert("selectedServerId"@, Json::Str(id)),
        ),
{
}

/// The selection is real exactly where some configured server has the selected id.
pub proof fn law_real_selection_is_a_server(config: Json)
    ensures
        selection_is_real(config) <==> {
            &&& config.text_member("selectedServerId"@) is Some
            &&& config.array_member("servers"@) is Some
            &&& exists|i: int|
                0 <= i < config.array_member("servers"@)->0.len() && (
                #[trigger] config.array_member("servers"@)->0[i]).text_member("id"@)
                    == config.text_member("selectedServerId"@)
        },
{
    if config.array_member("servers"@) is Some {
        let servers = config.array_member("servers"@)->0;
        let entries = crate::candidates::configured_entries(config)->0;
        assert forall|i: int| 0 <= i < servers.len() implies #[trigger] entries[i].id
            == servers[i].text_member("id"@) by {}
        if selection_is_real(config) {
            let i = choose|i: int|
                0 <= i < entries.len() && (#[trigger] entries[i]).id == selection(config);
            assert(servers[i].text_member("id"@) == selection(config));
        }
        if exists|i: int|
            0 <= i < servers.len() && (#[trigger] servers[i]).text_member("id"@) == selection(
                config,
            ) {
            let i = choose|i: int|
                0 <= i < servers.len() && (#[trigger] servers[i]).text_member("id"@) == selection(
                    config,
                );
            assert(entries[i].id == selection(config));
        }
    }
}

/// Without a server list there are no Tailscale ids.
pub proof fn law_no_servers_no_tailscale_ids(config: Json)
    requires
        config.array_member("servers"@) is None,
    ensures
        tailscale_ids(config).len() == 0,
{
}

/// The Tailscale ids are those of the servers of that protocol, in their order.
pub proof fn law_tailscale_ids_are_those_of_the_protocol(config: Json)
    requires
        config.array_member("servers"@) is Some,
    ensures
        tailscale_ids(config) == config.array_member("servers"@)->0.filter(
            |s: Json|
                s.text_member("id"@) is Some && s.text_member("protocol"@) == Some("tailscale"@),
        ).map_values(|s: Json| s.text_member("id"@)->0),
{
    let servers = config.array_member("servers"@)->0;
    crate::sequences::lemma_filter_image(
        servers,
        |s: Json| s,
        |s: Json| is_tailscale(s),
        |s: Json| s.text_member("id"@) is Some && s.text_member("protocol"@) == Some("tailscale"@),
        |s: Json| s.text_member("id"@)->0,
        |s: Json| s.text_member("id"@)->0,
    );
    assert(servers.map_values(|s: Json| s) =~= servers);
}

/// A node is not ready exactly where some server of that id is configured for Tailscale and the id
/// is not among the exits that are ready.
pub proof fn law_not_ready_are_the_unready_tailscale_nodes(
    config: Json,
    exit_ready: Set<Seq<char>>,
    id: Seq<char>,
)
    ensures
        config.array_member("servers"@) is None ==> !not_ready(config, exit_ready).contains(id),
        config.array_member("servers"@) is Some ==> (not_ready(config, exit_ready).contains(id)
            <==> exists|j: int|
            {
                &&& 0 <= j < config.array_member("servers"@)->0.len()
                &&& (#[trigger] config.array_member("servers"@)->0[j]).text_member("id"@) == Some(
                    id,
                )
                &&& config.array_member("servers"@)->0[j].text_member("protocol"@) == Some(
                    "tailscale"@,
                )
                &&& !exit_ready.contains(id)
            }),
{
    if config.array_member("servers"@) is Some {
        let servers = config.array_member("servers"@)->0;
        let pick = |s: Json| is_tailscale(s);
        let list = servers.filter(pick);
        let ids = tailscale_ids(config);
        if not_ready(config, exit_ready).contains(id) {
            assert(ids.contains(id));
            let k = choose|k: int| 0 <= k < ids.len() && ids[k] == id;
            assert(list.contains(list[k]));
            servers.lemma_filter_contains_rev(pick, list[k]);
            servers.lemma_filter_pred(pick, k);
            let j = choose|j: int| 0 <= j < servers.len() && servers[j] == list[k];
            assert(servers[j].text_member("id"@) == Some(id));
        }
        if exists|j: int|
            {
                &&& 0 <= j < servers.len()
                &&& (#[trigger] servers[j]).text_member("id"@) == Some(id)
                &&& servers[j].text_member("protocol"@) == Some("tailscale"@)
                &&& !exit_ready.contains(id)
            } {
            let j = choose|j: int|
                {
                    &&& 0 <= j < servers.len()
                    &&& (#[trigger] servers[j]).text_member("id"@) == Some(id)
                    &&& servers[j].text_member("protocol"@) == Some("tailscale"@)
                    &&& !exit_ready.contains(id)
                };
            servers.lemma_filter_contains(pick, j);
            let k = choose|k: int| 0 <= k < list.len() && list[k] == servers[j];
            assert(ids[k] == id);
            assert(ids.contains(id));
        }
    }
}

/// A text is blank exactly where both halves are, however it is cut; the empty one is, and one
/// character is where it is white space.
pub proof fn law_blank_texts_are_blank_all_through(a: Seq<char>, b: Seq<char>, c: char)
    ensures
        blank(Seq::empty()),
        blank(seq![c]) <==> is_white_space(c),
        blank(a + b) <==> blank(a) && blank(b),
{
    assert(seq![c][0] == c);
    if blank(a + b) {
        assert forall|i: int| 0 <= i < a.len() implies is_white_space(#[trigger] a[i]) by {
            assert((a + b)[i] == a[i]);
        }
        assert forall|i: int| 0 <= i < b.len() implies is_white_space(#[trigger] b[i]) by {
            assert((a + b)[a.len() + i] == b[i]);
        }
    }
}

/// A WireGuard node is mesh-only exactly where it is no cloud exit and its internet traffic is
/// turned off.
pub proof fn law_wireguard_is_mesh_only_when_turned_off(traffic: NodeTraffic)
    ensures
        traffic matches NodeTraffic::Wireguard { warp, allow_internet, .. } ==> (traffic.mesh_only()
            <==> !warp && allow_internet == Some(false)),
{
}

/// A Tailscale node is mesh-only exactly where no exit node is chosen; white space chooses none.
pub proof fn law_tailscale_is_mesh_only_without_exit_node(traffic: NodeTraffic)
    ensures
        traffic matches NodeTraffic::Tailscale { exit_node, .. } ==> (traffic.mesh_only() <==> (
        exit_node is None || forall|i: int|
            0 <= i < exit_node->0@.len() ==> is_white_space(#[trigger] exit_node->0@[i]))),
{
}

/// An OpenVPN node is mesh-only exactly where it has routes of its own and its gateway is turned
/// off; a node of any other protocol never is.
pub proof fn law_openvpn_is_mesh_only_with_routes_and_no_gateway(traffic: NodeTraffic)
    ensures
        traffic matches NodeTraffic::OpenvpnClient { redirect_gateway, mesh_routes } ==> (
        traffic.mesh_only() <==> redirect_gateway == Some(false) && mesh_routes@.len() > 0),
        traffic is Proxy ==> !traffic.mesh_only(),
{
}

/// Of the nodes with an id, the first one decides whether the id is mesh-only; one that is not
/// configured is not.
pub proof fn law_first_node_decides(config: UserConfig, id: Seq<char>, i: int)
    requires
        0 <= i < config.servers@.len(),
        config.servers@[i].id@ == id,
        forall|j: int| 0 <= j < i ==> (#[trigger] config.servers@[j]).id@ != id,
    ensures
        config.mesh_only(id) == config.servers@[i].traffic.mesh_only(),
{
    law_node_index_is_the_first(config.servers@, id);
}

/// An id that is not configured is not mesh-only.
pub proof fn law_unknown_node_is_not_mesh_only(config: UserConfig, id: Seq<char>)
    requires
        forall|j: int| 0 <= j < config.servers@.len() ==> (#[trigger] config.servers@[j]).id@ != id,
    ensures
        !config.mesh_only(id),
{
    law_node_index_is_the_first(config.servers@, id);
}

/// A generation is blocked exactly where something is selected and the selected node is mesh-only.
pub proof fn law_generation_is_blocked_by_its_selection(config: UserConfig)
    ensures
        config.selected_server_id is None ==> !config.exit_falls_back_to_direct(),
        config.selected_server_id matches Some(id) ==> (config.exit_falls_back_to_direct()
            <==> config.mesh_only(id@)),
{
}

/// Neither setting of a switch is in force unless it is turned on.
pub proof fn law_settings_must_be_turned_on(config: UserConfig)
    ensures
        config.interrupts() <==> config.interrupt_connections_on_switch == Some(true),
        config.uses_ipv6() <==> config.enable_ipv6 == Some(true),
{
}

} // verus!
