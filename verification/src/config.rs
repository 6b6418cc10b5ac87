//! Questions to the raw configuration document, and the one change that failover makes to it.
use crate::candidates::{configured_entries, read_servers};
use crate::json::{array_member, json_of, member, set_text_member, text_member, Json};
use crate::node_map::NodeSet;
use crate::text::same_text;
use serde_json::Value;
use vstd::prelude::*;

verus! {

/// The selected exit of a configuration.
pub open spec fn selection(config: Json) -> Option<Seq<char>> {
    config.text_member("selectedServerId"@)
}

/// The configuration with another exit selected.
pub open spec fn with_selection(config: Json, id: Seq<char>) -> Json {
    config.with_member("selectedServerId"@, Json::Str(id))
}

/// The selected exit is one of the configured nodes.
pub open spec fn selection_is_real(config: Json) -> bool {
    &&& selection(config) is Some
    &&& configured_entries(config) is Some
    &&& exists|i: int|
        0 <= i < configured_entries(config)->0.len() && (
        #[trigger] configured_entries(config)->0[i]).id == selection(config)
}

/// A configured Tailscale node with an id.
pub open spec fn is_tailscale(server: Json) -> bool {
    server.text_member("id"@) is Some && server.text_member("protocol"@) == Some("tailscale"@)
}

/// The ids of the configured Tailscale nodes, in the order of the server list.
pub open spec fn tailscale_ids(config: Json) -> Seq<Seq<char>> {
    match config.array_member("servers"@) {
        Some(servers) => servers.filter(|s: Json| is_tailscale(s)).map_values(
            |s: Json| s.text_member("id"@)->0,
        ),
        None => Seq::empty(),
    }
}

/// The Tailscale nodes of a configuration that are not among the ready ones.
pub open spec fn not_ready(config: Json, exit_ready: Set<Seq<char>>) -> Set<Seq<char>> {
    tailscale_ids(config).to_set().difference(exit_ready)
}

/// The selected exit of `config`, if it names one.
pub fn selected_server_id<'a>(config: &'a Value) -> (r: Option<&'a str>)
    ensures
        match r {
            Some(id) => selection(json_of(*config)) == Some(id@),
            None => selection(json_of(*config)) is None,
        },
{
    text_member(config, "selectedServerId")
}

/// Whether the selected exit of `config` is `id`.
pub fn selects(config: &Value, id: &str) -> (r: bool)
    ensures
        r == (selection(json_of(*config)) == Some(id@)),
{
    match selected_server_id(config) {
        Some(selected) => same_text(selected, id),
        None => false,
    }
}

/// Selects the exit `id` in `config` and changes nothing else; `false`, and no change, where the
/// document is no object.
pub fn select_server(config: &mut Value, id: &str) -> (r: bool)
    ensures
        r == (json_of(*old(config)) is Object),
        r ==> json_of(*final(config)) == with_selection(json_of(*old(config)), id@),
        !r ==> *final(config) == *old(config),
{
    set_text_member(config, "selectedServerId", id)
}

/// Whether the configuration turns automatic failover on. One that could not be read does not.
pub fn auto_switch_enabled(config: Option<&Value>) -> (r: bool)
    ensures
        r == match config {
            Some(config) => json_of(*config).bool_member("autoSwitchNode"@) == Some(true),
            None => false,
        },
{
    match config {
        Some(config) => match member(config, "autoSwitchNode") {
            Some(setting) => match setting.as_bool() {
                Some(on) => on,
                None => false,
            },
            None => false,
        },
        None => false,
    }
}

/// Whether the selected exit is one of the configured nodes. It is not where nothing is selected,
/// where the direct exit is, where the selected node was deleted, and where the configuration could
/// not be read.
pub fn selected_server_is_real(config: Option<&Value>) -> (r: bool)
    ensures
        r == match config {
            Some(config) => selection_is_real(json_of(*config)),
            None => false,
        },
{
    let document = match config {
        Some(document) => document,
        None => {
            return false;
        },
    };
    let selected = match selected_server_id(document) {
        Some(selected) => selected,
        None => {
            return false;
        },
    };
    let entries = match read_servers(document) {
        Some(entries) => entries,
        None => {
            return false;
        },
    };
    let ghost views = configured_entries(json_of(*document))->0;
    let mut i: usize = 0;
    while i < entries.len()
        invariant
            i <= entries@.len(),
            config == Some(document),
            views.len() == entries@.len(),
            configured_entries(json_of(*document)) == Some(views),
            selection(json_of(*document)) == Some(selected@),
            forall|j: int| 0 <= j < entries@.len() ==> #[trigger] views[j] == entries@[j]@,
            forall|j: int| 0 <= j < i ==> (#[trigger] views[j]).id != Some(selected@),
        decreases entries@.len() - i,
    {
        if let Some(id) = &entries[i].id {
            if same_text(id.as_str(), selected) {
                assert(configured_entries(json_of(*document))->0[i as int].id == Some(selected@));
                return true;
            }
        }
        i = i + 1;
    }
    false
}

proof fn lemma_tailscale_push(servers: Seq<Json>, s: Json)
    ensures
        servers.push(s).filter(|s: Json| is_tailscale(s)).map_values(
            |s: Json| s.text_member("id"@)->0,
        ) == if is_tailscale(s) {
            servers.filter(|s: Json| is_tailscale(s)).map_values(
                |s: Json| s.text_member("id"@)->0,
            ).push(s.text_member("id"@)->0)
        } else {
            servers.filter(|s: Json| is_tailscale(s)).map_values(|s: Json| s.text_member("id"@)->0)
        },
{
    reveal(Seq::filter);
    assert(servers.push(s).drop_last() == servers);
    if is_tailscale(s) {
        let kept = servers.filter(|s: Json| is_tailscale(s));
        assert(kept.push(s).map_values(|s: Json| s.text_member("id"@)->0) =~= kept.map_values(
            |s: Json| s.text_member("id"@)->0,
        ).push(s.text_member("id"@)->0));
    }
}

/// The characters of a list of strings.
pub open spec fn string_views(strings: Seq<String>) -> Seq<Seq<char>> {
    strings.map_values(|s: String| s@)
}

/// The ids of the Tailscale nodes of `config`, whose readiness only the runtime knows.
pub fn tailscale_node_ids(config: &Value) -> (r: Vec<String>)
    ensures
        string_views(r@) == tailscale_ids(json_of(*config)),
{
    let mut ids: Vec<String> = Vec::new();
    let servers = match array_member(config, "servers") {
        Some(servers) => servers,
        None => {
            assert(string_views(ids@) =~= tailscale_ids(json_of(*config)));
            return ids;
        },
    };
    let ghost docs = servers@.map_values(|item: Value| json_of(item));
    proof {
        reveal(Seq::filter);
        assert(docs.take(0) =~= Seq::empty());
        assert(string_views(ids@) =~= docs.take(0).filter(|s: Json| is_tailscale(s)).map_values(
            |s: Json| s.text_member("id"@)->0,
        ));
    }
    let mut i: usize = 0;
    while i < servers.len()
        invariant
            i <= servers@.len(),
            docs == servers@.map_values(|item: Value| json_of(item)),
            string_views(ids@) == docs.take(i as int).filter(
                |s: Json| is_tailscale(s),
            ).map_values(|s: Json| s.text_member("id"@)->0),
        decreases servers@.len() - i,
    {
        let ghost before = ids@;
        proof {
            assert(docs.take(i + 1) =~= docs.take(i as int).push(docs[i as int]));
            lemma_tailscale_push(docs.take(i as int), docs[i as int]);
        }
        let id = text_member(&servers[i], "id");
        let tailscale = match text_member(&servers[i], "protocol") {
            Some(protocol) => same_text(protocol, "tailscale"),
            None => false,
        };
        if let Some(id) = id {
            if tailscale {
                ids.push(id.to_owned());
                assert(string_views(ids@) =~= string_views(before).push(id@));
            }
        }
        i = i + 1;
    }
    assert(docs.take(servers@.len() as int) =~= docs);
    ids
}

/// The Tailscale nodes of `config` that are not ready to serve as exit: all but those in
/// `exit_ready`. Nodes of other protocols need no readiness.
pub fn not_ready_ids(config: &Value, exit_ready: &NodeSet) -> (r: NodeSet)
    ensures
        r@ == not_ready(json_of(*config), exit_ready@),
{
    let ids = tailscale_node_ids(config);
    let ghost all = tailscale_ids(json_of(*config));
    let mut not_ready: NodeSet = NodeSet::new();
    let mut i: usize = 0;
    while i < ids.len()
        invariant
            i <= ids@.len(),
            all == string_views(ids@),
            forall|id: Seq<char>|
                not_ready@.contains(id) <==> all.take(i as int).contains(id)
                    && !exit_ready@.contains(id),
        decreases ids@.len() - i,
    {
        let ghost before = not_ready@;
        proof {
            let seen = all.take(i as int);
            assert(all.take(i + 1) =~= seen.push(ids@[i as int]@));
            assert forall|id: Seq<char>| #[trigger]
                all.take(i + 1).contains(id) <==> seen.contains(id) || id == ids@[i as int]@ by {
                if seen.contains(id) {
                    let k = choose|k: int| 0 <= k < seen.len() && seen[k] == id;
                    assert(seen.push(ids@[i as int]@)[k] == id);
                }
                assert(seen.push(ids@[i as int]@)[i as int] == ids@[i as int]@);
            }
        }
        if !exit_ready.contains(ids[i].as_str()) {
            not_ready.insert(ids[i].clone());
        }
        i = i + 1;
    }
    assert(all.take(ids@.len() as int) =~= all);
    assert(not_ready@ =~= all.to_set().difference(exit_ready@));
    not_ready
}

/// Selecting an exit makes it the selected one.
pub proof fn law_selection_reads_back(config: Json, id: Seq<char>)
    requires
        config is Object,
    ensures
        selection(with_selection(config, id)) == Some(id),
{
}

/// Selecting an exit leaves every other member of the configuration as it is.
pub proof fn law_selection_touches_nothing_else(config: Json, id: Seq<char>, key: Seq<char>)
    requires
        key != "selectedServerId"@,
    ensures
        with_selection(config, id).member(key) == config.member(key),
{
}

/// Selecting the former exit again restores the configuration as it was.
pub proof fn law_selection_can_be_undone(config: Json, former: Seq<char>, id: Seq<char>)
    requires
        selection(config) == Some(former),
    ensures
        with_selection(with_selection(config, id), former) == config,
{
    let members = config->Object_0;
    assert(members.insert("selectedServerId"@, Json::Str(id)).insert(
        "selectedServerId"@,
        Json::Str(former),
    ) =~= members);
}

} // verus!
