//! What candidate planning says of each configured server, over the very tables it is given.
use crate::candidates::{
    configured_entries, entry_of, law_candidates_are_fit, roster_of, CandidateView, EntryView, Fate,
    Roster,
};
use crate::config::selection;
use crate::json::Json;
use crate::node_map::{NodeMap, NodeSet};
use crate::reading_laws::law_not_ready_are_the_unready_tailscale_nodes;
use crate::round::{round_roster, ProbeTargets};
use crate::sequences::lemma_filter_image;
use crate::transaction::StagedNodeMask;
use vstd::prelude::*;

verus! {

/// Planning follows its tables, server by server and in their order. A server becomes a candidate
/// exactly where it has an id, is not the current exit, is touched by no draft, is loaded in the
/// running core, has one and the same fingerprint there and in the saved configuration, and is
/// ready; it then goes by its name, or its id for want of one, under the tag it is loaded with.
/// Every other one that has an id and is not the current exit is counted under the first of these
/// that it fails.
pub proof fn law_plan_follows_the_tables(
    config: Json,
    current_id: Option<&str>,
    id_to_tag: &NodeMap<String>,
    running_fingerprints: &NodeMap<String>,
    current_fingerprints: &NodeMap<String>,
    staged_node_ids: &NodeSet,
    not_ready_ids: &NodeSet,
)
    requires
        config.array_member("servers"@) is Some,
    ensures
        ({
            let servers = config.array_member("servers"@)->0;
            let current = match current_id {
                Some(id) => Some(id@),
                None => None,
            };
            let plan = roster_of(
                current_id,
                id_to_tag,
                running_fingerprints,
                current_fingerprints,
                staged_node_ids,
                not_ready_ids,
            ).plan_config(config);
            &&& plan.candidates == servers.filter(
                |s: Json|
                    {
                        let id = s.text_member("id"@);
                        &&& id is Some && id != current
                        &&& !staged_node_ids@.contains(id->0)
                        &&& id_to_tag@.contains_key(id->0)
                        &&& running_fingerprints@.contains_key(id->0)
                            && current_fingerprints@.contains_key(id->0)
                            && running_fingerprints@[id->0]@ == current_fingerprints@[id->0]@
                        &&& !(not_ready_ids@.contains(id->0))
                    },
            ).map_values(
                |s: Json|
                    CandidateView {
                        id: s.text_member("id"@)->0,
                        name: if s.text_member("name"@) is Some {
                            s.text_member("name"@)->0
                        } else {
                            s.text_member("id"@)->0
                        },
                        tag: id_to_tag@[s.text_member("id"@)->0]@,
                    },
            )
            &&& plan.staged == servers.filter(
                |s: Json|
                    {
                        let id = s.text_member("id"@);
                        &&& id is Some && id != current
                        &&& staged_node_ids@.contains(id->0)
                    },
            ).len()
            &&& plan.not_loaded == servers.filter(
                |s: Json|
                    {
                        let id = s.text_member("id"@);
                        &&& id is Some && id != current
                        &&& !staged_node_ids@.contains(id->0)
                        &&& !id_to_tag@.contains_key(id->0)
                    },
            ).len()
            &&& plan.dirty == servers.filter(
                |s: Json|
                    {
                        let id = s.text_member("id"@);
                        &&& id is Some && id != current
                        &&& !staged_node_ids@.contains(id->0)
                        &&& id_to_tag@.contains_key(id->0)
                        &&& !(running_fingerprints@.contains_key(id->0)
                            && current_fingerprints@.contains_key(id->0)
                            && running_fingerprints@[id->0]@ == current_fingerprints@[id->0]@)
                    },
            ).len()
            &&& plan.not_ready == servers.filter(
                |s: Json|
                    {
                        let id = s.text_member("id"@);
                        &&& id is Some && id != current
                        &&& !staged_node_ids@.contains(id->0)
                        &&& id_to_tag@.contains_key(id->0)
                        &&& running_fingerprints@.contains_key(id->0)
                            && current_fingerprints@.contains_key(id->0)
                            && running_fingerprints@[id->0]@ == current_fingerprints@[id->0]@
                        &&& not_ready_ids@.contains(id->0)
                    },
            ).len()
            &&& plan.not_exit == 0
            &&& plan.needs_restart == 0
        }),
{
    let servers = config.array_member("servers"@)->0;
    let current = match current_id {
        Some(id) => Some(id@),
        None => None,
    };
    let roster = roster_of(
        current_id,
        id_to_tag,
        running_fingerprints,
        current_fingerprints,
        staged_node_ids,
        not_ready_ids,
    );
    let f = |s: Json| entry_of(s);
    let f_entry = |e: EntryView| e;
    lemma_filter_image(
        servers,
        f,
        |e: EntryView| roster.fate(e) == Fate::Eligible,
        |s: Json|
            {
                let id = s.text_member("id"@);
                &&& id is Some && id != current
                &&& !staged_node_ids@.contains(id->0)
                &&& id_to_tag@.contains_key(id->0)
                &&& running_fingerprints@.contains_key(id->0)
                    && current_fingerprints@.contains_key(id->0)
                    && running_fingerprints@[id->0]@ == current_fingerprints@[id->0]@
                &&& !(not_ready_ids@.contains(id->0))
            },
        |e: EntryView| roster.candidate(e),
        |s: Json|
            CandidateView {
                id: s.text_member("id"@)->0,
                name: if s.text_member("name"@) is Some {
                    s.text_member("name"@)->0
                } else {
                    s.text_member("id"@)->0
                },
                tag: id_to_tag@[s.text_member("id"@)->0]@,
            },
    );
    lemma_filter_image(
        servers,
        f,
        |e: EntryView| roster.fate(e) == Fate::Staged,
        |s: Json|
            {
                let id = s.text_member("id"@);
                &&& id is Some && id != current
                &&& staged_node_ids@.contains(id->0)
            },
        f_entry,
        f,
    );
    lemma_filter_image(
        servers,
        f,
        |e: EntryView| roster.fate(e) == Fate::NotLoaded,
        |s: Json|
            {
                let id = s.text_member("id"@);
                &&& id is Some && id != current
                &&& !staged_node_ids@.contains(id->0)
                &&& !id_to_tag@.contains_key(id->0)
            },
        f_entry,
        f,
    );
    lemma_filter_image(
        servers,
        f,
        |e: EntryView| roster.fate(e) == Fate::Dirty,
        |s: Json|
            {
                let id = s.text_member("id"@);
                &&& id is Some && id != current
                &&& !staged_node_ids@.contains(id->0)
                &&& id_to_tag@.contains_key(id->0)
                &&& !(running_fingerprints@.contains_key(id->0)
                    && current_fingerprints@.contains_key(id->0)
                    && running_fingerprints@[id->0]@ == current_fingerprints@[id->0]@)
            },
        f_entry,
        f,
    );
    lemma_filter_image(
        servers,
        f,
        |e: EntryView| roster.fate(e) == Fate::NotReady,
        |s: Json|
            {
                let id = s.text_member("id"@);
                &&& id is Some && id != current
                &&& !staged_node_ids@.contains(id->0)
                &&& id_to_tag@.contains_key(id->0)
                &&& running_fingerprints@.contains_key(id->0)
                    && current_fingerprints@.contains_key(id->0)
                    && running_fingerprints@[id->0]@ == current_fingerprints@[id->0]@
                &&& not_ready_ids@.contains(id->0)
            },
        f_entry,
        f,
    );
}

/// The plan of a round follows what the round was opened with: the running configuration names the
/// exit that is to be left, the probe targets hold the loaded nodes with the fingerprints that they
/// run with, and these are held against the fingerprints of the saved configuration. A server that
/// runs with other parameters than the saved ones is never a candidate, and counts as dirty. A node
/// is not ready where it is configured for Tailscale and is not among the exits that are.
pub proof fn law_round_plan_follows_the_tables(
    config: Json,
    runtime: Json,
    staged: StagedNodeMask,
    targets: ProbeTargets,
    current_fingerprints: Map<Seq<char>, String>,
    exit_ready: Set<Seq<char>>,
)
    requires
        config.array_member("servers"@) is Some,
    ensures
        ({
            let servers = config.array_member("servers"@)->0;
            let plan = round_roster(
                config,
                runtime,
                staged,
                targets,
                current_fingerprints,
                exit_ready,
            ).plan_config(config);
            &&& plan.candidates == servers.filter(
                |s: Json|
                    {
                        let id = s.text_member("id"@);
                        &&& id is Some && id != selection(runtime)
                        &&& !staged.node_ids@.contains(id->0)
                        &&& targets.id_to_tag@.contains_key(id->0)
                        &&& targets.fingerprints@.contains_key(id->0)
                            && current_fingerprints.contains_key(id->0)
                            && targets.fingerprints@[id->0]@ == current_fingerprints[id->0]@
                        &&& !(exists|j: int|
                            {
                                &&& 0 <= j < servers.len()
                                &&& (#[trigger] servers[j]).text_member("id"@) == id
                                &&& servers[j].text_member("protocol"@) == Some("tailscale"@)
                                &&& !exit_ready.contains(id->0)
                            })
                    },
            ).map_values(
                |s: Json|
                    CandidateView {
                        id: s.text_member("id"@)->0,
                        name: if s.text_member("name"@) is Some {
                            s.text_member("name"@)->0
                        } else {
                            s.text_member("id"@)->0
                        },
                        tag: targets.id_to_tag@[s.text_member("id"@)->0]@,
                    },
            )
            &&& plan.staged == servers.filter(
                |s: Json|
                    {
                        let id = s.text_member("id"@);
                        &&& id is Some && id != selection(runtime)
                        &&& staged.node_ids@.contains(id->0)
                    },
            ).len()
            &&& plan.not_loaded == servers.filter(
                |s: Json|
                    {
                        let id = s.text_member("id"@);
                        &&& id is Some && id != selection(runtime)
                        &&& !staged.node_ids@.contains(id->0)
                        &&& !targets.id_to_tag@.contains_key(id->0)
                    },
            ).len()
            &&& plan.dirty == servers.filter(
                |s: Json|
                    {
                        let id = s.text_member("id"@);
                        &&& id is Some && id != selection(runtime)
                        &&& !staged.node_ids@.contains(id->0)
                        &&& targets.id_to_tag@.contains_key(id->0)
                        &&& !(targets.fingerprints@.contains_key(id->0)
                            && current_fingerprints.contains_key(id->0)
                            && targets.fingerprints@[id->0]@ == current_fingerprints[id->0]@)
                    },
            ).len()
            &&& plan.not_ready == servers.filter(
                |s: Json|
                    {
                        let id = s.text_member("id"@);
                        &&& id is Some && id != selection(runtime)
                        &&& !staged.node_ids@.contains(id->0)
                        &&& targets.id_to_tag@.contains_key(id->0)
                        &&& targets.fingerprints@.contains_key(id->0)
                            && current_fingerprints.contains_key(id->0)
                            && targets.fingerprints@[id->0]@ == current_fingerprints[id->0]@
                        &&& exists|j: int|
                            {
                                &&& 0 <= j < servers.len()
                                &&& (#[trigger] servers[j]).text_member("id"@) == id
                                &&& servers[j].text_member("protocol"@) == Some("tailscale"@)
                                &&& !exit_ready.contains(id->0)
                            }
                    },
            ).len()
            &&& plan.not_exit == 0
            &&& plan.needs_restart == 0
        }),
{
    let servers = config.array_member("servers"@)->0;
    let roster = round_roster(
        config,
        runtime,
        staged,
        targets,
        current_fingerprints,
        exit_ready,
    );
    let f = |s: Json| entry_of(s);
    let f_entry = |e: EntryView| e;
    assert forall|id: Seq<char>| #[trigger]
        roster.not_ready.contains(id) <==> exists|j: int|
            {
                &&& 0 <= j < servers.len()
                &&& (#[trigger] servers[j]).text_member("id"@) == Some(id)
                &&& servers[j].text_member("protocol"@) == Some("tailscale"@)
                &&& !exit_ready.contains(id)
            } by {
        law_not_ready_are_the_unready_tailscale_nodes(config, exit_ready, id);
    }
    lemma_filter_image(
        servers,
        f,
        |e: EntryView| roster.fate(e) == Fate::Eligible,
        |s: Json|
            {
                let id = s.text_member("id"@);
                &&& id is Some && id != selection(runtime)
                &&& !staged.node_ids@.contains(id->0)
                &&& targets.id_to_tag@.contains_key(id->0)
                &&& targets.fingerprints@.contains_key(id->0)
                    && current_fingerprints.contains_key(id->0)
                    && targets.fingerprints@[id->0]@ == current_fingerprints[id->0]@
                &&& !(exists|j: int|
                            {
                                &&& 0 <= j < servers.len()
                                &&& (#[trigger] servers[j]).text_member("id"@) == id
                                &&& servers[j].text_member("protocol"@) == Some("tailscale"@)
                                &&& !exit_ready.contains(id->0)
                            })
            },
        |e: EntryView| roster.candidate(e),
        |s: Json|
            CandidateView {
                id: s.text_member("id"@)->0,
                name: if s.text_member("name"@) is Some {
                    s.text_member("name"@)->0
                } else {
                    s.text_member("id"@)->0
                },
                tag: targets.id_to_tag@[s.text_member("id"@)->0]@,
            },
    );
    lemma_filter_image(
        servers,
        f,
        |e: EntryView| roster.fate(e) == Fate::Staged,
        |s: Json|
            {
                let id = s.text_member("id"@);
                &&& id is Some && id != selection(runtime)
                &&& staged.node_ids@.contains(id->0)
            },
        f_entry,
        f,
    );
    lemma_filter_image(
        servers,
        f,
        |e: EntryView| roster.fate(e) == Fate::NotLoaded,
        |s: Json|
            {
                let id = s.text_member("id"@);
                &&& id is Some && id != selection(runtime)
                &&& !staged.node_ids@.contains(id->0)
                &&& !targets.id_to_tag@.contains_key(id->0)
            },
        f_entry,
        f,
    );
    lemma_filter_image(
        servers,
        f,
        |e: EntryView| roster.fate(e) == Fate::Dirty,
        |s: Json|
            {
                let id = s.text_member("id"@);
                &&& id is Some && id != selection(runtime)
                &&& !staged.node_ids@.contains(id->0)
                &&& targets.id_to_tag@.contains_key(id->0)
                &&& !(targets.fingerprints@.contains_key(id->0)
                    && current_fingerprints.contains_key(id->0)
                    && targets.fingerprints@[id->0]@ == current_fingerprints[id->0]@)
            },
        f_entry,
        f,
    );
    lemma_filter_image(
        servers,
        f,
        |e: EntryView| roster.fate(e) == Fate::NotReady,
        |s: Json|
            {
                let id = s.text_member("id"@);
                &&& id is Some && id != selection(runtime)
                &&& !staged.node_ids@.contains(id->0)
                &&& targets.id_to_tag@.contains_key(id->0)
                &&& targets.fingerprints@.contains_key(id->0)
                    && current_fingerprints.contains_key(id->0)
                    && targets.fingerprints@[id->0]@ == current_fingerprints[id->0]@
                &&& exists|j: int|
                            {
                                &&& 0 <= j < servers.len()
                                &&& (#[trigger] servers[j]).text_member("id"@) == id
                                &&& servers[j].text_member("protocol"@) == Some("tailscale"@)
                                &&& !exit_ready.contains(id->0)
                            }
            },
        f_entry,
        f,
    );
}

/// Whatever a round plans to switch to runs with its saved parameters: the probe targets and the
/// saved configuration hold one and the same fingerprint for it. It is also loaded under its tag, is
/// not the exit that is to be left, and is touched by no draft.
pub proof fn law_round_candidates_run_with_saved_parameters(
    config: Json,
    runtime: Json,
    staged: StagedNodeMask,
    targets: ProbeTargets,
    current_fingerprints: Map<Seq<char>, String>,
    exit_ready: Set<Seq<char>>,
    k: int,
)
    requires
        0 <= k < round_roster(
            config,
            runtime,
            staged,
            targets,
            current_fingerprints,
            exit_ready,
        ).plan_config(config).candidates.len(),
    ensures
        ({
            let c = round_roster(
                config,
                runtime,
                staged,
                targets,
                current_fingerprints,
                exit_ready,
            ).plan_config(config).candidates[k];
            &&& targets.fingerprints@.contains_key(c.id)
            &&& current_fingerprints.contains_key(c.id)
            &&& targets.fingerprints@[c.id]@ == current_fingerprints[c.id]@
            &&& targets.id_to_tag@.contains_key(c.id) && c.tag == targets.id_to_tag@[c.id]@
            &&& selection(runtime) != Some(c.id)
            &&& !staged.node_ids@.contains(c.id)
        }),
{
    let roster = round_roster(
        config,
        runtime,
        staged,
        targets,
        current_fingerprints,
        exit_ready,
    );
    law_candidates_are_fit(roster, configured_entries(config)->0, k);
}

/// A server that was edited since the core started is not planned to be switched to, and is counted
/// as dirty: one that is loaded, untouched by a draft and not the current exit, for which the two
/// fingerprints differ.
pub proof fn law_edited_server_is_dirty(
    config: Json,
    runtime: Json,
    staged: StagedNodeMask,
    targets: ProbeTargets,
    current_fingerprints: Map<Seq<char>, String>,
    exit_ready: Set<Seq<char>>,
    i: int,
    id: Seq<char>,
)
    requires
        config.array_member("servers"@) is Some,
        0 <= i < config.array_member("servers"@)->0.len(),
        config.array_member("servers"@)->0[i].text_member("id"@) == Some(id),
        selection(runtime) != Some(id),
        !staged.node_ids@.contains(id),
        targets.id_to_tag@.contains_key(id),
        targets.fingerprints@.contains_key(id) && current_fingerprints.contains_key(id)
            ==> targets.fingerprints@[id]@ != current_fingerprints[id]@,
    ensures
        ({
            let plan = round_roster(
                config,
                runtime,
                staged,
                targets,
                current_fingerprints,
                exit_ready,
            ).plan_config(config);
            &&& plan.dirty > 0
            &&& forall|k: int|
                0 <= k < plan.candidates.len() ==> (#[trigger] plan.candidates[k]).id != id
        }),
{
    let servers = config.array_member("servers"@)->0;
    let plan = round_roster(
        config,
        runtime,
        staged,
        targets,
        current_fingerprints,
        exit_ready,
    ).plan_config(config);
    law_round_plan_follows_the_tables(
        config,
        runtime,
        staged,
        targets,
        current_fingerprints,
        exit_ready,
    );
    servers.lemma_filter_contains(
        |s: Json|
            {
                let id = s.text_member("id"@);
                &&& id is Some && id != selection(runtime)
                &&& !staged.node_ids@.contains(id->0)
                &&& targets.id_to_tag@.contains_key(id->0)
                &&& !(targets.fingerprints@.contains_key(id->0)
                    && current_fingerprints.contains_key(id->0)
                    && targets.fingerprints@[id->0]@ == current_fingerprints[id->0]@)
            },
        i,
    );
    assert forall|k: int| 0 <= k < plan.candidates.len() implies (
    #[trigger] plan.candidates[k]).id != id by {
        law_round_candidates_run_with_saved_parameters(
            config,
            runtime,
            staged,
            targets,
            current_fingerprints,
            exit_ready,
            k,
        );
    }
}

/// A configuration without a server list leaves nothing to plan.
pub proof fn law_nothing_is_planned_without_servers(roster: Roster, config: Json)
    requires
        config.array_member("servers"@) is None,
    ensures
        roster.plan_config(config).candidates.len() == 0,
        roster.plan_config(config).staged == 0,
        roster.plan_config(config).not_loaded == 0,
        roster.plan_config(config).dirty == 0,
        roster.plan_config(config).not_ready == 0,
        roster.plan_config(config).not_exit == 0,
        roster.plan_config(config).needs_restart == 0,
{
}

} // verus!
