//! What the views of values are: their very fields.
use crate::candidates::{
    candidate_views, entry_of, entry_views, text_of, texts, RuntimeCandidate, RuntimeCandidatePlan,
    ServerEntry,
};
use crate::config::string_views;
use crate::failover::Target;
use crate::json::{json_of, Json};
use crate::node_map::NodeMap;
use crate::selection::{latencies_of, CandidateLatency};
use crate::sweep::SelectorPut;
use crate::transaction::{optional_json, optional_map, put_views, JudgedSwitch};
use serde_json::Value;
use vstd::prelude::*;

verus! {

/// A plan is seen as it is: each count is that of its field, and the candidates are those of the
/// list, one by one.
pub proof fn law_plan_is_seen_as_it_is(plan: RuntimeCandidatePlan, i: int)
    ensures
        plan@.staged == plan.staged,
        plan@.not_loaded == plan.not_loaded,
        plan@.dirty == plan.dirty,
        plan@.not_ready == plan.not_ready,
        plan@.not_exit == plan.not_exit,
        plan@.needs_restart == plan.needs_restart,
        plan@.candidates.len() == plan.candidates@.len(),
        0 <= i < plan.candidates@.len() ==> {
            &&& plan@.candidates[i].id == plan.candidates@[i].id@
            &&& plan@.candidates[i].name == plan.candidates@[i].name@
            &&& plan@.candidates[i].tag == plan.candidates@[i].tag@
        },
{
}

/// A list of candidates is seen as it is.
pub proof fn law_candidates_are_seen_as_they_are(candidates: Seq<RuntimeCandidate>, i: int)
    ensures
        candidate_views(candidates).len() == candidates.len(),
        0 <= i < candidates.len() ==> {
            &&& candidate_views(candidates)[i].id == candidates[i].id@
            &&& candidate_views(candidates)[i].name == candidates[i].name@
            &&& candidate_views(candidates)[i].tag == candidates[i].tag@
        },
{
}

/// A list of entries is seen as it is.
pub proof fn law_entries_are_seen_as_they_are(entries: Seq<ServerEntry>, i: int)
    ensures
        entry_views(entries).len() == entries.len(),
        0 <= i < entries.len() ==> {
            &&& entry_views(entries)[i].id is Some <==> entries[i].id is Some
            &&& entries[i].id matches Some(id) ==> entry_views(entries)[i].id == Some(id@)
            &&& entry_views(entries)[i].name is Some <==> entries[i].name is Some
            &&& entries[i].name matches Some(name) ==> entry_views(entries)[i].name == Some(name@)
        },
{
}

/// The entry of a server holds its id and its name, as far as they are texts.
pub proof fn law_entries_are_read_off_the_server(server: Json)
    ensures
        entry_of(server).id == server.text_member("id"@),
        entry_of(server).name == server.text_member("name"@),
{
}

/// Texts, latencies and changes of selectors are seen as they are.
pub proof fn law_lists_are_seen_as_they_are(
    strings: Seq<String>,
    measured: Seq<CandidateLatency>,
    puts: Seq<SelectorPut>,
    i: int,
)
    ensures
        string_views(strings).len() == strings.len(),
        0 <= i < strings.len() ==> string_views(strings)[i] == strings[i]@,
        latencies_of(measured).len() == measured.len(),
        0 <= i < measured.len() ==> latencies_of(measured)[i] == measured[i].latency_ms,
        put_views(puts).len() == puts.len(),
        0 <= i < puts.len() ==> put_views(puts)[i].selector_tag == puts[i].selector_tag@
            && put_views(puts)[i].member_tag == puts[i].member_tag@,
{
}

/// A table of texts is seen as it is.
pub proof fn law_tables_are_seen_as_they_are(table: Map<Seq<char>, String>, id: Seq<char>)
    ensures
        texts(table).contains_key(id) <==> table.contains_key(id),
        table.contains_key(id) ==> texts(table)[id] == table[id]@,
{
}

/// What a switch was judged by, and its target, are seen as they are.
pub proof fn law_switches_are_seen_as_they_are(judged: JudgedSwitch, target: Target)
    ensures
        judged@.puts == put_views(judged.puts@),
        judged@.interrupt == judged.interrupt,
        judged@.enable_ipv6 == judged.enable_ipv6,
        target@.candidate.id == target.candidate.id@,
        target@.candidate.name == target.candidate.name@,
        target@.candidate.tag == target.candidate.tag@,
        target@.fingerprint == target.fingerprint@,
        target@.reason == target.payload.reason@,
        target@.new_server_name == target.payload.new_server_name@,
        target@.latency == target.payload.latency,
{
}

/// An optional value is seen exactly where it is there.
pub proof fn law_optional_values_are_seen_where_they_are(
    config: Option<&Value>,
    tags: Option<&NodeMap<String>>,
    text: Option<String>,
)
    ensures
        optional_json(config) is Some <==> config is Some,
        config matches Some(config) ==> optional_json(Some(config)) == Some(json_of(*config)),
        optional_map(tags) is Some <==> tags is Some,
        tags matches Some(tags) ==> optional_map(Some(tags)) == Some(tags@),
        text_of(text) is Some <==> text is Some,
        text matches Some(text) ==> text_of(Some(text)) == Some(text@),
{
}

} // verus!
