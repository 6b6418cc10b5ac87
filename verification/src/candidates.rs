//! Failover candidates: which nodes may take over.
use crate::json::{array_member, json_of, text_member, Json};
use crate::node_map::{NodeMap, NodeSet};
use crate::text::same_text;
use serde_json::Value;
use vstd::prelude::*;

verus! {

/// A node that the running core has loaded, whose parameters there are those of the saved
/// configuration, and which can therefore be probed end to end.
#[derive(Debug, PartialEq, Eq)]
pub struct RuntimeCandidate {
    pub id: String,
    pub name: String,
    pub tag: String,
}

/// The texts of a [`RuntimeCandidate`].
pub struct CandidateView {
    pub id: Seq<char>,
    pub name: Seq<char>,
    pub tag: Seq<char>,
}

impl View for RuntimeCandidate {
    type V = CandidateView;

    open spec fn view(&self) -> CandidateView {
        CandidateView { id: self.id@, name: self.name@, tag: self.tag@ }
    }
}

impl Clone for RuntimeCandidate {
    fn clone(&self) -> (r: Self)
        ensures
            r == *self,
    {
        RuntimeCandidate {
            id: self.id.clone(),
            name: self.name.clone(),
            tag: self.tag.clone(),
        }
    }
}

/// The texts of a list of candidates.
pub open spec fn candidate_views(candidates: Seq<RuntimeCandidate>) -> Seq<CandidateView> {
    candidates.map_values(|c: RuntimeCandidate| c@)
}

/// The outcome of candidate planning: the candidates, and how many nodes each reason excluded.
///
/// An excluded node is counted under one reason only, the first that applies in the order of the
/// fields. Nodes without an id and the current exit are counted nowhere.
#[derive(Debug, PartialEq, Eq)]
pub struct RuntimeCandidatePlan {
    pub candidates: Vec<RuntimeCandidate>,
    /// Masked by an unsaved draft.
    pub staged: usize,
    /// Not a selector member of the running core.
    pub not_loaded: usize,
    /// Running with other parameters than the saved ones.
    pub dirty: usize,
    /// Endpoint that is not ready at run time.
    pub not_ready: usize,
    /// Mesh node that carries no internet traffic: never an exit to switch to.
    pub not_exit: usize,
    /// Reachable only by a restart of the core.
    pub needs_restart: usize,
}

/// The content of a [`RuntimeCandidatePlan`].
#[verifier::ext_equal]
pub struct PlanView {
    pub candidates: Seq<CandidateView>,
    pub staged: nat,
    pub not_loaded: nat,
    pub dirty: nat,
    pub not_ready: nat,
    pub not_exit: nat,
    pub needs_restart: nat,
}

impl View for RuntimeCandidatePlan {
    type V = PlanView;

    open spec fn view(&self) -> PlanView {
        PlanView {
            candidates: candidate_views(self.candidates@),
            staged: self.staged as nat,
            not_loaded: self.not_loaded as nat,
            dirty: self.dirty as nat,
            not_ready: self.not_ready as nat,
            not_exit: self.not_exit as nat,
            needs_restart: self.needs_restart as nat,
        }
    }
}

impl PlanView {
    /// No candidates, and nothing excluded.
    pub open spec fn empty() -> PlanView {
        PlanView {
            candidates: Seq::empty(),
            staged: 0,
            not_loaded: 0,
            dirty: 0,
            not_ready: 0,
            not_exit: 0,
            needs_restart: 0,
        }
    }
}

impl Clone for RuntimeCandidatePlan {
    fn clone(&self) -> (r: Self)
        ensures
            r@ == self@,
    {
        let r = RuntimeCandidatePlan {
            candidates: self.candidates.clone(),
            staged: self.staged,
            not_loaded: self.not_loaded,
            dirty: self.dirty,
            not_ready: self.not_ready,
            not_exit: self.not_exit,
            needs_restart: self.needs_restart,
        };
        assert(r@.candidates =~= self@.candidates);
        r
    }
}

impl Default for RuntimeCandidatePlan {
    fn default() -> (r: Self)
        ensures
            r@ == PlanView::empty(),
    {
        let r = RuntimeCandidatePlan {
            candidates: Vec::new(),
            staged: 0,
            not_loaded: 0,
            dirty: 0,
            not_ready: 0,
            not_exit: 0,
            needs_restart: 0,
        };
        assert(r@ =~= PlanView::empty());
        r
    }
}

/// What planning reads of one entry of the configured server list.
#[derive(Debug, PartialEq, Eq)]
pub struct ServerEntry {
    pub id: Option<String>,
    pub name: Option<String>,
}

/// The texts of a [`ServerEntry`].
pub struct EntryView {
    pub id: Option<Seq<char>>,
    pub name: Option<Seq<char>>,
}

/// The characters of an optional string.
pub open spec fn text_of(s: Option<String>) -> Option<Seq<char>> {
    match s {
        Some(s) => Some(s@),
        None => None,
    }
}

impl View for ServerEntry {
    type V = EntryView;

    open spec fn view(&self) -> EntryView {
        EntryView { id: text_of(self.id), name: text_of(self.name) }
    }
}

/// The texts of a list of entries.
pub open spec fn entry_views(entries: Seq<ServerEntry>) -> Seq<EntryView> {
    entries.map_values(|e: ServerEntry| e@)
}

/// The entry that a JSON server object stands for.
pub open spec fn entry_of(server: Json) -> EntryView {
    EntryView { id: server.text_member("id"@), name: server.text_member("name"@) }
}

/// The entries of the server list of a configuration, if it has such a list.
pub open spec fn configured_entries(config: Json) -> Option<Seq<EntryView>> {
    match config.array_member("servers"@) {
        Some(servers) => Some(servers.map_values(|server: Json| entry_of(server))),
        None => None,
    }
}

/// What is known of the nodes when candidates are planned.
pub struct Roster {
    /// The current exit.
    pub current: Option<Seq<char>>,
    /// Selector tags of the nodes that the running core has loaded.
    pub tags: Map<Seq<char>, Seq<char>>,
    /// Connection fingerprints taken when the core started.
    pub running: Map<Seq<char>, Seq<char>>,
    /// Connection fingerprints of the saved configuration.
    pub saved: Map<Seq<char>, Seq<char>>,
    /// Nodes masked by an unsaved draft.
    pub staged: Set<Seq<char>>,
    /// Endpoints that are not ready.
    pub not_ready: Set<Seq<char>>,
}

/// The characters of the values of a map.
pub open spec fn texts(m: Map<Seq<char>, String>) -> Map<Seq<char>, Seq<char>> {
    m.map_values(|s: String| s@)
}

/// What planning makes of a server entry.
pub enum Fate {
    Unnamed,
    Current,
    Staged,
    NotLoaded,
    Dirty,
    NotReady,
    Eligible,
}

impl Roster {
    /// The running core and the saved configuration agree on the parameters of `id`.
    pub open spec fn clean(self, id: Seq<char>) -> bool {
        &&& self.running.contains_key(id)
        &&& self.saved.contains_key(id)
        &&& self.running[id] == self.saved[id]
    }

    /// What planning makes of `entry`: the first reason that applies.
    pub open spec fn fate(self, entry: EntryView) -> Fate {
        match entry.id {
            None => Fate::Unnamed,
            Some(id) => if self.current == Some(id) {
                Fate::Current
            } else if self.staged.contains(id) {
                Fate::Staged
            } else if !self.tags.contains_key(id) {
                Fate::NotLoaded
            } else if !self.clean(id) {
                Fate::Dirty
            } else if self.not_ready.contains(id) {
                Fate::NotReady
            } else {
                Fate::Eligible
            },
        }
    }

    /// The candidate that an eligible entry becomes. A node without a name goes by its id.
    pub open spec fn candidate(self, entry: EntryView) -> CandidateView {
        let id = entry.id.unwrap();
        CandidateView {
            id,
            name: match entry.name {
                Some(name) => name,
                None => id,
            },
            tag: self.tags[id],
        }
    }

    /// The eligible entries, as candidates, in the order of the list.
    pub open spec fn candidates(self, entries: Seq<EntryView>) -> Seq<CandidateView> {
        entries.filter(|e: EntryView| self.fate(e) == Fate::Eligible).map_values(
            |e: EntryView| self.candidate(e),
        )
    }

    /// How many entries have the fate `f`.
    pub open spec fn tally(self, entries: Seq<EntryView>, f: Fate) -> nat {
        entries.filter(|e: EntryView| self.fate(e) == f).len()
    }

    /// The plan for a list of entries.
    pub open spec fn plan(self, entries: Seq<EntryView>) -> PlanView {
        PlanView {
            candidates: self.candidates(entries),
            staged: self.tally(entries, Fate::Staged),
            not_loaded: self.tally(entries, Fate::NotLoaded),
            dirty: self.tally(entries, Fate::Dirty),
            not_ready: self.tally(entries, Fate::NotReady),
            not_exit: 0,
            needs_restart: 0,
        }
    }
}

impl Roster {
    /// The plan for a configuration. One without a server list leaves nothing to plan.
    pub open spec fn plan_config(self, config: Json) -> PlanView {
        match configured_entries(config) {
            Some(entries) => self.plan(entries),
            None => PlanView::empty(),
        }
    }
}

proof fn lemma_tally_push(roster: Roster, entries: Seq<EntryView>, e: EntryView, f: Fate)
    ensures
        roster.tally(entries.push(e), f) == roster.tally(entries, f) + if roster.fate(e) == f {
            1nat
        } else {
            0nat
        },
{
    reveal(Seq::filter);
    assert(entries.push(e).drop_last() == entries);
}

proof fn lemma_candidates_push(roster: Roster, entries: Seq<EntryView>, e: EntryView)
    ensures
        roster.candidates(entries.push(e)) == if roster.fate(e) == Fate::Eligible {
            roster.candidates(entries).push(roster.candidate(e))
        } else {
            roster.candidates(entries)
        },
{
    reveal(Seq::filter);
    assert(entries.push(e).drop_last() == entries);
    if roster.fate(e) == Fate::Eligible {
        let kept = entries.filter(|x: EntryView| roster.fate(x) == Fate::Eligible);
        assert(kept.push(e).map_values(|x: EntryView| roster.candidate(x)) =~= kept.map_values(
            |x: EntryView| roster.candidate(x),
        ).push(roster.candidate(e)));
    }
}

/// The entries of the server list of `config`, or `None` where it has no such list.
pub fn read_servers(config: &Value) -> (r: Option<Vec<ServerEntry>>)
    ensures
        match r {
            Some(entries) => configured_entries(json_of(*config)) == Some(entry_views(entries@)),
            None => configured_entries(json_of(*config)) is None,
        },
{
    let servers = match array_member(config, "servers") {
        Some(servers) => servers,
        None => {
            return None;
        },
    };
    let mut entries: Vec<ServerEntry> = Vec::new();
    let mut i: usize = 0;
    while i < servers.len()
        invariant
            i <= servers@.len(),
            entries@.len() == i,
            forall|j: int| 0 <= j < i ==> #[trigger] entries@[j]@ == entry_of(json_of(servers@[j])),
        decreases servers@.len() - i,
    {
        let id = match text_member(&servers[i], "id") {
            Some(id) => Some(id.to_owned()),
            None => None,
        };
        let name = match text_member(&servers[i], "name") {
            Some(name) => Some(name.to_owned()),
            None => None,
        };
        entries.push(ServerEntry { id, name });
        i = i + 1;
    }
    assert(entry_views(entries@) =~= configured_entries(json_of(*config)).unwrap());
    Some(entries)
}

/// Plans candidates out of a server list (see [`plan_runtime_candidates`]).
pub fn plan_candidates(
    entries: &Vec<ServerEntry>,
    current_id: Option<&str>,
    id_to_tag: &NodeMap<String>,
    running_fingerprints: &NodeMap<String>,
    current_fingerprints: &NodeMap<String>,
    staged_node_ids: &NodeSet,
    not_ready_ids: &NodeSet,
) -> (plan: RuntimeCandidatePlan)
    ensures
        plan@ == roster_of(
            current_id,
            id_to_tag,
            running_fingerprints,
            current_fingerprints,
            staged_node_ids,
            not_ready_ids,
        ).plan(entry_views(entries@)),
{
    let ghost roster = roster_of(
        current_id,
        id_to_tag,
        running_fingerprints,
        current_fingerprints,
        staged_node_ids,
        not_ready_ids,
    );
    let ghost views = entry_views(entries@);
    let mut plan: RuntimeCandidatePlan = RuntimeCandidatePlan::default();
    proof {
        reveal(Seq::filter);
        assert(plan@ =~= roster.plan(views.take(0)));
    }
    let mut i: usize = 0;
    while i < entries.len()
        invariant
            i <= entries@.len(),
            views == entry_views(entries@),
            roster == roster_of(
                current_id,
                id_to_tag,
                running_fingerprints,
                current_fingerprints,
                staged_node_ids,
                not_ready_ids,
            ),
            plan@ == roster.plan(views.take(i as int)),
            plan.staged <= i,
            plan.not_loaded <= i,
            plan.dirty <= i,
            plan.not_ready <= i,
        decreases entries@.len() - i,
    {
        let ghost before = plan@;
        proof {
            let e = views[i as int];
            assert(views.take(i + 1) =~= views.take(i as int).push(e));
            lemma_candidates_push(roster, views.take(i as int), e);
            lemma_tally_push(roster, views.take(i as int), e, Fate::Staged);
            lemma_tally_push(roster, views.take(i as int), e, Fate::NotLoaded);
            lemma_tally_push(roster, views.take(i as int), e, Fate::Dirty);
            lemma_tally_push(roster, views.take(i as int), e, Fate::NotReady);
        }
        match &entries[i].id {
            None => {},
            Some(id) => {
                let is_current = match current_id {
                    Some(current) => same_text(id.as_str(), current),
                    None => false,
                };
                if is_current {
                } else if staged_node_ids.contains(id.as_str()) {
                    plan.staged = plan.staged + 1;
                } else {
                    match id_to_tag.get(id.as_str()) {
                        None => {
                            plan.not_loaded = plan.not_loaded + 1;
                        },
                        Some(tag) => {
                            let clean = match (
                                running_fingerprints.get(id.as_str()),
                                current_fingerprints.get(id.as_str()),
                            ) {
                                (Some(running), Some(current)) => same_text(
                                    running.as_str(),
                                    current.as_str(),
                                ),
                                _ => false,
                            };
                            if !clean {
                                plan.dirty = plan.dirty + 1;
                            } else if not_ready_ids.contains(id.as_str()) {
                                plan.not_ready = plan.not_ready + 1;
                            } else {
                                let name = match &entries[i].name {
                                    Some(name) => name.clone(),
                                    None => id.clone(),
                                };
                                let candidate = RuntimeCandidate {
                                    id: id.clone(),
                                    name,
                                    tag: tag.clone(),
                                };
                                plan.candidates.push(candidate);
                                assert(plan@.candidates =~= before.candidates.push(
                                    roster.candidate(views[i as int]),
                                ));
                            }
                        },
                    }
                }
            },
        }
        i = i + 1;
        assert(plan@ =~= roster.plan(views.take(i as int)));
    }
    assert(views.take(entries@.len() as int) =~= views);
    plan
}

/// The roster that the arguments of planning describe.
pub open spec fn roster_of(
    current_id: Option<&str>,
    id_to_tag: &NodeMap<String>,
    running_fingerprints: &NodeMap<String>,
    current_fingerprints: &NodeMap<String>,
    staged_node_ids: &NodeSet,
    not_ready_ids: &NodeSet,
) -> Roster {
    Roster {
        current: match current_id {
            Some(id) => Some(id@),
            None => None,
        },
        tags: texts(id_to_tag@),
        running: texts(running_fingerprints@),
        saved: texts(current_fingerprints@),
        staged: staged_node_ids@,
        not_ready: not_ready_ids@,
    }
}

/// Plans failover candidates out of the intersection of the saved configuration and the running
/// core.
///
/// A server becomes a candidate when it is not the current exit, is not masked by an unsaved draft,
/// is loaded as a selector member of the running core, has the same connection fingerprint in the
/// core and in the saved configuration, and is ready. Servers without an id are skipped. Without a
/// server list the plan is empty.
#[must_use]
pub fn plan_runtime_candidates(
    config: &Value,
    current_id: Option<&str>,
    id_to_tag: &NodeMap<String>,
    running_fingerprints: &NodeMap<String>,
    current_fingerprints: &NodeMap<String>,
    staged_node_ids: &NodeSet,
    not_ready_ids: &NodeSet,
) -> (plan: RuntimeCandidatePlan)
    ensures
        plan@ == roster_of(
            current_id,
            id_to_tag,
            running_fingerprints,
            current_fingerprints,
            staged_node_ids,
            not_ready_ids,
        ).plan_config(json_of(*config)),
{
    match read_servers(config) {
        Some(entries) => plan_candidates(
            &entries,
            current_id,
            id_to_tag,
            running_fingerprints,
            current_fingerprints,
            staged_node_ids,
            not_ready_ids,
        ),
        None => RuntimeCandidatePlan::default(),
    }
}

/// Every entry of the list has exactly one fate: the counts of the seven fates add up to the length
/// of the list, and there are as many candidates as eligible entries.
pub proof fn law_every_entry_has_one_fate(roster: Roster, entries: Seq<EntryView>)
    ensures
        roster.tally(entries, Fate::Unnamed) + roster.tally(entries, Fate::Current) + roster.tally(
            entries,
            Fate::Staged,
        ) + roster.tally(entries, Fate::NotLoaded) + roster.tally(entries, Fate::Dirty)
            + roster.tally(entries, Fate::NotReady) + roster.tally(entries, Fate::Eligible)
            == entries.len(),
        roster.plan(entries).candidates.len() == roster.tally(entries, Fate::Eligible),
    decreases entries.len(),
{
    if entries.len() == 0 {
        reveal(Seq::filter);
    } else {
        let rest = entries.drop_last();
        let e = entries.last();
        assert(rest.push(e) =~= entries);
        law_every_entry_has_one_fate(roster, rest);
        lemma_candidates_push(roster, rest, e);
        lemma_tally_push(roster, rest, e, Fate::Unnamed);
        lemma_tally_push(roster, rest, e, Fate::Current);
        lemma_tally_push(roster, rest, e, Fate::Staged);
        lemma_tally_push(roster, rest, e, Fate::NotLoaded);
        lemma_tally_push(roster, rest, e, Fate::Dirty);
        lemma_tally_push(roster, rest, e, Fate::NotReady);
        lemma_tally_push(roster, rest, e, Fate::Eligible);
    }
}

/// Each candidate stems from an entry of the list, is not the current exit, is not masked by a
/// draft, is loaded under the tag it carries, runs with its saved parameters, and is ready.
pub proof fn law_candidates_are_fit(roster: Roster, entries: Seq<EntryView>, k: int)
    requires
        0 <= k < roster.plan(entries).candidates.len(),
    ensures
        ({
            let c = roster.plan(entries).candidates[k];
            &&& exists|i: int|
                0 <= i < entries.len() && (#[trigger] entries[i]).id == Some(c.id)
                    && roster.candidate(entries[i]) == c
            &&& roster.current != Some(c.id)
            &&& !roster.staged.contains(c.id)
            &&& roster.tags.contains_key(c.id) && roster.tags[c.id] == c.tag
            &&& roster.clean(c.id)
            &&& !roster.not_ready.contains(c.id)
        }),
{
    let fit = |e: EntryView| roster.fate(e) == Fate::Eligible;
    let kept = entries.filter(fit);
    assert(kept.contains(kept[k]));
    entries.lemma_filter_contains_rev(fit, kept[k]);
    entries.lemma_filter_pred(fit, k);
    let i = choose|i: int| 0 <= i < entries.len() && entries[i] == kept[k];
    assert(entries[i].id == Some(roster.plan(entries).candidates[k].id));
}

/// No fit node is passed over: every eligible entry is among the candidates.
pub proof fn law_fit_entries_are_candidates(roster: Roster, entries: Seq<EntryView>, i: int)
    requires
        0 <= i < entries.len(),
        roster.fate(entries[i]) == Fate::Eligible,
    ensures
        roster.plan(entries).candidates.contains(roster.candidate(entries[i])),
{
    let fit = |e: EntryView| roster.fate(e) == Fate::Eligible;
    let kept = entries.filter(fit);
    entries.lemma_filter_contains(fit, i);
    let k = choose|k: int| 0 <= k < kept.len() && kept[k] == entries[i];
    assert(roster.plan(entries).candidates[k] == roster.candidate(entries[i]));
}

} // verus!
