//! The switch itself, as a transaction over two places: the saved configuration, of which only the
//! selected exit is changed, and the running core, of which only the exit selector is.
//!
//! Whoever drives the transaction performs what [`phase`](HotSwitchTransaction::phase) asks for and
//! hands back what came of it. There is no phase that restarts the core: a switch that cannot be
//! proved is taken back through the selector, or handed over to reconciliation.
use crate::candidates::{CandidateView, RuntimeCandidate};
use crate::config::{select_server, selection, selects, with_selection};
use crate::json::{json_of, Json};
use crate::node_map::{NodeMap, NodeSet};
use crate::report::ReportCode;
use crate::sweep::{
    candidate_switch_plan, switch_plan, switched_config, CandidateSwitchPlan, ClassifiedSwitch,
    SelectorPut, PROXY_SELECTOR,
};
use crate::text::same_text;
use serde_json::Value;
use vstd::prelude::*;

verus! {

/// The nodes that an unsaved draft touches.
#[derive(Debug)]
pub struct StagedNodeMask {
    /// There is a draft.
    pub pending: bool,
    /// It is known which nodes the draft touches.
    pub scope_known: bool,
    pub node_ids: NodeSet,
}

impl StagedNodeMask {
    /// The draft touches the node, or may do so for all that is known.
    pub open spec fn masks(self, id: Seq<char>) -> bool {
        self.pending && (!self.scope_known || self.node_ids@.contains(id))
    }

    /// Whether the draft touches the node `id`, or may do so.
    pub fn is_masked(&self, id: &str) -> (r: bool)
        ensures
            r == self.masks(id@),
    {
        self.pending && (!self.scope_known || self.node_ids.contains(id))
    }
}

/// A selector group as the running core reports it.
#[derive(Debug, PartialEq, Eq)]
pub struct SelectorGroup {
    pub tag: String,
    pub selected: String,
}

/// The exit selector is among `groups` with the member `tag` selected.
pub open spec fn exit_selected(groups: Seq<SelectorGroup>, tag: Seq<char>) -> bool {
    exists|i: int|
        0 <= i < groups.len() && (#[trigger] groups[i]).tag@ == PROXY_SELECTOR@
            && groups[i].selected@ == tag
}

/// Whether the running core has the member `tag` selected for the exit.
pub fn attests_exit(groups: &Vec<SelectorGroup>, tag: &str) -> (r: bool)
    ensures
        r == exit_selected(groups@, tag@),
        r <==> exists|i: int|
            0 <= i < groups@.len() && (#[trigger] groups@[i]).tag@ == PROXY_SELECTOR@
                && groups@[i].selected@ == tag@,
{
    let mut i: usize = 0;
    while i < groups.len()
        invariant
            i <= groups@.len(),
            forall|j: int|
                0 <= j < i ==> (#[trigger] groups@[j]).tag@ != PROXY_SELECTOR@
                    || groups@[j].selected@ != tag@,
        decreases groups@.len() - i,
    {
        if same_text(groups[i].tag.as_str(), PROXY_SELECTOR) && same_text(
            groups[i].selected.as_str(),
            tag,
        ) {
            assert(groups@[i as int].tag@ == PROXY_SELECTOR@);
            return true;
        }
        i = i + 1;
    }
    false
}

/// How a transaction ends.
#[derive(Debug, Clone, Copy, PartialEq, Eq, Structural)]
pub enum AutoHotSwitchOutcome {
    /// The core runs over the new exit, and has confirmed it.
    Applied,
    /// A start or stop of the core is under way.
    Busy,
    /// The configuration, a draft, the core or a newer choice of exit has overtaken it.
    Superseded,
    /// The candidate cannot be switched to without a restart.
    NotEligible,
    /// The choice is saved, but neither the new nor the old exit could be confirmed; it is left to
    /// reconciliation under this intent.
    ReconcilePending { intent_generation: u64 },
    Failed,
}

/// The end of a transaction, and what is still to be done for it.
#[derive(Debug, Clone, Copy, PartialEq, Eq, Structural)]
pub struct TransactionEnd {
    pub outcome: AutoHotSwitchOutcome,
    /// Mark the selector as in need of reconciliation.
    pub mark_required: bool,
    /// Report this.
    pub report: Option<ReportCode>,
    /// Announce the pending changes anew.
    pub push_pending: bool,
}

impl TransactionEnd {
    /// An end that leaves nothing to do.
    pub open spec fn plain(outcome: AutoHotSwitchOutcome) -> TransactionEnd {
        TransactionEnd {
            outcome,
            mark_required: false,
            report: None,
            push_pending: false,
        }
    }

    /// A newer owner of the selector took over after it was touched.
    pub open spec fn overtaken() -> TransactionEnd {
        TransactionEnd {
            mark_required: true,
            ..TransactionEnd::plain(AutoHotSwitchOutcome::Superseded)
        }
    }

    pub open spec fn applied() -> TransactionEnd {
        TransactionEnd {
            push_pending: true,
            ..TransactionEnd::plain(AutoHotSwitchOutcome::Applied)
        }
    }

    pub open spec fn unconfirmed(intent_generation: u64) -> TransactionEnd {
        TransactionEnd {
            report: Some(ReportCode::ExitMismatch),
            push_pending: true,
            ..TransactionEnd::plain(AutoHotSwitchOutcome::ReconcilePending { intent_generation })
        }
    }
}

/// What a transaction asks for next.
#[derive(Debug, Clone, Copy, PartialEq, Eq, Structural)]
pub enum TransactionPhase {
    /// Read the state of the runtime and hand it to `begin`.
    Admitting,
    /// Classify the running configuration with the candidate selected, for `judge`.
    Judging,
    /// Save the choice, if `claim_target` grants it, and tell `persisted`.
    Persisting,
    /// Switch the selector to the candidate, and tell `target_put`.
    Putting,
    /// Read the selector back, where the switch was `applied`, for `target_read`.
    Attesting { applied: bool },
    /// Take the new configuration over as the running one, and tell `committed`.
    Committing,
    /// Renew what depends on the exit, and tell `refreshed`.
    Refreshing,
    /// Switch the selector back, and tell `restore_put`.
    Restoring,
    /// Read the selector back, where that was done (`put_ok`), for `restore_read`.
    AttestingRestore { put_ok: bool },
    /// Take the saved choice back, if `roll_back` grants it, announce the pending changes, and tell
    /// `rolled_back`.
    RollingBack,
    Done(TransactionEnd),
}

/// What came of saving the choice.
#[derive(Debug, Clone, Copy, PartialEq, Eq, Structural)]
pub enum PersistResult {
    /// Saved, under a new intent.
    Written { intent_generation: u64 },
    /// Not granted, so nothing was saved.
    Skipped,
    /// Saving failed.
    Failed,
}

/// The state of the runtime that a transaction is admitted by.
#[derive(Debug)]
pub struct AdmissionFacts {
    pub generation: u64,
    pub core_running: bool,
    /// The latest intent to select an exit.
    pub intent_generation: u64,
    /// A start or stop of the core is under way.
    pub busy: bool,
    /// The selector is in need of reconciliation.
    pub reconcile_required: bool,
    pub staged: StagedNodeMask,
}

/// What a switch was judged by, and is therefore carried out with.
#[derive(Debug, PartialEq, Eq)]
pub struct JudgedSwitch {
    /// The changes of selector groups.
    pub puts: Vec<SelectorPut>,
    /// Close the connections over the old exit.
    pub interrupt: bool,
    /// The routes of the new exit include IPv6.
    pub enable_ipv6: bool,
}

/// The texts of a [`SelectorPut`].
pub struct PutView {
    pub selector_tag: Seq<char>,
    pub member_tag: Seq<char>,
}

/// The content of a [`JudgedSwitch`].
pub struct JudgedView {
    pub puts: Seq<PutView>,
    pub interrupt: bool,
    pub enable_ipv6: bool,
}

/// The texts of a list of changes.
pub open spec fn put_views(puts: Seq<SelectorPut>) -> Seq<PutView> {
    puts.map_values(
        |put: SelectorPut| PutView { selector_tag: put.selector_tag@, member_tag: put.member_tag@ },
    )
}

impl View for JudgedSwitch {
    type V = JudgedView;

    open spec fn view(&self) -> JudgedView {
        JudgedView {
            puts: put_views(self.puts@),
            interrupt: self.interrupt,
            enable_ipv6: self.enable_ipv6,
        }
    }
}

/// What the runtime's classification says of how to switch; nothing where it is no hot switch.
pub open spec fn judged_switch(classified: Option<ClassifiedSwitch>) -> JudgedView {
    match classified {
        Some(ClassifiedSwitch::HotSwitch { puts, new_cfg }) => JudgedView {
            puts: put_views(puts@),
            interrupt: new_cfg.interrupts(),
            enable_ipv6: new_cfg.uses_ipv6(),
        },
        _ => JudgedView { puts: Seq::empty(), interrupt: false, enable_ipv6: false },
    }
}

/// A switch of the running core from one exit to a candidate.
#[derive(Debug)]
pub struct HotSwitchTransaction {
    generation: u64,
    expected_current_id: String,
    candidate: RuntimeCandidate,
    expected_fingerprint: String,
    phase: TransactionPhase,
    starting_intent: u64,
    old_tag: String,
    runtime_config: Option<Value>,
    judged: Option<JudgedSwitch>,
    intent: Option<u64>,
}

/// The state of a [`HotSwitchTransaction`].
pub struct TransactionView {
    /// The core generation that the switch was planned in.
    pub generation: u64,
    /// The exit that is to be left.
    pub expected_current: Seq<char>,
    /// The exit that is to be taken.
    pub candidate: CandidateView,
    /// The fingerprint under which the candidate was probed.
    pub fingerprint: Seq<char>,
    pub phase: TransactionPhase,
    /// The latest intent when the transaction was admitted.
    pub starting_intent: u64,
    /// The selector tag of the exit that is to be left.
    pub old_tag: Seq<char>,
    /// What the core ran when the transaction was admitted.
    pub runtime: Option<Json>,
    /// What the switch is carried out with, once it was judged possible.
    pub judged: Option<JudgedView>,
    /// The intent under which the choice was saved, once it is.
    pub intent: Option<u64>,
}

impl View for HotSwitchTransaction {
    type V = TransactionView;

    closed spec fn view(&self) -> TransactionView {
        TransactionView {
            generation: self.generation,
            expected_current: self.expected_current_id@,
            candidate: self.candidate@,
            fingerprint: self.expected_fingerprint@,
            phase: self.phase,
            starting_intent: self.starting_intent,
            old_tag: self.old_tag@,
            runtime: match self.runtime_config {
                Some(runtime_config) => Some(json_of(runtime_config)),
                None => None,
            },
            judged: match self.judged {
                Some(judged) => Some(judged@),
                None => None,
            },
            intent: self.intent,
        }
    }
}

/// The verdict on admission.
pub enum Admission {
    Admitted { starting_intent: u64, old_tag: Seq<char>, runtime: Json },
    Superseded,
    Busy,
    NotEligible,
}

/// What can be told to a transaction.
pub enum TransactionEvent {
    Admission(Admission),
    /// `judged` is what the switch would be carried out with.
    Judged { verdict: CandidateSwitchPlan, judged: JudgedView },
    Persisted(PersistResult),
    /// `owned`, here and below: the selector is still this transaction's to change.
    TargetPut { applied: bool, owned: bool },
    TargetRead { attested: bool, clean: bool, owned: bool },
    Committed { owned: bool },
    Refreshed { owned: bool },
    RestorePut { ok: bool, owned: bool },
    RestoreRead { restored: bool, owned: bool },
    RolledBack { owned: bool },
}

impl TransactionView {
    /// Nothing has been told yet.
    pub open spec fn initial(
        generation: u64,
        expected_current: Seq<char>,
        candidate: CandidateView,
        fingerprint: Seq<char>,
    ) -> TransactionView {
        TransactionView {
            generation,
            expected_current,
            candidate,
            fingerprint,
            phase: TransactionPhase::Admitting,
            starting_intent: 0,
            old_tag: Seq::empty(),
            runtime: None,
            judged: None,
            intent: None,
        }
    }

    pub open spec fn at(self, phase: TransactionPhase) -> TransactionView {
        TransactionView { phase, ..self }
    }

    pub open spec fn ended(self, end: TransactionEnd) -> TransactionView {
        self.at(TransactionPhase::Done(end))
    }

    /// Whether the transaction may go ahead: the first obstacle decides.
    pub open spec fn admission(
        self,
        facts: AdmissionFacts,
        runtime: Option<Json>,
        tags: Option<Map<Seq<char>, String>>,
    ) -> Admission {
        if facts.generation != self.generation || !facts.core_running {
            Admission::Superseded
        } else if facts.busy {
            Admission::Busy
        } else if facts.reconcile_required {
            Admission::NotEligible
        } else if facts.staged.masks(self.candidate.id) {
            Admission::Superseded
        } else if runtime is None {
            Admission::NotEligible
        } else if selection(runtime->0) != Some(self.expected_current) {
            Admission::Superseded
        } else if tags is None || !tags->0.contains_key(self.expected_current) {
            Admission::NotEligible
        } else {
            Admission::Admitted {
                starting_intent: facts.intent_generation,
                old_tag: tags->0[self.expected_current]@,
                runtime: runtime->0,
            }
        }
    }

    /// The saved configuration `latest` may be changed to the candidate: no newer intent has come
    /// up, it still selects the exit that is to be left, and the candidate is the one that was
    /// probed.
    pub open spec fn may_claim(
        self,
        latest: Json,
        intent_generation: u64,
        fingerprints: Map<Seq<char>, String>,
    ) -> bool {
        &&& self.phase is Persisting
        &&& intent_generation == self.starting_intent
        &&& selection(latest) == Some(self.expected_current)
        &&& self.still_fingerprinted(fingerprints)
    }

    /// The candidate still has the parameters that it was probed with.
    pub open spec fn still_fingerprinted(self, fingerprints: Map<Seq<char>, String>) -> bool {
        fingerprints.contains_key(self.candidate.id) && fingerprints[self.candidate.id]@
            == self.fingerprint
    }

    /// The saved configuration still stands for the switch: no draft touches the candidate, it is
    /// selected, and it is the one that was probed.
    pub open spec fn still_clean(
        self,
        staged: StagedNodeMask,
        latest: Option<Json>,
        fingerprints: Map<Seq<char>, String>,
    ) -> bool {
        &&& !staged.masks(self.candidate.id)
        &&& latest is Some
        &&& selection(latest->0) == Some(self.candidate.id)
        &&& self.still_fingerprinted(fingerprints)
    }

    /// The saved configuration `latest` may be changed back: the choice in it is the one that this
    /// transaction made.
    pub open spec fn may_roll_back(self, latest: Json, intent_generation: u64) -> bool {
        &&& self.phase is RollingBack
        &&& self.intent == Some(intent_generation)
        &&& selection(latest) == Some(self.candidate.id)
    }

    /// The next state. What is told out of turn changes nothing.
    pub open spec fn step(self, event: TransactionEvent) -> TransactionView {
        match (self.phase, event) {
            (TransactionPhase::Admitting, TransactionEvent::Admission(admission)) => match admission {
                Admission::Superseded => self.ended(
                    TransactionEnd::plain(AutoHotSwitchOutcome::Superseded),
                ),
                Admission::Busy => self.ended(TransactionEnd::plain(AutoHotSwitchOutcome::Busy)),
                Admission::NotEligible => self.ended(
                    TransactionEnd::plain(AutoHotSwitchOutcome::NotEligible),
                ),
                Admission::Admitted { starting_intent, old_tag, runtime } => TransactionView {
                    phase: TransactionPhase::Judging,
                    starting_intent,
                    old_tag,
                    runtime: Some(runtime),
                    ..self
                },
            },
            (TransactionPhase::Judging, TransactionEvent::Judged { verdict, judged }) => if verdict
                == CandidateSwitchPlan::HotSwitchable {
                TransactionView {
                    phase: TransactionPhase::Persisting,
                    judged: Some(judged),
                    ..self
                }
            } else {
                self.ended(TransactionEnd::plain(AutoHotSwitchOutcome::NotEligible))
            },
            (TransactionPhase::Persisting, TransactionEvent::Persisted(result)) => match result {
                PersistResult::Written { intent_generation } => TransactionView {
                    phase: TransactionPhase::Putting,
                    intent: Some(intent_generation),
                    ..self
                },
                PersistResult::Skipped => self.ended(
                    TransactionEnd::plain(AutoHotSwitchOutcome::Superseded),
                ),
                PersistResult::Failed => self.ended(
                    TransactionEnd::plain(AutoHotSwitchOutcome::Failed),
                ),
            },
            (TransactionPhase::Putting, TransactionEvent::TargetPut { applied, owned }) => if owned {
                self.at(TransactionPhase::Attesting { applied })
            } else {
                self.ended(TransactionEnd::overtaken())
            },
            (
                TransactionPhase::Attesting { applied },
                TransactionEvent::TargetRead { attested, clean, owned },
            ) => if !owned {
                self.ended(TransactionEnd::overtaken())
            } else if applied && attested && clean {
                self.at(TransactionPhase::Committing)
            } else {
                self.at(TransactionPhase::Restoring)
            },
            (TransactionPhase::Committing, TransactionEvent::Committed { owned }) => if owned {
                self.at(TransactionPhase::Refreshing)
            } else {
                self.ended(TransactionEnd::plain(AutoHotSwitchOutcome::Superseded))
            },
            (TransactionPhase::Refreshing, TransactionEvent::Refreshed { owned }) => if owned {
                self.ended(TransactionEnd::applied())
            } else {
                self.ended(TransactionEnd::plain(AutoHotSwitchOutcome::Superseded))
            },
            (TransactionPhase::Restoring, TransactionEvent::RestorePut { ok, owned }) => if owned {
                self.at(TransactionPhase::AttestingRestore { put_ok: ok })
            } else {
                self.ended(TransactionEnd::overtaken())
            },
            (
                TransactionPhase::AttestingRestore { put_ok },
                TransactionEvent::RestoreRead { restored, owned },
            ) => if !owned {
                self.ended(TransactionEnd::overtaken())
            } else if put_ok && restored {
                self.at(TransactionPhase::RollingBack)
            } else {
                self.ended(TransactionEnd::unconfirmed(self.intent->0))
            },
            (TransactionPhase::RollingBack, TransactionEvent::RolledBack { owned }) => if owned {
                self.ended(TransactionEnd::plain(AutoHotSwitchOutcome::Failed))
            } else {
                self.ended(TransactionEnd::plain(AutoHotSwitchOutcome::Superseded))
            },
            _ => self,
        }
    }

    /// The transaction was admitted, and has not ended.
    pub open spec fn under_way(self) -> bool {
        !(self.phase is Admitting) && !(self.phase is Done)
    }

    /// The core ran a configuration in which an exit can be selected.
    pub open spec fn has_baseline(self) -> bool {
        self.runtime is Some && self.runtime->0 is Object
    }

    /// There is a baseline once the transaction was admitted, a judged switch once it was judged,
    /// and an intent of its own once the choice is saved, and none of these before.
    pub open spec fn consistent(self) -> bool {
        &&& self.under_way() ==> self.has_baseline()
        &&& self.judged is Some ==> self.has_baseline()
        &&& self.under_way() ==> (self.judged is Some <==> !(self.phase is Judging))
        &&& self.phase is Admitting ==> self.runtime is None && self.judged is None
        &&& self.intent is Some ==> self.judged is Some
        &&& self.intent_fits()
    }

    /// There is an intent of its own once the choice is saved, and not before.
    pub open spec fn intent_fits(self) -> bool {
        match self.phase {
            TransactionPhase::Admitting => self.intent is None,
            TransactionPhase::Judging => self.intent is None,
            TransactionPhase::Persisting => self.intent is None,
            TransactionPhase::Done(end) => match end.outcome {
                AutoHotSwitchOutcome::Applied => self.intent is Some,
                AutoHotSwitchOutcome::Busy => self.intent is None,
                AutoHotSwitchOutcome::NotEligible => self.intent is None,
                AutoHotSwitchOutcome::ReconcilePending { intent_generation } => self.intent == Some(
                    intent_generation,
                ),
                _ => true,
            },
            _ => self.intent is Some,
        }
    }
}

/// The document behind an optional reference.
pub open spec fn optional_json(config: Option<&Value>) -> Option<Json> {
    match config {
        Some(config) => Some(json_of(*config)),
        None => None,
    }
}

/// The map behind an optional reference.
pub open spec fn optional_map(tags: Option<&NodeMap<String>>) -> Option<Map<Seq<char>, String>> {
    match tags {
        Some(tags) => Some(tags@),
        None => None,
    }
}

/// The groups were read, and have the member `tag` selected for the exit.
pub open spec fn read_selects(groups: Option<&Vec<SelectorGroup>>, tag: Seq<char>) -> bool {
    groups is Some && exit_selected(groups->0@, tag)
}

fn plain_end(outcome: AutoHotSwitchOutcome) -> (r: TransactionEnd)
    ensures
        r == TransactionEnd::plain(outcome),
{
    TransactionEnd { outcome, mark_required: false, report: None, push_pending: false }
}

fn overtaken_end() -> (r: TransactionEnd)
    ensures
        r == TransactionEnd::overtaken(),
{
    TransactionEnd {
        outcome: AutoHotSwitchOutcome::Superseded,
        mark_required: true,
        report: None,
        push_pending: false,
    }
}

impl HotSwitchTransaction {
    #[verifier::type_invariant]
    spec fn invariant_holds(self) -> bool {
        self@.consistent()
    }

    /// A switch from the exit `expected_current_id` to `candidate`, which was probed in the core
    /// generation `generation` under the fingerprint `expected_fingerprint`.
    pub fn new(
        generation: u64,
        expected_current_id: String,
        candidate: RuntimeCandidate,
        expected_fingerprint: String,
    ) -> (r: Self)
        ensures
            r@ == TransactionView::initial(
                generation,
                expected_current_id@,
                candidate@,
                expected_fingerprint@,
            ),
    {
        let r = HotSwitchTransaction {
            generation,
            expected_current_id,
            candidate,
            expected_fingerprint,
            phase: TransactionPhase::Admitting,
            starting_intent: 0,
            old_tag: String::new(),
            runtime_config: None,
            judged: None,
            intent: None,
        };
        assert(r@.old_tag =~= Seq::<char>::empty());
        r
    }

    /// What is to be done next.
    pub fn phase(&self) -> (r: TransactionPhase)
        ensures
            r == self@.phase,
    {
        self.phase
    }

    /// The core generation that the switch was planned in.
    pub fn generation(&self) -> (r: u64)
        ensures
            r == self@.generation,
    {
        self.generation
    }

    /// The exit that is to be taken.
    pub fn candidate(&self) -> (r: &RuntimeCandidate)
        ensures
            r@ == self@.candidate,
    {
        &self.candidate
    }

    /// The selector tag to go back to.
    pub fn old_tag(&self) -> (r: &str)
        ensures
            r@ == self@.old_tag,
    {
        self.old_tag.as_str()
    }

    /// The intent under which the choice was saved, once it is.
    pub fn intent(&self) -> (r: Option<u64>)
        ensures
            r == self@.intent,
    {
        self.intent
    }

    /// The configuration that the switch leads to: the one that the core ran when the transaction
    /// was admitted, with the candidate selected. It is what is to be classified, and what is to be
    /// taken over. There is one from admission on.
    pub fn switched_config(&self) -> (r: Option<Value>)
        ensures
            self@.under_way() ==> r is Some,
            match r {
                Some(switched) => {
                    &&& self@.has_baseline()
                    &&& json_of(switched) == with_selection(self@.runtime->0, self@.candidate.id)
                },
                None => !self@.has_baseline(),
            },
    {
        proof {
            use_type_invariant(self);
        }
        match &self.runtime_config {
            Some(runtime_config) => switched_config(runtime_config, &self.candidate),
            None => None,
        }
    }

    /// What the switch is to be carried out with: what it was judged by. There is something once
    /// the judgement was made.
    pub fn judged(&self) -> (r: Option<&JudgedSwitch>)
        ensures
            self@.under_way() && !(self@.phase is Judging) ==> r is Some,
            match r {
                Some(judged) => self@.judged == Some(judged@),
                None => self@.judged is None,
            },
    {
        proof {
            use_type_invariant(self);
        }
        self.judged.as_ref()
    }

    /// Takes in the state of the runtime: `runtime_config` is what the core runs, `id_to_tag` the
    /// selector tags of the nodes it has loaded.
    pub fn begin(
        &mut self,
        facts: &AdmissionFacts,
        runtime_config: Option<&Value>,
        id_to_tag: Option<&NodeMap<String>>,
    )
        ensures
            final(self)@ == old(self)@.step(
                TransactionEvent::Admission(
                    old(self)@.admission(
                        *facts,
                        optional_json(runtime_config),
                        optional_map(id_to_tag),
                    ),
                ),
            ),
    {
        proof {
            use_type_invariant(&*self);
        }
        match self.phase {
            TransactionPhase::Admitting => {},
            _ => {
                return ;
            },
        }
        let refusal: AutoHotSwitchOutcome = if facts.generation != self.generation
            || !facts.core_running {
            AutoHotSwitchOutcome::Superseded
        } else if facts.busy {
            AutoHotSwitchOutcome::Busy
        } else if facts.reconcile_required {
            AutoHotSwitchOutcome::NotEligible
        } else if facts.staged.is_masked(self.candidate.id.as_str()) {
            AutoHotSwitchOutcome::Superseded
        } else {
            match runtime_config {
                None => AutoHotSwitchOutcome::NotEligible,
                Some(runtime_config) => if !selects(
                    runtime_config,
                    self.expected_current_id.as_str(),
                ) {
                    AutoHotSwitchOutcome::Superseded
                } else {
                    let old_tag = match id_to_tag {
                        Some(id_to_tag) => id_to_tag.get(self.expected_current_id.as_str()),
                        None => None,
                    };
                    match old_tag {
                        Some(old_tag) => {
                            let old_tag = old_tag.clone();
                            let baseline = runtime_config.clone();
                            // Between two phases; the baseline belongs to the later one.
                            self.phase = TransactionPhase::Done(
                                plain_end(AutoHotSwitchOutcome::Superseded),
                            );
                            self.starting_intent = facts.intent_generation;
                            self.old_tag = old_tag;
                            self.runtime_config = Some(baseline);
                            self.phase = TransactionPhase::Judging;
                            return ;
                        },
                        None => AutoHotSwitchOutcome::NotEligible,
                    }
                },
            }
        };
        self.phase = TransactionPhase::Done(plain_end(refusal));
    }

    /// Takes in what the runtime made of [`switched_config`](Self::switched_config). A switch that
    /// can be made is carried out with what it was judged by.
    pub fn judge(&mut self, classified: Option<ClassifiedSwitch>)
        ensures
            final(self)@ == old(self)@.step(
                TransactionEvent::Judged {
                    verdict: switch_plan(classified, old(self)@.candidate.tag),
                    judged: judged_switch(classified),
                },
            ),
    {
        proof {
            use_type_invariant(&*self);
        }
        match self.phase {
            TransactionPhase::Judging => {},
            _ => {
                return ;
            },
        }
        let verdict = candidate_switch_plan(&classified, &self.candidate);
        match (verdict, classified) {
            (
                CandidateSwitchPlan::HotSwitchable,
                Some(ClassifiedSwitch::HotSwitch { puts, new_cfg }),
            ) => {
                let judged = JudgedSwitch {
                    puts,
                    interrupt: new_cfg.interrupts_connections(),
                    enable_ipv6: new_cfg.ipv6_enabled(),
                };
                // Between two phases; what was judged belongs to the later one.
                self.phase = TransactionPhase::Done(plain_end(AutoHotSwitchOutcome::Superseded));
                self.judged = Some(judged);
                self.phase = TransactionPhase::Persisting;
            },
            _ => {
                self.phase = TransactionPhase::Done(plain_end(AutoHotSwitchOutcome::NotEligible));
            },
        }
    }

    /// Changes the selected exit of the saved configuration to the candidate, where that is
    /// granted. To be called inside the write transaction of the configuration, with the latest
    /// intent and the fingerprints of `latest`.
    pub fn claim_target(
        &self,
        latest: &mut Value,
        intent_generation: u64,
        fingerprints: &NodeMap<String>,
    ) -> (r: bool)
        ensures
            r == self@.may_claim(json_of(*old(latest)), intent_generation, fingerprints@),
            r ==> json_of(*final(latest)) == with_selection(
                json_of(*old(latest)),
                self@.candidate.id,
            ),
            !r ==> *final(latest) == *old(latest),
    {
        match self.phase {
            TransactionPhase::Persisting => {},
            _ => {
                return false;
            },
        }
        if intent_generation != self.starting_intent {
            return false;
        }
        if !selects(latest, self.expected_current_id.as_str()) || !self.is_still_fingerprinted(
            fingerprints,
        ) {
            return false;
        }
        select_server(latest, self.candidate.id.as_str())
    }

    /// Whether the candidate still has the parameters that it was probed with.
    fn is_still_fingerprinted(&self, fingerprints: &NodeMap<String>) -> (r: bool)
        ensures
            r == self@.still_fingerprinted(fingerprints@),
    {
        match fingerprints.get(self.candidate.id.as_str()) {
            Some(fingerprint) => same_text(
                fingerprint.as_str(),
                self.expected_fingerprint.as_str(),
            ),
            None => false,
        }
    }

    /// Takes in what came of saving the choice.
    pub fn persisted(&mut self, result: PersistResult)
        ensures
            final(self)@ == old(self)@.step(TransactionEvent::Persisted(result)),
    {
        proof {
            use_type_invariant(&*self);
        }
        match self.phase {
            TransactionPhase::Persisting => {},
            _ => {
                return ;
            },
        }
        match result {
            PersistResult::Written { intent_generation } => {
                // Between two phases; the intent belongs to the later one.
                self.phase = TransactionPhase::Done(plain_end(AutoHotSwitchOutcome::Superseded));
                self.intent = Some(intent_generation);
                self.phase = TransactionPhase::Putting;
            },
            PersistResult::Skipped => {
                self.phase = TransactionPhase::Done(plain_end(AutoHotSwitchOutcome::Superseded));
            },
            PersistResult::Failed => {
                self.phase = TransactionPhase::Done(plain_end(AutoHotSwitchOutcome::Failed));
            },
        }
    }

    /// Takes in whether the selector was switched to the candidate.
    pub fn target_put(&mut self, applied: bool, owned: bool)
        ensures
            final(self)@ == old(self)@.step(TransactionEvent::TargetPut { applied, owned }),
    {
        proof {
            use_type_invariant(&*self);
        }
        if let TransactionPhase::Putting = self.phase {
            if owned {
                self.phase = TransactionPhase::Attesting { applied };
            } else {
                self.phase = TransactionPhase::Done(overtaken_end());
            }
        }
    }

    /// Takes in the selector groups read back (`None` where they were not, or could not be), and
    /// the state of the saved configuration at that time.
    pub fn target_read(
        &mut self,
        groups: Option<&Vec<SelectorGroup>>,
        owned: bool,
        staged: &StagedNodeMask,
        latest: Option<&Value>,
        fingerprints: &NodeMap<String>,
    )
        ensures
            final(self)@ == old(self)@.step(
                TransactionEvent::TargetRead {
                    attested: read_selects(groups, old(self)@.candidate.tag),
                    clean: old(self)@.still_clean(*staged, optional_json(latest), fingerprints@),
                    owned,
                },
            ),
    {
        proof {
            use_type_invariant(&*self);
        }
        if let TransactionPhase::Attesting { applied } = self.phase {
            let attested = match groups {
                Some(groups) => attests_exit(groups, self.candidate.tag.as_str()),
                None => false,
            };
            let still_selected = match latest {
                Some(latest) => selects(latest, self.candidate.id.as_str()),
                None => false,
            };
            let clean = !staged.is_masked(self.candidate.id.as_str()) && still_selected
                && self.is_still_fingerprinted(fingerprints);
            if !owned {
                self.phase = TransactionPhase::Done(overtaken_end());
            } else if applied && attested && clean {
                self.phase = TransactionPhase::Committing;
            } else {
                self.phase = TransactionPhase::Restoring;
            }
        }
    }

    /// Takes in that the new configuration was taken over.
    pub fn committed(&mut self, owned: bool)
        ensures
            final(self)@ == old(self)@.step(TransactionEvent::Committed { owned }),
    {
        proof {
            use_type_invariant(&*self);
        }
        if let TransactionPhase::Committing = self.phase {
            if owned {
                self.phase = TransactionPhase::Refreshing;
            } else {
                self.phase = TransactionPhase::Done(plain_end(AutoHotSwitchOutcome::Superseded));
            }
        }
    }

    /// Takes in that what depends on the exit was renewed.
    pub fn refreshed(&mut self, owned: bool)
        ensures
            final(self)@ == old(self)@.step(TransactionEvent::Refreshed { owned }),
    {
        proof {
            use_type_invariant(&*self);
        }
        if let TransactionPhase::Refreshing = self.phase {
            if owned {
                self.phase = TransactionPhase::Done(
                    TransactionEnd {
                        outcome: AutoHotSwitchOutcome::Applied,
                        mark_required: false,
                        report: None,
                        push_pending: true,
                    },
                );
            } else {
                self.phase = TransactionPhase::Done(plain_end(AutoHotSwitchOutcome::Superseded));
            }
        }
    }

    /// Takes in whether the selector was switched back.
    pub fn restore_put(&mut self, ok: bool, owned: bool)
        ensures
            final(self)@ == old(self)@.step(TransactionEvent::RestorePut { ok, owned }),
    {
        proof {
            use_type_invariant(&*self);
        }
        if let TransactionPhase::Restoring = self.phase {
            if owned {
                self.phase = TransactionPhase::AttestingRestore { put_ok: ok };
            } else {
                self.phase = TransactionPhase::Done(overtaken_end());
            }
        }
    }

    /// Takes in the selector groups read back after that.
    pub fn restore_read(&mut self, groups: Option<&Vec<SelectorGroup>>, owned: bool)
        ensures
            final(self)@ == old(self)@.step(
                TransactionEvent::RestoreRead {
                    restored: read_selects(groups, old(self)@.old_tag),
                    owned,
                },
            ),
    {
        proof {
            use_type_invariant(&*self);
        }
        if let TransactionPhase::AttestingRestore { put_ok } = self.phase {
            let restored = match groups {
                Some(groups) => attests_exit(groups, self.old_tag.as_str()),
                None => false,
            };
            if !owned {
                self.phase = TransactionPhase::Done(overtaken_end());
            } else if put_ok && restored {
                self.phase = TransactionPhase::RollingBack;
            } else if let Some(intent_generation) = self.intent {
                self.phase = TransactionPhase::Done(
                    TransactionEnd {
                        outcome: AutoHotSwitchOutcome::ReconcilePending { intent_generation },
                        mark_required: false,
                        report: Some(ReportCode::ExitMismatch),
                        push_pending: true,
                    },
                );
            }
        }
    }

    /// Changes the selected exit of the saved configuration back, where that is granted. To be
    /// called inside the write transaction of the configuration, with the latest intent.
    pub fn roll_back(&self, latest: &mut Value, intent_generation: u64) -> (r: bool)
        ensures
            r == self@.may_roll_back(json_of(*old(latest)), intent_generation),
            r ==> json_of(*final(latest)) == with_selection(
                json_of(*old(latest)),
                self@.expected_current,
            ),
            !r ==> *final(latest) == *old(latest),
    {
        match self.phase {
            TransactionPhase::RollingBack => {},
            _ => {
                return false;
            },
        }
        let own = match self.intent {
            Some(intent) => intent == intent_generation,
            None => false,
        };
        if !own || !selects(latest, self.candidate.id.as_str()) {
            return false;
        }
        select_server(latest, self.expected_current_id.as_str())
    }

    /// Takes in that the saved choice was taken back, as far as that was granted.
    pub fn rolled_back(&mut self, owned: bool)
        ensures
            final(self)@ == old(self)@.step(TransactionEvent::RolledBack { owned }),
    {
        proof {
            use_type_invariant(&*self);
        }
        if let TransactionPhase::RollingBack = self.phase {
            if owned {
                self.phase = TransactionPhase::Done(plain_end(AutoHotSwitchOutcome::Failed));
            } else {
                self.phase = TransactionPhase::Done(plain_end(AutoHotSwitchOutcome::Superseded));
            }
        }
    }
}

} // verus!
