//! What each step of a switch is decided by, over what was read, and what it changes.
use crate::json::Json;
use crate::report::ReportCode;
use crate::sweep::{CandidateSwitchPlan, ClassifiedSwitch, PROXY_SELECTOR};
use crate::transaction::{
    exit_selected, judged_switch, read_selects, Admission, AdmissionFacts, AutoHotSwitchOutcome,
    PersistResult, SelectorGroup, StagedNodeMask, TransactionEnd, TransactionEvent,
    TransactionPhase, TransactionView,
};
use vstd::prelude::*;

verus! {

/// Any group attests: wherever, at whatever place of the reading, the exit selector is found with a
/// member selected, that member is attested.
pub proof fn law_any_group_attests(groups: Seq<SelectorGroup>, i: int)
    requires
        0 <= i < groups.len(),
        groups[i].tag@ == PROXY_SELECTOR@,
    ensures
        exit_selected(groups, groups[i].selected@),
{
    assert(groups[i].tag@ == PROXY_SELECTOR@);
}

/// Nothing else attests: a member that no group of that name has selected is not.
pub proof fn law_nothing_else_attests(groups: Seq<SelectorGroup>, tag: Seq<char>)
    requires
        forall|i: int|
            0 <= i < groups.len() ==> (#[trigger] groups[i]).tag@ != PROXY_SELECTOR@
                || groups[i].selected@ != tag,
    ensures
        !exit_selected(groups, tag),
{
}

/// Groups can be read in parts and in any order: the whole attests a member exactly where a part
/// does.
pub proof fn law_groups_attest_in_any_order(
    before: Seq<SelectorGroup>,
    after: Seq<SelectorGroup>,
    tag: Seq<char>,
)
    ensures
        exit_selected(before + after, tag) <==> exit_selected(before, tag) || exit_selected(
            after,
            tag,
        ),
        exit_selected(before + after, tag) <==> exit_selected(after + before, tag),
{
    lemma_groups_attest(before, after, tag);
    lemma_groups_attest(after, before, tag);
}

proof fn lemma_groups_attest(
    before: Seq<SelectorGroup>,
    after: Seq<SelectorGroup>,
    tag: Seq<char>,
)
    ensures
        exit_selected(before + after, tag) <==> exit_selected(before, tag) || exit_selected(
            after,
            tag,
        ),
{
    let all = before + after;
    if exit_selected(all, tag) {
        let i = choose|i: int|
            0 <= i < all.len() && (#[trigger] all[i]).tag@ == PROXY_SELECTOR@ && all[i].selected@
                == tag;
        if i < before.len() {
            assert(before[i] == all[i]);
        } else {
            assert(after[i - before.len()] == all[i]);
        }
    }
    if exit_selected(before, tag) {
        let i = choose|i: int|
            0 <= i < before.len() && (#[trigger] before[i]).tag@ == PROXY_SELECTOR@
                && before[i].selected@ == tag;
        assert(all[i] == before[i]);
    }
    if exit_selected(after, tag) {
        let i = choose|i: int|
            0 <= i < after.len() && (#[trigger] after[i]).tag@ == PROXY_SELECTOR@
                && after[i].selected@ == tag;
        assert(all[before.len() + i] == after[i]);
    }
}

/// A good switch is taken over: where the selector was switched and is still owned, some group of
/// the reading has the candidate on the exit selector, no draft touches it, and the saved
/// configuration selects it under the fingerprint it was probed with, the transaction commits.
pub proof fn law_good_reading_commits(
    t: TransactionView,
    groups: &Vec<SelectorGroup>,
    i: int,
    staged: StagedNodeMask,
    latest: Json,
    fingerprints: Map<Seq<char>, String>,
)
    requires
        t.phase == (TransactionPhase::Attesting { applied: true }),
        0 <= i < groups@.len(),
        groups@[i].tag@ == PROXY_SELECTOR@,
        groups@[i].selected@ == t.candidate.tag,
        !staged.pending || (staged.scope_known && !staged.node_ids@.contains(t.candidate.id)),
        latest.text_member("selectedServerId"@) == Some(t.candidate.id),
        fingerprints.contains_key(t.candidate.id),
        fingerprints[t.candidate.id]@ == t.fingerprint,
    ensures
        t.step(
            TransactionEvent::TargetRead {
                attested: read_selects(Some(groups), t.candidate.tag),
                clean: t.still_clean(staged, Some(latest), fingerprints),
                owned: true,
            },
        ).phase is Committing,
{
    law_any_group_attests(groups@, i);
}

/// Any other owned reading leads back: where the selector was not switched, was not read, does not
/// have the candidate on the exit selector, or the saved configuration no longer stands for it.
pub proof fn law_any_other_reading_restores(
    t: TransactionView,
    applied: bool,
    groups: Option<&Vec<SelectorGroup>>,
    staged: StagedNodeMask,
    latest: Option<Json>,
    fingerprints: Map<Seq<char>, String>,
)
    requires
        t.phase == (TransactionPhase::Attesting { applied }),
        ({
            ||| !applied
            ||| groups is None
            ||| forall|i: int|
                0 <= i < groups->0@.len() ==> (#[trigger] groups->0@[i]).tag@ != PROXY_SELECTOR@
                    || groups->0@[i].selected@ != t.candidate.tag
            ||| staged.pending && !staged.scope_known
            ||| staged.pending && staged.node_ids@.contains(t.candidate.id)
            ||| latest is None
            ||| latest->0.text_member("selectedServerId"@) != Some(t.candidate.id)
            ||| !fingerprints.contains_key(t.candidate.id)
            ||| fingerprints[t.candidate.id]@ != t.fingerprint
        }),
    ensures
        t.step(
            TransactionEvent::TargetRead {
                attested: read_selects(groups, t.candidate.tag),
                clean: t.still_clean(staged, latest, fingerprints),
                owned: true,
            },
        ).phase is Restoring,
{
}

/// An old exit is confirmed in the same way: where it was switched back to and is still owned, a
/// reading with its tag on the exit selector, at whatever place, leads to taking the choice back;
/// any other owned reading leaves the choice to reconciliation.
pub proof fn law_old_exit_is_confirmed_by_any_group(
    t: TransactionView,
    put_ok: bool,
    groups: Option<&Vec<SelectorGroup>>,
)
    requires
        t.phase == (TransactionPhase::AttestingRestore { put_ok }),
    ensures
        ({
            let n = t.step(
                TransactionEvent::RestoreRead {
                    restored: read_selects(groups, t.old_tag),
                    owned: true,
                },
            );
            let confirmed = groups is Some && exists|i: int|
                0 <= i < groups->0@.len() && (#[trigger] groups->0@[i]).tag@ == PROXY_SELECTOR@
                    && groups->0@[i].selected@ == t.old_tag;
            &&& put_ok && confirmed <==> n.phase is RollingBack
            &&& !(put_ok && confirmed) <==> n.phase is Done && n.phase->Done_0.outcome
                is ReconcilePending
        }),
{
}

/// A transaction is under way from its admission to its end, and has a baseline where the core ran an
/// object.
pub proof fn law_under_way_from_admission_to_end(t: TransactionView)
    ensures
        t.under_way() <==> !(t.phase is Admitting) && !(t.phase is Done),
        t.has_baseline() <==> t.runtime is Some && t.runtime->0 is Object,
{
}

/// A draft masks a node where it may touch it: it is there, and either its scope is unknown or the
/// node is in it.
pub proof fn law_draft_masks_what_it_may_touch(staged: StagedNodeMask, id: Seq<char>)
    ensures
        staged.masks(id) <==> staged.pending && (!staged.scope_known || staged.node_ids@.contains(
            id,
        )),
{
}

/// A transaction is admitted exactly where the core still runs in its generation, no start or stop
/// is under way, the selector needs no reconciliation, no draft may touch the candidate, the core
/// runs a configuration that still selects the exit that is to be left, and the tag of that exit is
/// known. It then sets out from the latest intent, that tag and that configuration.
pub proof fn law_admission_needs_an_undisturbed_core(
    t: TransactionView,
    facts: AdmissionFacts,
    runtime: Option<Json>,
    tags: Option<Map<Seq<char>, String>>,
)
    ensures
        t.admission(facts, runtime, tags) is Admitted <==> {
            &&& facts.generation == t.generation && facts.core_running
            &&& !facts.busy
            &&& !facts.reconcile_required
            &&& !(facts.staged.pending && (!facts.staged.scope_known
                || facts.staged.node_ids@.contains(t.candidate.id)))
            &&& runtime is Some
            &&& runtime->0.text_member("selectedServerId"@) == Some(t.expected_current)
            &&& tags is Some && tags->0.contains_key(t.expected_current)
        },
        t.admission(facts, runtime, tags) matches Admission::Admitted {
            starting_intent,
            old_tag,
            runtime: baseline,
        } ==> starting_intent == facts.intent_generation && old_tag == tags->0[t.expected_current]@
            && baseline == runtime->0,
{
}

/// Who is refused, and how: another generation or a stopped core supersedes before anything else;
/// then a start or stop under way is busy; then a selector in need of reconciliation is not
/// eligible; then a draft that may touch the candidate supersedes; then a core without a
/// configuration is not eligible; then one that has left the exit already supersedes; and an exit
/// without a known tag is not eligible.
pub proof fn law_refusals_come_in_order(
    t: TransactionView,
    facts: AdmissionFacts,
    runtime: Option<Json>,
    tags: Option<Map<Seq<char>, String>>,
)
    ensures
        ({
            let a = t.admission(facts, runtime, tags);
            let gone = facts.generation != t.generation || !facts.core_running;
            let masked = facts.staged.pending && (!facts.staged.scope_known
                || facts.staged.node_ids@.contains(t.candidate.id));
            let left = runtime is Some && runtime->0.text_member("selectedServerId"@) != Some(
                t.expected_current,
            );
            let calm = !gone && !facts.busy && !facts.reconcile_required;
            &&& gone ==> a is Superseded
            &&& !gone && facts.busy ==> a is Busy
            &&& !gone && !facts.busy && facts.reconcile_required ==> a is NotEligible
            &&& calm && masked ==> a is Superseded
            &&& calm && !masked && runtime is None ==> a is NotEligible
            &&& calm && !masked && left ==> a is Superseded
            &&& calm && !masked && runtime is Some && !left && (tags is None
                || !tags->0.contains_key(t.expected_current)) ==> a is NotEligible
            &&& a is Busy ==> !gone && facts.busy
        }),
{
}

/// The choice may be saved exactly where the transaction is at that, no newer intent has come up,
/// the saved configuration still selects the exit that is to be left, and the candidate has the
/// fingerprint that it was probed with.
pub proof fn law_claim_needs_an_unchanged_configuration(
    t: TransactionView,
    latest: Json,
    intent_generation: u64,
    fingerprints: Map<Seq<char>, String>,
)
    ensures
        t.may_claim(latest, intent_generation, fingerprints) <==> {
            &&& t.phase is Persisting
            &&& intent_generation == t.starting_intent
            &&& latest.text_member("selectedServerId"@) == Some(t.expected_current)
            &&& fingerprints.contains_key(t.candidate.id)
            &&& fingerprints[t.candidate.id]@ == t.fingerprint
        },
{
}

/// The choice may be taken back exactly where the transaction is at that, the latest intent is its
/// own, and the saved configuration selects what it chose.
pub proof fn law_roll_back_needs_its_own_choice(
    t: TransactionView,
    latest: Json,
    intent_generation: u64,
)
    ensures
        t.may_roll_back(latest, intent_generation) <==> {
            &&& t.phase is RollingBack
            &&& t.intent == Some(intent_generation)
            &&& latest.text_member("selectedServerId"@) == Some(t.candidate.id)
        },
{
}

/// A new transaction is about its arguments, waits to be admitted, and holds nothing else yet.
pub proof fn law_new_transaction_is_about_its_arguments(
    generation: u64,
    current: Seq<char>,
    candidate: crate::candidates::CandidateView,
    fingerprint: Seq<char>,
)
    ensures
        ({
            let t = TransactionView::initial(generation, current, candidate, fingerprint);
            &&& t.generation == generation
            &&& t.expected_current == current
            &&& t.candidate == candidate
            &&& t.fingerprint == fingerprint
            &&& t.phase is Admitting
            &&& t.runtime is None
            &&& t.judged is None
            &&& t.intent is None
        }),
{
}

/// What a switch is carried out with is what the runtime said: its changes, one by one, and the
/// settings of the configuration that it leads to.
pub proof fn law_judged_switch_is_what_the_runtime_said(classified: ClassifiedSwitch, i: int)
    ensures
        classified matches ClassifiedSwitch::HotSwitch { puts, new_cfg } ==> {
            let j = judged_switch(Some(classified));
            &&& j.puts.len() == puts@.len()
            &&& 0 <= i < puts@.len() ==> j.puts[i].selector_tag == puts@[i].selector_tag@
                && j.puts[i].member_tag == puts@[i].member_tag@
            &&& j.interrupt <==> new_cfg.interrupt_connections_on_switch == Some(true)
            &&& j.enable_ipv6 <==> new_cfg.enable_ipv6 == Some(true)
        },
{
}

/// What a step may change: only an admission sets the latest intent, the old tag and the baseline;
/// only a judgement sets what the switch is carried out with; only a written choice sets an intent;
/// and an end sets none of these. What the transaction is about never changes.
pub proof fn law_steps_change_their_own(t: TransactionView, event: TransactionEvent)
    ensures
        ({
            let n = t.step(event);
            &&& n.generation == t.generation
            &&& n.expected_current == t.expected_current
            &&& n.candidate == t.candidate
            &&& n.fingerprint == t.fingerprint
            &&& !(event is Admission) ==> n.starting_intent == t.starting_intent && n.old_tag
                == t.old_tag && n.runtime == t.runtime
            &&& n.phase is Done ==> n.starting_intent == t.starting_intent && n.old_tag == t.old_tag
                && n.runtime == t.runtime && n.judged == t.judged && n.intent == t.intent
            &&& !(event is Judged) ==> n.judged == t.judged
            &&& !(event is Persisted) ==> n.intent == t.intent
        }),
{
}

/// The way to the saved choice, step by step.
pub proof fn law_way_to_the_saved_choice(
    t: TransactionView,
    starting_intent: u64,
    old_tag: Seq<char>,
    runtime: Json,
    judged: crate::transaction::JudgedView,
    intent_generation: u64,
)
    ensures
        t.phase is Admitting ==> {
            let n = t.step(
                TransactionEvent::Admission(
                    Admission::Admitted { starting_intent, old_tag, runtime },
                ),
            );
            &&& n.phase is Judging
            &&& n.starting_intent == starting_intent
            &&& n.old_tag == old_tag
            &&& n.runtime == Some(runtime)
        },
        t.phase is Judging ==> {
            let n = t.step(
                TransactionEvent::Judged { verdict: CandidateSwitchPlan::HotSwitchable, judged },
            );
            n.phase is Persisting && n.judged == Some(judged)
        },
        t.phase is Persisting ==> {
            let n = t.step(
                TransactionEvent::Persisted(PersistResult::Written { intent_generation }),
            );
            n.phase is Putting && n.intent == Some(intent_generation)
        },
{
}

/// An end, with what is left to do for it.
pub open spec fn ends_as(
    n: TransactionView,
    outcome: AutoHotSwitchOutcome,
    mark_required: bool,
    report: Option<ReportCode>,
    push_pending: bool,
) -> bool {
    n.phase == TransactionPhase::Done(TransactionEnd { outcome, mark_required, report, push_pending })
}

/// Before the choice is saved, a transaction that cannot go on ends at once, leaves nothing to do,
/// and has saved nothing.
pub proof fn law_early_ends_leave_nothing_to_do(
    t: TransactionView,
    verdict: CandidateSwitchPlan,
    judged: crate::transaction::JudgedView,
)
    ensures
        t.phase is Admitting ==> {
            &&& ends_as(
                t.step(TransactionEvent::Admission(Admission::Superseded)),
                AutoHotSwitchOutcome::Superseded,
                false,
                None,
                false,
            )
            &&& ends_as(
                t.step(TransactionEvent::Admission(Admission::Busy)),
                AutoHotSwitchOutcome::Busy,
                false,
                None,
                false,
            )
            &&& ends_as(
                t.step(TransactionEvent::Admission(Admission::NotEligible)),
                AutoHotSwitchOutcome::NotEligible,
                false,
                None,
                false,
            )
        },
        t.phase is Judging && verdict != CandidateSwitchPlan::HotSwitchable ==> ends_as(
            t.step(TransactionEvent::Judged { verdict, judged }),
            AutoHotSwitchOutcome::NotEligible,
            false,
            None,
            false,
        ) && t.step(TransactionEvent::Judged { verdict, judged }).judged == t.judged,
        t.phase is Persisting ==> {
            &&& ends_as(
                t.step(TransactionEvent::Persisted(PersistResult::Skipped)),
                AutoHotSwitchOutcome::Superseded,
                false,
                None,
                false,
            )
            &&& ends_as(
                t.step(TransactionEvent::Persisted(PersistResult::Failed)),
                AutoHotSwitchOutcome::Failed,
                false,
                None,
                false,
            )
            &&& t.step(TransactionEvent::Persisted(PersistResult::Skipped)).intent == t.intent
            &&& t.step(TransactionEvent::Persisted(PersistResult::Failed)).intent == t.intent
        },
{
}

/// The way through the selector while it is owned: after the switch it is read back, whether or not
/// the switch succeeded; a commit is followed by the renewal of what depends on the exit, and that
/// by the end as applied, with the pending changes to be announced.
pub proof fn law_way_through_the_selector(t: TransactionView, applied: bool)
    ensures
        t.phase is Putting ==> t.step(TransactionEvent::TargetPut { applied, owned: true }).phase
            == (TransactionPhase::Attesting { applied }),
        t.phase is Committing ==> t.step(TransactionEvent::Committed { owned: true }).phase
            is Refreshing,
        t.phase is Refreshing ==> ends_as(
            t.step(TransactionEvent::Refreshed { owned: true }),
            AutoHotSwitchOutcome::Applied,
            false,
            None,
            true,
        ),
{
}

/// The way back: after the selector was switched back it is read again; where the old exit is
/// confirmed the choice is taken back and the transaction ends as failed, and otherwise it is left
/// to reconciliation under its own intent, reported, with the pending changes to be announced.
pub proof fn law_way_back(t: TransactionView, ok: bool, restored: bool)
    ensures
        t.phase is Restoring ==> t.step(TransactionEvent::RestorePut { ok, owned: true }).phase == (
        TransactionPhase::AttestingRestore { put_ok: ok }),
        t.phase == (TransactionPhase::AttestingRestore { put_ok: ok }) && ok && restored
            ==> t.step(TransactionEvent::RestoreRead { restored, owned: true }).phase
            is RollingBack,
        t.phase == (TransactionPhase::AttestingRestore { put_ok: ok }) && !(ok && restored)
            ==> ends_as(
            t.step(TransactionEvent::RestoreRead { restored, owned: true }),
            AutoHotSwitchOutcome::ReconcilePending { intent_generation: t.intent->0 },
            false,
            Some(ReportCode::ExitMismatch),
            true,
        ),
        t.phase is RollingBack ==> ends_as(
            t.step(TransactionEvent::RolledBack { owned: true }),
            AutoHotSwitchOutcome::Failed,
            false,
            None,
            false,
        ),
{
}

/// Losing the selector ends the transaction as superseded, with nothing reported or announced; it is
/// marked for reconciliation where it had been touched and nothing was taken over or taken back yet.
pub proof fn law_losing_the_selector(t: TransactionView, a: bool, b: bool)
    ensures
        t.phase is Putting ==> ends_as(
            t.step(TransactionEvent::TargetPut { applied: a, owned: false }),
            AutoHotSwitchOutcome::Superseded,
            true,
            None,
            false,
        ),
        t.phase is Attesting ==> ends_as(
            t.step(TransactionEvent::TargetRead { attested: a, clean: b, owned: false }),
            AutoHotSwitchOutcome::Superseded,
            true,
            None,
            false,
        ),
        t.phase is Committing ==> ends_as(
            t.step(TransactionEvent::Committed { owned: false }),
            AutoHotSwitchOutcome::Superseded,
            false,
            None,
            false,
        ),
        t.phase is Refreshing ==> ends_as(
            t.step(TransactionEvent::Refreshed { owned: false }),
            AutoHotSwitchOutcome::Superseded,
            false,
            None,
            false,
        ),
        t.phase is Restoring ==> ends_as(
            t.step(TransactionEvent::RestorePut { ok: a, owned: false }),
            AutoHotSwitchOutcome::Superseded,
            true,
            None,
            false,
        ),
        t.phase is AttestingRestore ==> ends_as(
            t.step(TransactionEvent::RestoreRead { restored: a, owned: false }),
            AutoHotSwitchOutcome::Superseded,
            true,
            None,
            false,
        ),
        t.phase is RollingBack ==> ends_as(
            t.step(TransactionEvent::RolledBack { owned: false }),
            AutoHotSwitchOutcome::Superseded,
            false,
            None,
            false,
        ),
{
}

/// What is told to a phase that did not ask for it changes nothing.
pub proof fn law_steps_out_of_turn_change_nothing(t: TransactionView, event: TransactionEvent)
    requires
        event is Admission ==> !(t.phase is Admitting),
        event is Judged ==> !(t.phase is Judging),
        event is Persisted ==> !(t.phase is Persisting),
        event is TargetPut ==> !(t.phase is Putting),
        event is TargetRead ==> !(t.phase is Attesting),
        event is Committed ==> !(t.phase is Committing),
        event is Refreshed ==> !(t.phase is Refreshing),
        event is RestorePut ==> !(t.phase is Restoring),
        event is RestoreRead ==> !(t.phase is AttestingRestore),
        event is RolledBack ==> !(t.phase is RollingBack),
    ensures
        t.step(event) == t,
{
}

} // verus!
