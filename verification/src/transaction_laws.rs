//! What holds of a switch over its whole course.
use crate::candidates::CandidateView;
use crate::config::{law_selection_can_be_undone, law_selection_reads_back, with_selection};
use crate::json::Json;
use crate::mesh::UserConfig;
use crate::report::ReportCode;
use crate::sweep::{
    sort_classified, switch_plan, CandidateSwitchPlan, ClassifiedSwitch, Sorting, PROXY_SELECTOR,
};
use crate::transaction::{
    judged_switch, put_views, Admission, AutoHotSwitchOutcome, JudgedView, PersistResult, PutView,
    TransactionEvent, TransactionPhase, TransactionView,
};
use vstd::prelude::*;

verus! {

/// The state of a new transaction.
pub open spec fn is_new(t: TransactionView) -> bool {
    t.phase is Admitting && t.runtime is None && t.judged is None && t.intent is None
}

/// The state after a course of events.
pub open spec fn course(t: TransactionView, events: Seq<TransactionEvent>) -> TransactionView
    decreases events.len(),
{
    if events.len() == 0 {
        t
    } else {
        course(t, events.drop_last()).step(events.last())
    }
}

/// The event answers what the phase asks for.
pub open spec fn answers(event: TransactionEvent, phase: TransactionPhase) -> bool {
    match phase {
        TransactionPhase::Admitting => event is Admission,
        TransactionPhase::Judging => event is Judged,
        TransactionPhase::Persisting => event is Persisted,
        TransactionPhase::Putting => event is TargetPut,
        TransactionPhase::Attesting { .. } => event is TargetRead,
        TransactionPhase::Committing => event is Committed,
        TransactionPhase::Refreshing => event is Refreshed,
        TransactionPhase::Restoring => event is RestorePut,
        TransactionPhase::AttestingRestore { .. } => event is RestoreRead,
        TransactionPhase::RollingBack => event is RolledBack,
        TransactionPhase::Done(_) => false,
    }
}

/// In the course of `events` the event was told in answer to `phase`. What is told out of turn does
/// not count.
pub open spec fn answered(
    t: TransactionView,
    events: Seq<TransactionEvent>,
    phase: TransactionPhase,
    event: TransactionEvent,
) -> bool {
    exists|i: int|
        0 <= i < events.len() && #[trigger] events[i] == event && course(t, events.take(i)).phase
            == phase
}

/// The event tells that the selector now belongs to somebody else.
pub open spec fn disowns(event: TransactionEvent) -> bool {
    match event {
        TransactionEvent::TargetPut { owned, .. } => !owned,
        TransactionEvent::TargetRead { owned, .. } => !owned,
        TransactionEvent::Committed { owned } => !owned,
        TransactionEvent::Refreshed { owned } => !owned,
        TransactionEvent::RestorePut { owned, .. } => !owned,
        TransactionEvent::RestoreRead { owned, .. } => !owned,
        TransactionEvent::RolledBack { owned } => !owned,
        _ => false,
    }
}

/// The number of answers that a transaction can still take in.
pub open spec fn answers_left(phase: TransactionPhase) -> nat {
    match phase {
        TransactionPhase::Admitting => 8,
        TransactionPhase::Judging => 7,
        TransactionPhase::Persisting => 6,
        TransactionPhase::Putting => 5,
        TransactionPhase::Attesting { .. } => 4,
        TransactionPhase::Restoring => 3,
        TransactionPhase::Committing => 2,
        TransactionPhase::AttestingRestore { .. } => 2,
        TransactionPhase::Refreshing => 1,
        TransactionPhase::RollingBack => 1,
        TransactionPhase::Done(_) => 0,
    }
}

pub open spec fn is_done(t: TransactionView, outcome: AutoHotSwitchOutcome) -> bool {
    t.phase is Done && t.phase->Done_0.outcome == outcome
}

/// The running core has confirmed the candidate, while the saved configuration still stood for it
/// and the selector was still owned.
pub open spec fn confirmed() -> TransactionEvent {
    TransactionEvent::TargetRead { attested: true, clean: true, owned: true }
}

/// The running core has confirmed the old exit, while the selector was still owned.
pub open spec fn restored() -> TransactionEvent {
    TransactionEvent::RestoreRead { restored: true, owned: true }
}

/// The candidate was found to be reachable without a restart, and `judged` is how.
pub open spec fn found_switchable(judged: JudgedView) -> TransactionEvent {
    TransactionEvent::Judged { verdict: CandidateSwitchPlan::HotSwitchable, judged }
}

/// The choice was saved under this intent.
pub open spec fn saved(intent_generation: u64) -> TransactionEvent {
    TransactionEvent::Persisted(PersistResult::Written { intent_generation })
}

/// The selector was switched to the candidate, and still owned by then.
pub open spec fn target_put() -> TransactionEvent {
    TransactionEvent::TargetPut { applied: true, owned: true }
}

/// The selector was switched back, and still owned by then.
pub open spec fn restore_put() -> TransactionEvent {
    TransactionEvent::RestorePut { ok: true, owned: true }
}

/// Each answer brings a transaction nearer to its end, and what is told out of turn changes
/// nothing.
pub proof fn law_every_answer_makes_progress(t: TransactionView, event: TransactionEvent)
    ensures
        answers(event, t.phase) ==> answers_left(t.step(event).phase) < answers_left(t.phase),
        !answers(event, t.phase) ==> t.step(event) == t,
        answers_left(t.phase) == 0 <==> t.phase is Done,
{
}

/// A transaction ends after eight answers at the most.
pub proof fn law_transaction_always_ends(t: TransactionView, events: Seq<TransactionEvent>)
    requires
        forall|i: int|
            0 <= i < events.len() ==> answers(
                #[trigger] events[i],
                course(t, events.take(i)).phase,
            ),
    ensures
        events.len() + answers_left(course(t, events).phase) <= answers_left(t.phase),
        answers_left(t.phase) <= 8,
    decreases events.len(),
{
    if events.len() > 0 {
        let rest = events.drop_last();
        let last = events.len() - 1;
        assert(events.take(last) =~= rest);
        assert(answers(events[last], course(t, rest).phase));
        assert forall|i: int| 0 <= i < rest.len() implies answers(
            #[trigger] rest[i],
            course(t, rest.take(i)).phase,
        ) by {
            assert(rest[i] == events[i]);
            assert(rest.take(i) =~= events.take(i));
        }
        law_transaction_always_ends(t, rest);
    }
}

/// The end of a transaction is final.
pub proof fn law_end_is_final(t: TransactionView, events: Seq<TransactionEvent>)
    requires
        t.phase is Done,
    ensures
        course(t, events) == t,
    decreases events.len(),
{
    if events.len() > 0 {
        law_end_is_final(t, events.drop_last());
    }
}

/// What was answered stays answered as the course goes on, and so does the last answer.
proof fn lemma_answered(t: TransactionView, events: Seq<TransactionEvent>)
    requires
        events.len() > 0,
    ensures
        forall|phase: TransactionPhase, e: TransactionEvent| #[trigger]
            answered(t, events.drop_last(), phase, e) ==> answered(t, events, phase, e),
        answered(t, events, course(t, events.drop_last()).phase, events.last()),
{
    let rest = events.drop_last();
    let last = events.len() - 1;
    assert(events.take(last) =~= rest);
    assert(events[last] == events.last());
    assert forall|phase: TransactionPhase, e: TransactionEvent| #[trigger]
        answered(t, rest, phase, e) implies answered(t, events, phase, e) by {
        let i = choose|i: int|
            0 <= i < rest.len() && #[trigger] rest[i] == e && course(t, rest.take(i)).phase == phase;
        assert(events[i] == e);
        assert(events.take(i) =~= rest.take(i));
    }
}

/// Along every course the saved intent fits the phase: nothing is saved before the switch was
/// admitted and judged, a switch that is refused saves nothing, and one that is applied or left to
/// reconciliation was saved, the latter under the very intent it names.
pub proof fn law_intent_fits_the_phase(t: TransactionView, events: Seq<TransactionEvent>)
    requires
        is_new(t),
    ensures
        course(t, events).intent_fits(),
    decreases events.len(),
{
    if events.len() > 0 {
        law_intent_fits_the_phase(t, events.drop_last());
    }
}

/// The ids that a transaction was made for never change.
pub proof fn law_subject_never_changes(t: TransactionView, events: Seq<TransactionEvent>)
    ensures
        course(t, events).generation == t.generation,
        course(t, events).expected_current == t.expected_current,
        course(t, events).candidate == t.candidate,
        course(t, events).fingerprint == t.fingerprint,
    decreases events.len(),
{
    if events.len() > 0 {
        law_subject_never_changes(t, events.drop_last());
    }
}

/// Nothing is saved unless the candidate was found to be reachable without a restart when the
/// transaction asked for that, and the choice was written when it asked for that.
pub proof fn law_only_judged_candidates_are_saved(t: TransactionView, events: Seq<TransactionEvent>)
    requires
        is_new(t),
        course(t, events).intent is Some,
    ensures
        course(t, events).judged is Some,
        answered(
            t,
            events,
            TransactionPhase::Judging,
            found_switchable(course(t, events).judged->0),
        ),
        answered(t, events, TransactionPhase::Persisting, saved(course(t, events).intent->0)),
{
    lemma_provenance(t, events);
}

/// What was judged is what is done. The configuration that a transaction leads to is that of the
/// core at its admission with the candidate selected, and it is carried out with what the runtime
/// found when it judged that configuration; neither changes afterwards.
pub proof fn law_what_was_judged_is_done(t: TransactionView, events: Seq<TransactionEvent>)
    requires
        is_new(t),
    ensures
        ({
            let now = course(t, events);
            &&& now.under_way() ==> now.runtime is Some
            &&& now.under_way() && !(now.phase is Judging) ==> now.judged is Some
            &&& is_done(now, AutoHotSwitchOutcome::Applied) ==> now.runtime is Some && now.judged
                is Some
            &&& now.runtime is Some ==> answered(
                t,
                events,
                TransactionPhase::Admitting,
                TransactionEvent::Admission(
                    Admission::Admitted {
                        starting_intent: now.starting_intent,
                        old_tag: now.old_tag,
                        runtime: now.runtime->0,
                    },
                ),
            )
            &&& now.judged is Some ==> answered(
                t,
                events,
                TransactionPhase::Judging,
                found_switchable(now.judged->0),
            )
        }),
{
    lemma_provenance(t, events);
}

/// A switch that was judged possible makes the candidate the member of the exit selector.
pub proof fn law_judged_switch_puts_the_candidate(
    classified: Option<ClassifiedSwitch>,
    tag: Seq<char>,
)
    requires
        switch_plan(classified, tag) == CandidateSwitchPlan::HotSwitchable,
    ensures
        judged_switch(classified).puts.contains(
            PutView { selector_tag: PROXY_SELECTOR@, member_tag: tag },
        ),
{
    let puts = classified->0->puts@;
    let i = choose|i: int|
        0 <= i < puts.len() && (#[trigger] puts[i]).selector_tag@ == PROXY_SELECTOR@
            && puts[i].member_tag@ == tag;
    assert(put_views(puts)[i] == PutView { selector_tag: PROXY_SELECTOR@, member_tag: tag });
}

/// Where the parts of the state come from.
proof fn lemma_provenance(t: TransactionView, events: Seq<TransactionEvent>)
    requires
        is_new(t),
    ensures
        ({
            let now = course(t, events);
            &&& now.intent_fits()
            &&& now.phase is Admitting ==> now == t
            &&& now.under_way() ==> now.runtime is Some
            &&& now.under_way() ==> (now.judged is Some <==> !(now.phase is Judging))
            &&& now.intent is Some ==> now.judged is Some
            &&& now.judged is Some ==> now.runtime is Some
            &&& now.runtime is Some ==> answered(
                t,
                events,
                TransactionPhase::Admitting,
                TransactionEvent::Admission(
                    Admission::Admitted {
                        starting_intent: now.starting_intent,
                        old_tag: now.old_tag,
                        runtime: now.runtime->0,
                    },
                ),
            )
            &&& now.judged is Some ==> answered(
                t,
                events,
                TransactionPhase::Judging,
                found_switchable(now.judged->0),
            )
            &&& now.intent is Some ==> answered(
                t,
                events,
                TransactionPhase::Persisting,
                saved(now.intent->0),
            )
        }),
    decreases events.len(),
{
    if events.len() > 0 {
        lemma_provenance(t, events.drop_last());
        lemma_answered(t, events);
    }
}

/// A switch is taken over, and ends as applied, only after the selector was switched, and the
/// running core, asked for it, has confirmed the candidate while the saved configuration still stood
/// for it.
pub proof fn law_only_confirmed_switches_are_applied(
    t: TransactionView,
    events: Seq<TransactionEvent>,
)
    requires
        is_new(t),
    ensures
        ({
            let now = course(t, events);
            (now.phase is Committing || now.phase is Refreshing || is_done(
                now,
                AutoHotSwitchOutcome::Applied,
            )) ==> {
                &&& answered(t, events, TransactionPhase::Putting, target_put())
                &&& answered(
                    t,
                    events,
                    TransactionPhase::Attesting { applied: true },
                    confirmed(),
                )
                &&& now.intent is Some
            }
        }),
{
    lemma_confirmed(t, events);
}

proof fn lemma_confirmed(t: TransactionView, events: Seq<TransactionEvent>)
    requires
        is_new(t),
    ensures
        ({
            let now = course(t, events);
            let put = answered(t, events, TransactionPhase::Putting, target_put());
            &&& now.intent_fits()
            &&& now.phase == (TransactionPhase::Attesting { applied: true }) ==> put
            &&& (now.phase is Committing || now.phase is Refreshing || is_done(
                now,
                AutoHotSwitchOutcome::Applied,
            )) ==> put && answered(
                t,
                events,
                TransactionPhase::Attesting { applied: true },
                confirmed(),
            )
        }),
    decreases events.len(),
{
    if events.len() > 0 {
        lemma_confirmed(t, events.drop_last());
        lemma_answered(t, events);
    }
}

/// The saved choice is taken back only after the selector was switched back and the running core,
/// asked for it, has confirmed the old exit; and a switch that fails after it was saved has gone
/// that way.
pub proof fn law_only_restored_switches_are_taken_back(
    t: TransactionView,
    events: Seq<TransactionEvent>,
)
    requires
        is_new(t),
    ensures
        ({
            let now = course(t, events);
            (now.phase is RollingBack || (now.intent is Some && is_done(
                now,
                AutoHotSwitchOutcome::Failed,
            ))) ==> {
                &&& answered(t, events, TransactionPhase::Restoring, restore_put())
                &&& answered(
                    t,
                    events,
                    TransactionPhase::AttestingRestore { put_ok: true },
                    restored(),
                )
            }
        }),
{
    lemma_restored(t, events);
}

proof fn lemma_restored(t: TransactionView, events: Seq<TransactionEvent>)
    requires
        is_new(t),
    ensures
        ({
            let now = course(t, events);
            let put = answered(t, events, TransactionPhase::Restoring, restore_put());
            &&& now.intent_fits()
            &&& now.phase == (TransactionPhase::AttestingRestore { put_ok: true }) ==> put
            &&& (now.phase is RollingBack || (now.intent is Some && is_done(
                now,
                AutoHotSwitchOutcome::Failed,
            ))) ==> put && answered(
                t,
                events,
                TransactionPhase::AttestingRestore { put_ok: true },
                restored(),
            )
        }),
    decreases events.len(),
{
    if events.len() > 0 {
        lemma_restored(t, events.drop_last());
        lemma_answered(t, events);
    }
}

/// Where the choice is saved and neither exit can be confirmed, the switch is not left alone: once
/// it has ended, a saved choice is in effect, was taken back, belongs to a newer owner, or is
/// handed to reconciliation and reported.
pub proof fn law_saved_choice_is_never_abandoned(t: TransactionView, events: Seq<TransactionEvent>)
    requires
        is_new(t),
        course(t, events).phase is Done,
        course(t, events).intent is Some,
    ensures
        ({
            let now = course(t, events);
            let end = now.phase->Done_0;
            match end.outcome {
                AutoHotSwitchOutcome::Applied => answered(
                    t,
                    events,
                    TransactionPhase::Attesting { applied: true },
                    confirmed(),
                ),
                AutoHotSwitchOutcome::Failed => answered(
                    t,
                    events,
                    TransactionPhase::AttestingRestore { put_ok: true },
                    restored(),
                ),
                AutoHotSwitchOutcome::Superseded => exists|i: int|
                    0 <= i < events.len() && disowns(#[trigger] events[i]) && answers(
                        events[i],
                        course(t, events.take(i)).phase,
                    ),
                AutoHotSwitchOutcome::ReconcilePending { intent_generation } => now.intent == Some(
                    intent_generation,
                ) && end.report == Some(ReportCode::ExitMismatch),
                _ => false,
            }
        }),
{
    lemma_confirmed(t, events);
    lemma_restored(t, events);
    lemma_reported(t, events);
    lemma_superseded(t, events);
}

proof fn lemma_reported(t: TransactionView, events: Seq<TransactionEvent>)
    requires
        is_new(t),
    ensures
        course(t, events).phase matches TransactionPhase::Done(end) ==> end.report
            == if end.outcome is ReconcilePending {
            Some(ReportCode::ExitMismatch)
        } else {
            None
        },
    decreases events.len(),
{
    if events.len() > 0 {
        lemma_reported(t, events.drop_last());
    }
}

proof fn lemma_superseded(t: TransactionView, events: Seq<TransactionEvent>)
    requires
        is_new(t),
    ensures
        ({
            let now = course(t, events);
            &&& now.intent_fits()
            &&& now.intent is Some && is_done(now, AutoHotSwitchOutcome::Superseded)
                ==> exists|i: int|
                0 <= i < events.len() && disowns(#[trigger] events[i]) && answers(
                    events[i],
                    course(t, events.take(i)).phase,
                )
        }),
    decreases events.len(),
{
    if events.len() > 0 {
        let rest = events.drop_last();
        let last = events.len() - 1;
        lemma_superseded(t, rest);
        assert(events.take(last) =~= rest);
        assert(events[last] == events.last());
        if course(t, rest).phase is Done && course(t, rest).intent is Some && is_done(
            course(t, rest),
            AutoHotSwitchOutcome::Superseded,
        ) {
            let i = choose|i: int|
                0 <= i < rest.len() && disowns(#[trigger] rest[i]) && answers(
                    rest[i],
                    course(t, rest.take(i)).phase,
                );
            assert(events[i] == rest[i]);
            assert(events.take(i) =~= rest.take(i));
        }
    }
}

/// Whoever loses the selector stops there: the transaction ends as superseded, commits nothing and
/// takes nothing back. Where the selector had been touched and not yet taken over, it is marked for
/// reconciliation.
pub proof fn law_lost_ownership_supersedes(t: TransactionView, event: TransactionEvent)
    requires
        answers(event, t.phase),
        disowns(event),
    ensures
        is_done(t.step(event), AutoHotSwitchOutcome::Superseded),
        t.step(event).phase->Done_0.mark_required <==> (t.phase is Putting || t.phase is Attesting
            || t.phase is Restoring || t.phase is AttestingRestore),
{
}

/// Taking the choice back undoes it: on the document that the claim left, the change back is granted
/// under the same intent and restores the document that was there before.
pub proof fn law_roll_back_undoes_the_claim(
    claiming: TransactionView,
    rolling: TransactionView,
    before: Json,
    intent_generation: u64,
    fingerprints: Map<Seq<char>, String>,
    new_intent: u64,
)
    requires
        claiming.may_claim(before, intent_generation, fingerprints),
        rolling.phase is RollingBack,
        rolling.intent == Some(new_intent),
        rolling.candidate == claiming.candidate,
        rolling.expected_current == claiming.expected_current,
    ensures
        ({
            let claimed = with_selection(before, claiming.candidate.id);
            &&& rolling.may_roll_back(claimed, new_intent)
            &&& with_selection(claimed, rolling.expected_current) == before
        }),
{
    law_selection_reads_back(before, claiming.candidate.id);
    law_selection_can_be_undone(before, claiming.expected_current, claiming.candidate.id);
}

/// A choice that somebody has made in the meantime is never overwritten: neither the claim nor its
/// withdrawal is granted once there is a newer intent.
pub proof fn law_newer_intents_win(
    t: TransactionView,
    latest: Json,
    intent_generation: u64,
    fingerprints: Map<Seq<char>, String>,
)
    ensures
        intent_generation != t.starting_intent ==> !t.may_claim(
            latest,
            intent_generation,
            fingerprints,
        ),
        t.intent != Some(intent_generation) ==> !t.may_roll_back(latest, intent_generation),
{
}

/// The sweep before the probes and the transaction after them judge alike: given the same
/// classification, the transaction goes on with a node that is an exit exactly where the sweep keeps
/// it. No candidate is probed only to be refused.
pub proof fn law_sweep_and_transaction_agree(
    t: TransactionView,
    config: UserConfig,
    candidates: Seq<CandidateView>,
    classified: Seq<Option<ClassifiedSwitch>>,
    i: int,
)
    requires
        t.phase is Judging,
        0 <= i < candidates.len(),
        i < classified.len(),
        candidates[i] == t.candidate,
        !config.mesh_only(t.candidate.id),
    ensures
        ({
            let verdict = switch_plan(classified[i], t.candidate.tag);
            let judged = judged_switch(classified[i]);
            t.step(TransactionEvent::Judged { verdict, judged }).phase is Persisting
                <==> sort_classified(config, candidates, classified)[i].1 == Sorting::Keep
        }),
{
}

} // verus!
