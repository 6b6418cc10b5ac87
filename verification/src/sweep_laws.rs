//! What the sweep makes of each candidate, over its own classification.
use crate::candidates::{CandidateView, PlanView};
use crate::mesh::UserConfig;
use crate::sequences::{indices, lemma_filter_image};
use crate::sweep::{
    classification_step, count_sorted, none_void, puts_exit, sort_classified, swept, switch_plan,
    CandidateSwitchPlan, ClassifiedSwitch, SelectorPut, Sorting, PROXY_SELECTOR,
};
use vstd::prelude::*;

verus! {

/// A hot switch is judged possible where some change of it, at whatever place, makes the candidate's
/// tag the member of the exit selector, whatever other changes stand before or after it.
pub proof fn law_any_put_of_the_exit_suffices(puts: Vec<SelectorPut>, new_cfg: UserConfig, i: int)
    requires
        0 <= i < puts@.len(),
        puts@[i].selector_tag@ == PROXY_SELECTOR@,
    ensures
        switch_plan(
            Some(ClassifiedSwitch::HotSwitch { puts, new_cfg }),
            puts@[i].member_tag@,
        ) == CandidateSwitchPlan::HotSwitchable,
{
    assert(puts@[i].selector_tag@ == PROXY_SELECTOR@);
}

/// A hot switch without such a change would need a restart.
pub proof fn law_hot_switch_without_the_exit_needs_a_restart(
    puts: Vec<SelectorPut>,
    new_cfg: UserConfig,
    tag: Seq<char>,
)
    requires
        forall|i: int|
            0 <= i < puts@.len() ==> (#[trigger] puts@[i]).selector_tag@ != PROXY_SELECTOR@
                || puts@[i].member_tag@ != tag,
    ensures
        switch_plan(Some(ClassifiedSwitch::HotSwitch { puts, new_cfg }), tag)
            == CandidateSwitchPlan::NeedsRestart,
{
}

/// Changes can be put together: some of them switch the exit exactly where a part of them does.
pub proof fn law_puts_are_judged_together(
    before: Seq<SelectorPut>,
    after: Seq<SelectorPut>,
    tag: Seq<char>,
)
    ensures
        puts_exit(before + after, tag) <==> puts_exit(before, tag) || puts_exit(after, tag),
        !puts_exit(Seq::empty(), tag),
{
    let all = before + after;
    if puts_exit(all, tag) {
        let i = choose|i: int|
            0 <= i < all.len() && (#[trigger] all[i]).selector_tag@ == PROXY_SELECTOR@
                && all[i].member_tag@ == tag;
        if i < before.len() {
            assert(before[i] == all[i]);
        } else {
            assert(after[i - before.len()] == all[i]);
        }
    }
    if puts_exit(before, tag) {
        let i = choose|i: int|
            0 <= i < before.len() && (#[trigger] before[i]).selector_tag@ == PROXY_SELECTOR@
                && before[i].member_tag@ == tag;
        assert(all[i] == before[i]);
    }
    if puts_exit(after, tag) {
        let i = choose|i: int|
            0 <= i < after.len() && (#[trigger] after[i]).selector_tag@ == PROXY_SELECTOR@
                && after[i].member_tag@ == tag;
        assert(all[before.len() + i] == after[i]);
    }
}

/// The other judgements: there is no telling where nothing was classified, the core is stopped or
/// runs that very configuration already; everything else that is no hot switch needs a restart.
pub proof fn law_judgement_follows_the_classification(
    classified: Option<ClassifiedSwitch>,
    tag: Seq<char>,
)
    ensures
        switch_plan(classified, tag) == CandidateSwitchPlan::Void <==> (classified is None
            || classified->0 is NotRunning || classified->0 is Unchanged),
        classified is Some && (classified->0 is Fallback || classified->0 is Restart)
            ==> switch_plan(classified, tag) == CandidateSwitchPlan::NeedsRestart,
        switch_plan(classified, tag) == CandidateSwitchPlan::HotSwitchable ==> classified is Some
            && classified->0 is HotSwitch,
{
}

/// The plan after a sweep holds, in their order, the candidates that are real exits and whose own
/// classification is a hot switch onto the exit selector. The candidates that are no exits are
/// counted as such, those that are and whose own classification needs a restart are counted as that,
/// and what was counted before the sweep stays.
pub proof fn law_sweep_sorts_each_candidate(
    plan: PlanView,
    config: UserConfig,
    classified: Seq<Option<ClassifiedSwitch>>,
)
    ensures
        ({
            let cs = plan.candidates;
            let after = swept(plan, sort_classified(config, cs, classified));
            &&& after.candidates == indices(cs.len()).filter(
                |i: int|
                    {
                        &&& !config.mesh_only(cs[i].id)
                        &&& i < classified.len()
                        &&& switch_plan(classified[i], cs[i].tag)
                            == CandidateSwitchPlan::HotSwitchable
                    },
            ).map_values(|i: int| cs[i])
            &&& after.not_exit == indices(cs.len()).filter(
                |i: int| config.mesh_only(cs[i].id),
            ).len()
            &&& after.needs_restart == indices(cs.len()).filter(
                |i: int|
                    {
                        &&& !config.mesh_only(cs[i].id)
                        &&& i < classified.len()
                        &&& switch_plan(classified[i], cs[i].tag)
                            == CandidateSwitchPlan::NeedsRestart
                    },
            ).len()
            &&& after.staged == plan.staged
            &&& after.not_loaded == plan.not_loaded
            &&& after.dirty == plan.dirty
            &&& after.not_ready == plan.not_ready
        }),
{
    let cs = plan.candidates;
    let sorted = sort_classified(config, cs, classified);
    let f = |i: int| sorted[i];
    assert(indices(cs.len()).map_values(f) =~= sorted);
    lemma_filter_image(
        indices(cs.len()),
        f,
        |s: (CandidateView, Sorting)| s.1 == Sorting::Keep,
        |i: int|
            {
                &&& !config.mesh_only(cs[i].id)
                &&& i < classified.len()
                &&& switch_plan(classified[i], cs[i].tag) == CandidateSwitchPlan::HotSwitchable
            },
        |s: (CandidateView, Sorting)| s.0,
        |i: int| cs[i],
    );
    lemma_count(sorted, Sorting::NotExit, |i: int| config.mesh_only(cs[i].id));
    lemma_count(
        sorted,
        Sorting::NeedsRestart,
        |i: int|
            {
                &&& !config.mesh_only(cs[i].id)
                &&& i < classified.len()
                &&& switch_plan(classified[i], cs[i].tag) == CandidateSwitchPlan::NeedsRestart
            },
    );
}

proof fn lemma_count(
    sorted: Seq<(CandidateView, Sorting)>,
    what: Sorting,
    sorted_so: spec_fn(int) -> bool,
)
    requires
        forall|i: int| 0 <= i < sorted.len() ==> ((#[trigger] sorted[i]).1 == what) == sorted_so(i),
    ensures
        count_sorted(sorted, what) == indices(sorted.len()).filter(sorted_so).len(),
    decreases sorted.len(),
{
    reveal(Seq::filter);
    if sorted.len() > 0 {
        let rest = sorted.drop_last();
        let last = sorted.len() - 1;
        assert forall|i: int| 0 <= i < rest.len() implies ((#[trigger] rest[i]).1 == what)
            == sorted_so(i) by {
            assert(rest[i] == sorted[i]);
        }
        lemma_count(rest, what, sorted_so);
        assert(indices(sorted.len()).drop_last() =~= indices(rest.len()));
        assert(indices(sorted.len()).last() == last);
        assert(sorted.last() == sorted[last]);
    }
}

/// A sweep stands exactly where every candidate that is a real exit was classified, and not as one
/// of which there is no telling.
pub proof fn law_sweep_stands_where_all_can_be_told(
    config: UserConfig,
    candidates: Seq<CandidateView>,
    classified: Seq<Option<ClassifiedSwitch>>,
)
    ensures
        none_void(sort_classified(config, candidates, classified)) <==> forall|i: int|
            0 <= i < candidates.len() && !config.mesh_only((#[trigger] candidates[i]).id) ==> {
                &&& i < classified.len()
                &&& classified[i] is Some
                &&& !(classified[i]->0 is NotRunning)
                &&& !(classified[i]->0 is Unchanged)
            },
{
    let sorted = sort_classified(config, candidates, classified);
    if none_void(sorted) {
        assert forall|i: int|
            0 <= i < candidates.len() && !config.mesh_only((#[trigger] candidates[i]).id) implies {
            &&& i < classified.len()
            &&& classified[i] is Some
            &&& !(classified[i]->0 is NotRunning)
            &&& !(classified[i]->0 is Unchanged)
        } by {
            assert(sorted[i].1 != Sorting::Void);
        }
    } else {
        let i = choose|i: int| 0 <= i < sorted.len() && (#[trigger] sorted[i]).1 == Sorting::Void;
        assert(!config.mesh_only(candidates[i].id));
    }
}

/// The collection of classifications goes through the candidates one by one: it is complete where
/// all were dealt with, and where the last one is a real exit of which there is no telling; the next
/// candidate is passed over where it is no exit, and classified otherwise.
pub proof fn law_classifications_are_collected_in_order(
    config: UserConfig,
    candidates: Seq<CandidateView>,
    classified: Seq<Option<ClassifiedSwitch>>,
)
    ensures
        ({
            let n = classified.len() as int;
            let step = classification_step(config, candidates, classified);
            let stopped = 0 < n <= candidates.len() && !config.mesh_only(candidates[n - 1].id) && (
            classified[n - 1] is None || classified[n - 1]->0 is NotRunning || classified[n
                - 1]->0 is Unchanged);
            &&& n >= candidates.len() ==> step is Complete
            &&& n < candidates.len() ==> (step is Complete <==> stopped)
            &&& n < candidates.len() && !stopped ==> (step is Skip <==> config.mesh_only(
                candidates[n].id,
            ))
            &&& n < candidates.len() && !stopped ==> (step is Classify <==> !config.mesh_only(
                candidates[n].id,
            ))
        }),
{
}

} // verus!
