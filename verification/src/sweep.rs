//! Which candidates the running core can be switched to without a restart.
//!
//! The judgement is made before any candidate is probed, and by the same rule that admits a
//! candidate to the switch itself: a candidate that would be refused at the end is not probed.
use crate::candidates::{
    candidate_views, CandidateView, PlanView, RuntimeCandidate, RuntimeCandidatePlan,
};
use crate::config::{select_server, with_selection};
use crate::json::json_of;
use crate::mesh::{node_is_mesh_only, UserConfig};
use crate::text::same_text;
use serde_json::Value;
use vstd::prelude::*;

verus! {

/// The selector group of the running core that the user's exit hangs on.
pub const PROXY_SELECTOR: &'static str = "proxy-selector";

/// One change of a selector group: make `member_tag` its selected member.
#[derive(Debug, PartialEq, Eq)]
pub struct SelectorPut {
    pub selector_tag: String,
    pub member_tag: String,
}

/// What the runtime makes of a configuration that is to replace the running one.
#[derive(Debug, PartialEq, Eq)]
pub enum ClassifiedSwitch {
    /// The core is stopped.
    NotRunning,
    /// It is the running configuration.
    Unchanged,
    /// It cannot be compared with the running one, or needs an outlet that the core did not plan.
    Fallback,
    /// It can be reached by changing selector groups: `puts` are the changes, `new_cfg` is the
    /// configuration as it was parsed.
    HotSwitch { puts: Vec<SelectorPut>, new_cfg: UserConfig },
    /// It takes a restart of the core.
    Restart,
}

/// Whether the core can be switched to a candidate.
#[derive(Debug, Clone, Copy, PartialEq, Eq, Structural)]
pub enum CandidateSwitchPlan {
    /// Without a restart.
    HotSwitchable,
    /// Only by a restart.
    NeedsRestart,
    /// There is no telling: the core is stopped, or what it ran has been replaced. This is a
    /// property of the runtime and voids the judgement of every candidate.
    Void,
}

/// Some of `puts` makes `tag` the member of the exit selector.
pub open spec fn puts_exit(puts: Seq<SelectorPut>, tag: Seq<char>) -> bool {
    exists|i: int|
        0 <= i < puts.len() && (#[trigger] puts[i]).selector_tag@ == PROXY_SELECTOR@
            && puts[i].member_tag@ == tag
}

/// The judgement of a candidate with the selector tag `tag`. Where there was no configuration to
/// classify, there is no telling.
pub open spec fn switch_plan(classified: Option<ClassifiedSwitch>, tag: Seq<char>)
    -> CandidateSwitchPlan {
    match classified {
        None => CandidateSwitchPlan::Void,
        Some(ClassifiedSwitch::NotRunning) => CandidateSwitchPlan::Void,
        Some(ClassifiedSwitch::Unchanged) => CandidateSwitchPlan::Void,
        Some(ClassifiedSwitch::Fallback) => CandidateSwitchPlan::NeedsRestart,
        Some(ClassifiedSwitch::HotSwitch { puts, .. }) => if puts_exit(puts@, tag) {
            CandidateSwitchPlan::HotSwitchable
        } else {
            CandidateSwitchPlan::NeedsRestart
        },
        Some(ClassifiedSwitch::Restart) => CandidateSwitchPlan::NeedsRestart,
    }
}

/// The running configuration with `candidate` selected, to be classified by the runtime; `None`
/// where it is no object and nothing can be selected in it.
pub fn switched_config(runtime_config: &Value, candidate: &RuntimeCandidate) -> (r: Option<Value>)
    ensures
        match r {
            Some(switched) => {
                &&& json_of(*runtime_config) is Object
                &&& json_of(switched) == with_selection(json_of(*runtime_config), candidate@.id)
            },
            None => !(json_of(*runtime_config) is Object),
        },
{
    let mut switched = runtime_config.clone();
    if select_server(&mut switched, candidate.id.as_str()) {
        Some(switched)
    } else {
        None
    }
}

/// Judges whether the core can be switched to `candidate`, from what the runtime made of the running
/// configuration with the candidate selected (see [`switched_config`]).
pub fn candidate_switch_plan(
    classified: &Option<ClassifiedSwitch>,
    candidate: &RuntimeCandidate,
) -> (r: CandidateSwitchPlan)
    ensures
        r == switch_plan(*classified, candidate@.tag),
        r == CandidateSwitchPlan::HotSwitchable <==> {
            &&& *classified is Some
            &&& classified->0 is HotSwitch
            &&& exists|i: int|
                0 <= i < classified->0->puts@.len() && (
                #[trigger] classified->0->puts@[i]).selector_tag@ == PROXY_SELECTOR@
                    && classified->0->puts@[i].member_tag@ == candidate.tag@
        },
        r == CandidateSwitchPlan::Void <==> (*classified is None || classified->0 is NotRunning
            || classified->0 is Unchanged),
{
    match classified {
        None => CandidateSwitchPlan::Void,
        Some(ClassifiedSwitch::NotRunning) => CandidateSwitchPlan::Void,
        Some(ClassifiedSwitch::Unchanged) => CandidateSwitchPlan::Void,
        Some(ClassifiedSwitch::Fallback) => CandidateSwitchPlan::NeedsRestart,
        Some(ClassifiedSwitch::Restart) => CandidateSwitchPlan::NeedsRestart,
        Some(ClassifiedSwitch::HotSwitch { puts, new_cfg }) => {
            let mut i: usize = 0;
            while i < puts.len()
                invariant
                    i <= puts@.len(),
                    *classified == Some(
                        ClassifiedSwitch::HotSwitch { puts: *puts, new_cfg: *new_cfg },
                    ),
                    forall|j: int|
                        0 <= j < i ==> (#[trigger] puts@[j]).selector_tag@ != PROXY_SELECTOR@
                            || puts@[j].member_tag@ != candidate@.tag,
                decreases puts@.len() - i,
            {
                if same_text(puts[i].selector_tag.as_str(), PROXY_SELECTOR) && same_text(
                    puts[i].member_tag.as_str(),
                    candidate.tag.as_str(),
                ) {
                    assert(puts@[i as int].selector_tag@ == PROXY_SELECTOR@);
                    return CandidateSwitchPlan::HotSwitchable;
                }
                i = i + 1;
            }
            CandidateSwitchPlan::NeedsRestart
        },
    }
}

/// The judgement of the `i`-th candidate, by its own classification; void where none was handed in.
pub open spec fn judgement_at(
    candidates: Seq<CandidateView>,
    classified: Seq<Option<ClassifiedSwitch>>,
    i: int,
) -> CandidateSwitchPlan {
    if 0 <= i < classified.len() {
        switch_plan(classified[i], candidates[i].tag)
    } else {
        CandidateSwitchPlan::Void
    }
}

/// The judgement of each candidate, in their order.
pub open spec fn judgements(
    candidates: Seq<CandidateView>,
    classified: Seq<Option<ClassifiedSwitch>>,
) -> Seq<CandidateSwitchPlan> {
    Seq::new(candidates.len(), |i: int| judgement_at(candidates, classified, i))
}

/// Judges each candidate of the plan by its own classification, `classified` holding these in the
/// order of the candidates. A candidate without one is void.
pub fn judge_candidates(
    plan: &RuntimeCandidatePlan,
    classified: &Vec<Option<ClassifiedSwitch>>,
) -> (r: Vec<CandidateSwitchPlan>)
    ensures
        r@.len() == plan@.candidates.len(),
        forall|i: int|
            0 <= i < r@.len() ==> #[trigger] r@[i] == if i < classified@.len() {
                switch_plan(classified@[i], plan@.candidates[i].tag)
            } else {
                CandidateSwitchPlan::Void
            },
        r@ == judgements(plan@.candidates, classified@),
{
    let mut verdicts: Vec<CandidateSwitchPlan> = Vec::new();
    let mut i: usize = 0;
    while i < plan.candidates.len()
        invariant
            i <= plan.candidates@.len(),
            verdicts@.len() == i,
            forall|j: int|
                0 <= j < i ==> #[trigger] verdicts@[j] == judgement_at(
                    plan@.candidates,
                    classified@,
                    j,
                ),
        decreases plan.candidates@.len() - i,
    {
        let verdict = if i < classified.len() {
            candidate_switch_plan(&classified[i], &plan.candidates[i])
        } else {
            CandidateSwitchPlan::Void
        };
        verdicts.push(verdict);
        i = i + 1;
    }
    assert(verdicts@ =~= judgements(plan@.candidates, classified@));
    verdicts
}

/// What becomes of a candidate in the sweep.
pub enum Sorting {
    Keep,
    NotExit,
    NeedsRestart,
    Void,
}

/// What becomes of the candidate `c`. A mesh-only node is no exit, whatever the judgement.
pub open spec fn sorting(config: UserConfig, c: CandidateView, verdict: CandidateSwitchPlan)
    -> Sorting {
    if config.mesh_only(c.id) {
        Sorting::NotExit
    } else {
        match verdict {
            CandidateSwitchPlan::HotSwitchable => Sorting::Keep,
            CandidateSwitchPlan::NeedsRestart => Sorting::NeedsRestart,
            CandidateSwitchPlan::Void => Sorting::Void,
        }
    }
}

/// The judgement of the `i`-th candidate; void where none was handed in.
pub open spec fn verdict_at(verdicts: Seq<CandidateSwitchPlan>, i: int) -> CandidateSwitchPlan {
    if 0 <= i < verdicts.len() {
        verdicts[i]
    } else {
        CandidateSwitchPlan::Void
    }
}

/// The candidates and what becomes of each.
pub open spec fn sort_candidates(
    config: UserConfig,
    candidates: Seq<CandidateView>,
    verdicts: Seq<CandidateSwitchPlan>,
) -> Seq<(CandidateView, Sorting)> {
    Seq::new(
        candidates.len(),
        |i: int| (candidates[i], sorting(config, candidates[i], verdict_at(verdicts, i))),
    )
}

/// The candidates and what becomes of each, by its own classification.
pub open spec fn sort_classified(
    config: UserConfig,
    candidates: Seq<CandidateView>,
    classified: Seq<Option<ClassifiedSwitch>>,
) -> Seq<(CandidateView, Sorting)> {
    sort_candidates(config, candidates, judgements(candidates, classified))
}

/// The candidates that are kept, in their order.
pub open spec fn kept(sorted: Seq<(CandidateView, Sorting)>) -> Seq<CandidateView> {
    sorted.filter(|s: (CandidateView, Sorting)| s.1 == Sorting::Keep).map_values(
        |s: (CandidateView, Sorting)| s.0,
    )
}

/// How many candidates are sorted as `what`.
pub open spec fn count_sorted(sorted: Seq<(CandidateView, Sorting)>, what: Sorting) -> nat {
    sorted.filter(|s: (CandidateView, Sorting)| s.1 == what).len()
}

/// No candidate is void.
pub open spec fn none_void(sorted: Seq<(CandidateView, Sorting)>) -> bool {
    forall|i: int| 0 <= i < sorted.len() ==> (#[trigger] sorted[i]).1 != Sorting::Void
}

/// The plan after the sweep: the kept candidates, and the two counts that the sweep fills in.
pub open spec fn swept(plan: PlanView, sorted: Seq<(CandidateView, Sorting)>) -> PlanView {
    PlanView {
        candidates: kept(sorted),
        not_exit: count_sorted(sorted, Sorting::NotExit),
        needs_restart: count_sorted(sorted, Sorting::NeedsRestart),
        ..plan
    }
}

proof fn lemma_sorted_push(sorted: Seq<(CandidateView, Sorting)>, s: (CandidateView, Sorting))
    ensures
        kept(sorted.push(s)) == if s.1 == Sorting::Keep {
            kept(sorted).push(s.0)
        } else {
            kept(sorted)
        },
        forall|what: Sorting| #[trigger]
            count_sorted(sorted.push(s), what) == count_sorted(sorted, what) + if s.1 == what {
                1nat
            } else {
                0nat
            },
{
    reveal(Seq::filter);
    assert(sorted.push(s).drop_last() == sorted);
    if s.1 == Sorting::Keep {
        let keep = sorted.filter(|s: (CandidateView, Sorting)| s.1 == Sorting::Keep);
        assert(keep.push(s).map_values(|s: (CandidateView, Sorting)| s.0) =~= keep.map_values(
            |s: (CandidateView, Sorting)| s.0,
        ).push(s.0));
    }
}

/// Drops the candidates that cannot be switched to, and counts why.
///
/// `runtime_config` is the parsed configuration that the core runs, `snapshot_present` tells
/// whether the core left a baseline to compare with, `classified` holds what the runtime made of
/// each candidate in their order (see [`next_classification`]), and `still_current` tells whether
/// the core still ran, in the same generation, when the last of them was classified. Where any of
/// these fails, or a judgement is void, nothing can be said of this round: the plan is left as it is
/// and `false` is returned.
pub fn retain_hot_switchable_candidates(
    plan: &mut RuntimeCandidatePlan,
    runtime_config: Option<&UserConfig>,
    snapshot_present: bool,
    classified: &Vec<Option<ClassifiedSwitch>>,
    still_current: bool,
) -> (r: bool)
    ensures
        r == (runtime_config is Some && snapshot_present && still_current && none_void(
            sort_classified(*runtime_config->0, old(plan)@.candidates, classified@),
        )),
        !r ==> *final(plan) == *old(plan),
        r ==> final(plan)@ == swept(
            old(plan)@,
            sort_classified(*runtime_config->0, old(plan)@.candidates, classified@),
        ),
{
    let config = match runtime_config {
        Some(config) => config,
        None => {
            return false;
        },
    };
    if !snapshot_present {
        return false;
    }
    let verdicts = judge_candidates(plan, classified);
    let ghost sorted = sort_classified(*config, plan@.candidates, classified@);
    let mut keep: Vec<RuntimeCandidate> = Vec::new();
    let mut not_exit: usize = 0;
    let mut needs_restart: usize = 0;
    proof {
        reveal(Seq::filter);
        assert(sorted.take(0) =~= Seq::empty());
        assert(candidate_views(keep@) =~= kept(sorted.take(0)));
    }
    let mut i: usize = 0;
    while i < plan.candidates.len()
        invariant
            i <= plan.candidates@.len(),
            *plan == *old(plan),
            runtime_config == Some(config),
            verdicts@ == judgements(plan@.candidates, classified@),
            sorted == sort_classified(*config, plan@.candidates, classified@),
            candidate_views(keep@) == kept(sorted.take(i as int)),
            not_exit == count_sorted(sorted.take(i as int), Sorting::NotExit),
            needs_restart == count_sorted(sorted.take(i as int), Sorting::NeedsRestart),
            not_exit <= i,
            needs_restart <= i,
            forall|j: int| 0 <= j < i ==> (#[trigger] sorted[j]).1 != Sorting::Void,
        decreases plan.candidates@.len() - i,
    {
        proof {
            assert(sorted.take(i + 1) =~= sorted.take(i as int).push(sorted[i as int]));
            lemma_sorted_push(sorted.take(i as int), sorted[i as int]);
        }
        let ghost before = keep@;
        if node_is_mesh_only(config, plan.candidates[i].id.as_str()) {
            not_exit = not_exit + 1;
        } else {
            match verdicts[i] {
                CandidateSwitchPlan::HotSwitchable => {
                    keep.push(plan.candidates[i].clone());
                    assert(candidate_views(keep@) =~= candidate_views(before).push(
                        plan@.candidates[i as int],
                    ));
                },
                CandidateSwitchPlan::NeedsRestart => {
                    needs_restart = needs_restart + 1;
                },
                CandidateSwitchPlan::Void => {
                    assert(sorted[i as int].1 == Sorting::Void);
                    return false;
                },
            }
        }
        i = i + 1;
    }
    assert(sorted.take(plan.candidates@.len() as int) =~= sorted);
    if !still_current {
        return false;
    }
    plan.candidates = keep;
    plan.not_exit = not_exit;
    plan.needs_restart = needs_restart;
    assert(plan@ =~= swept(old(plan)@, sorted));
    true
}

/// How the collection of classifications goes on.
#[derive(Debug, Clone, Copy, PartialEq, Eq, Structural)]
pub enum ClassificationStep {
    /// Have the running configuration with the next candidate selected classified, and append what
    /// came of it.
    Classify,
    /// Append `None`: the next candidate is no exit, and its classification does not matter.
    Skip,
    /// Sweep: there is nothing more to know.
    Complete,
}

/// What becomes of the `i`-th candidate by what was collected so far.
pub open spec fn sorting_at(
    config: UserConfig,
    candidates: Seq<CandidateView>,
    classified: Seq<Option<ClassifiedSwitch>>,
    i: int,
) -> Sorting {
    sorting(config, candidates[i], judgement_at(candidates, classified, i))
}

/// How the collection goes on when `classified` was collected so far: it is complete when all
/// candidates were dealt with, and as soon as one is void, because that voids the round.
pub open spec fn classification_step(
    config: UserConfig,
    candidates: Seq<CandidateView>,
    classified: Seq<Option<ClassifiedSwitch>>,
) -> ClassificationStep {
    let next = classified.len() as int;
    if next >= candidates.len() || (next > 0 && sorting_at(config, candidates, classified, next - 1)
        == Sorting::Void) {
        ClassificationStep::Complete
    } else if config.mesh_only(candidates[next].id) {
        ClassificationStep::Skip
    } else {
        ClassificationStep::Classify
    }
}

/// Leads the collection of classifications from candidate to candidate. `classified` holds those
/// collected so far; the next candidate is the one at its length.
pub fn next_classification(
    plan: &RuntimeCandidatePlan,
    runtime_config: &UserConfig,
    classified: &Vec<Option<ClassifiedSwitch>>,
) -> (r: ClassificationStep)
    ensures
        r == classification_step(*runtime_config, plan@.candidates, classified@),
{
    let next: usize = classified.len();
    if next >= plan.candidates.len() {
        return ClassificationStep::Complete;
    }
    if next > 0 {
        let last = &plan.candidates[next - 1];
        let void = match candidate_switch_plan(&classified[next - 1], last) {
            CandidateSwitchPlan::Void => true,
            _ => false,
        };
        if void && !node_is_mesh_only(runtime_config, last.id.as_str()) {
            return ClassificationStep::Complete;
        }
    }
    if node_is_mesh_only(runtime_config, plan.candidates[next].id.as_str()) {
        ClassificationStep::Skip
    } else {
        ClassificationStep::Classify
    }
}

/// A sweep keeps a candidate exactly where it is not mesh-only and its own classification is a hot
/// switch that puts it on the exit selector; the classification of another candidate has no say.
pub proof fn law_sweep_judges_each_by_its_own(
    config: UserConfig,
    candidates: Seq<CandidateView>,
    classified: Seq<Option<ClassifiedSwitch>>,
    i: int,
)
    requires
        0 <= i < candidates.len(),
    ensures
        sort_classified(config, candidates, classified)[i].0 == candidates[i],
        sort_classified(config, candidates, classified)[i].1 == Sorting::Keep <==> {
            &&& !config.mesh_only(candidates[i].id)
            &&& i < classified.len()
            &&& classified[i] matches Some(ClassifiedSwitch::HotSwitch { puts, .. }) && puts_exit(
                puts@,
                candidates[i].tag,
            )
        },
{
}

/// What a sweep keeps are those candidates, and no others.
pub proof fn law_sweep_keeps_hot_switches_only(
    config: UserConfig,
    candidates: Seq<CandidateView>,
    classified: Seq<Option<ClassifiedSwitch>>,
    c: CandidateView,
)
    ensures
        kept(sort_classified(config, candidates, classified)).contains(c) <==> exists|i: int|
            {
                &&& 0 <= i < candidates.len()
                &&& #[trigger] candidates[i] == c
                &&& !config.mesh_only(c.id)
                &&& i < classified.len()
                &&& switch_plan(classified[i], c.tag) == CandidateSwitchPlan::HotSwitchable
            },
{
    let verdicts = judgements(candidates, classified);
    let list = kept(sort_classified(config, candidates, classified));
    if list.contains(c) {
        let k = choose|k: int| 0 <= k < list.len() && list[k] == c;
        law_kept_candidates_are_hot_switchable(config, candidates, verdicts, k);
        let i = choose|i: int|
            0 <= i < candidates.len() && #[trigger] candidates[i] == c && verdict_at(verdicts, i)
                == CandidateSwitchPlan::HotSwitchable;
        assert(candidates[i] == c);
        assert(verdicts[i] == judgement_at(candidates, classified, i));
    }
    if exists|i: int|
        {
            &&& 0 <= i < candidates.len()
            &&& #[trigger] candidates[i] == c
            &&& !config.mesh_only(c.id)
            &&& i < classified.len()
            &&& switch_plan(classified[i], c.tag) == CandidateSwitchPlan::HotSwitchable
        } {
        let i = choose|i: int|
            {
                &&& 0 <= i < candidates.len()
                &&& #[trigger] candidates[i] == c
                &&& !config.mesh_only(c.id)
                &&& i < classified.len()
                &&& switch_plan(classified[i], c.tag) == CandidateSwitchPlan::HotSwitchable
            };
        law_hot_switchable_candidates_are_kept(config, candidates, verdicts, i);
    }
}

/// Where the collection of classifications stops short, nothing is lost by it: the round is void,
/// and would be with any classification of the candidates that are left.
pub proof fn law_stopping_short_loses_nothing(
    config: UserConfig,
    candidates: Seq<CandidateView>,
    classified: Seq<Option<ClassifiedSwitch>>,
    more: Seq<Option<ClassifiedSwitch>>,
)
    requires
        classified.len() < candidates.len(),
        classification_step(config, candidates, classified) is Complete,
    ensures
        !none_void(sort_classified(config, candidates, classified + more)),
{
    let last = classified.len() - 1;
    let sorted = sort_classified(config, candidates, classified + more);
    assert((classified + more)[last] == classified[last]);
    assert(sorted[last].1 == Sorting::Void);
}

/// A classification that is skipped does not matter: the candidate is no exit by any.
pub proof fn law_skipped_classification_does_not_matter(
    config: UserConfig,
    candidates: Seq<CandidateView>,
    before: Seq<Option<ClassifiedSwitch>>,
    any: Option<ClassifiedSwitch>,
    after: Seq<Option<ClassifiedSwitch>>,
)
    requires
        classification_step(config, candidates, before) is Skip,
    ensures
        sort_classified(config, candidates, before.push(any) + after) == sort_classified(
            config,
            candidates,
            before.push(None) + after,
        ),
{
    let with = before.push(any) + after;
    let without = before.push(None) + after;
    let next = before.len() as int;
    assert forall|i: int| 0 <= i < candidates.len() implies #[trigger] sort_classified(
        config,
        candidates,
        with,
    )[i] == sort_classified(config, candidates, without)[i] by {
        if i != next && i < with.len() {
            assert(with[i] == without[i]);
        }
    }
    assert(sort_classified(config, candidates, with) =~= sort_classified(
        config,
        candidates,
        without,
    ));
}

/// A sweep that stands accounts for every candidate once: kept, no exit, or lost to a restart.
pub proof fn law_sweep_accounts_for_every_candidate(sorted: Seq<(CandidateView, Sorting)>)
    requires
        none_void(sorted),
    ensures
        kept(sorted).len() + count_sorted(sorted, Sorting::NotExit) + count_sorted(
            sorted,
            Sorting::NeedsRestart,
        ) == sorted.len(),
    decreases sorted.len(),
{
    if sorted.len() == 0 {
        reveal(Seq::filter);
    } else {
        let rest = sorted.drop_last();
        assert(rest.push(sorted.last()) =~= sorted);
        assert(sorted[sorted.len() - 1].1 != Sorting::Void);
        assert(none_void(rest)) by {
            assert forall|i: int| 0 <= i < rest.len() implies (#[trigger] rest[i]).1
                != Sorting::Void by {
                assert(rest[i] == sorted[i]);
            }
        }
        law_sweep_accounts_for_every_candidate(rest);
        lemma_sorted_push(rest, sorted.last());
    }
}

/// What the sweep keeps was planned, can be switched to without a restart, and is a real exit.
pub proof fn law_kept_candidates_are_hot_switchable(
    config: UserConfig,
    candidates: Seq<CandidateView>,
    verdicts: Seq<CandidateSwitchPlan>,
    k: int,
)
    requires
        0 <= k < kept(sort_candidates(config, candidates, verdicts)).len(),
    ensures
        ({
            let c = kept(sort_candidates(config, candidates, verdicts))[k];
            &&& !config.mesh_only(c.id)
            &&& exists|i: int|
                0 <= i < candidates.len() && #[trigger] candidates[i] == c && verdict_at(verdicts, i)
                    == CandidateSwitchPlan::HotSwitchable
        }),
{
    let sorted = sort_candidates(config, candidates, verdicts);
    let keeps = |s: (CandidateView, Sorting)| s.1 == Sorting::Keep;
    let list = sorted.filter(keeps);
    assert(list.contains(list[k]));
    sorted.lemma_filter_contains_rev(keeps, list[k]);
    sorted.lemma_filter_pred(keeps, k);
    let i = choose|i: int| 0 <= i < sorted.len() && sorted[i] == list[k];
    assert(candidates[i] == kept(sorted)[k]);
}

/// No candidate that can be switched to is lost: each one that is a real exit is kept.
pub proof fn law_hot_switchable_candidates_are_kept(
    config: UserConfig,
    candidates: Seq<CandidateView>,
    verdicts: Seq<CandidateSwitchPlan>,
    i: int,
)
    requires
        0 <= i < candidates.len(),
        !config.mesh_only(candidates[i].id),
        verdict_at(verdicts, i) == CandidateSwitchPlan::HotSwitchable,
    ensures
        kept(sort_candidates(config, candidates, verdicts)).contains(candidates[i]),
{
    let sorted = sort_candidates(config, candidates, verdicts);
    let keeps = |s: (CandidateView, Sorting)| s.1 == Sorting::Keep;
    let list = sorted.filter(keeps);
    assert(keeps(sorted[i]));
    sorted.lemma_filter_contains(keeps, i);
    let k = choose|k: int| 0 <= k < list.len() && list[k] == sorted[i];
    assert(kept(sorted)[k] == candidates[i]);
}

} // verus!
