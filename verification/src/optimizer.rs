//! Picks the best-scoring scenario of a batch of candidates.

use crate::models::{EstateScenarioInput, ScenarioResult, ScenarioTerms};
use crate::money::MAX_ASSETS;
use crate::rules::{spec_tax_rules_for, tax_rules_for, TaxRuleSelectionError};
use crate::scenario::{calculate_with_rules, scenario_result};
use crate::scoring::{composite_score, scenario_score, score_scenario, ScenarioScore};
use vstd::prelude::*;

verus! {

/// The chosen candidate with its position in the batch.
#[derive(Debug, Clone)]
pub struct OptimizedScenario {
    pub index: usize,
    pub input: EstateScenarioInput,
    pub result: ScenarioResult,
    pub score: ScenarioScore,
}

/// What one candidate computes to: its result under the rules selected for
/// its jurisdiction and tax year, or the selection error.
#[verifier::opaque]
pub open spec fn candidate_outcome(input: ScenarioTerms) -> Result<
    ScenarioResult,
    TaxRuleSelectionError,
> {
    match spec_tax_rules_for(input.jurisdiction, input.tax_year) {
        Ok(selected) => Ok(scenario_result(input, selected.rules)),
        Err(e) => Err(e),
    }
}

/// The composite score of a candidate whose rules were found.
#[verifier::opaque]
pub open spec fn candidate_score(input: ScenarioTerms) -> int {
    composite_score(candidate_outcome(input)->Ok_0)
}

/// Calculates and scores one candidate under the rules selected for its
/// jurisdiction and tax year.
pub fn evaluate_candidate(input: &EstateScenarioInput) -> (evaluated: Result<
    (ScenarioResult, ScenarioScore),
    TaxRuleSelectionError,
>)
    requires
        input.assets@.len() <= MAX_ASSETS,
    ensures
        match evaluated {
            Ok((result, score)) => {
                &&& candidate_outcome(input@) == Ok::<ScenarioResult, TaxRuleSelectionError>(result)
                &&& score == scenario_score(result)
                &&& score.composite_score == candidate_score(input@)
            },
            Err(e) => candidate_outcome(input@) == Err::<ScenarioResult, TaxRuleSelectionError>(e),
        },
{
    reveal(candidate_outcome);
    reveal(candidate_score);
    match tax_rules_for(input.jurisdiction, input.tax_year) {
        Ok(selected) => {
            let result = calculate_with_rules(input, selected.rules);
            let score = score_scenario(&result);
            Ok((result, score))
        },
        Err(e) => Err(e),
    }
}

/// What the calculations read of each candidate, in batch order.
pub open spec fn terms_of(candidates: Seq<EstateScenarioInput>) -> Seq<ScenarioTerms> {
    Seq::new(candidates.len(), |i: int| candidates[i]@)
}

/// Whether `error` is the selection error of the first candidate that has
/// no rules.
pub open spec fn is_first_failure(
    candidates: Seq<ScenarioTerms>,
    error: TaxRuleSelectionError,
) -> bool {
    exists|k: int|
        0 <= k < candidates.len() && candidate_outcome(#[trigger] candidates[k]) == Err::<
            ScenarioResult,
            TaxRuleSelectionError,
        >(error) && forall|j: int|
            0 <= j < k ==> candidate_outcome(#[trigger] candidates[j]) is Ok
}

/// Whether the candidate at `index` is the choice among `candidates`, all
/// of which have rules: it is the earliest candidate with the lowest
/// composite score, and `result` and `score` are its own.
pub open spec fn is_best_choice(
    candidates: Seq<ScenarioTerms>,
    index: int,
    result: ScenarioResult,
    score: ScenarioScore,
) -> bool {
    &&& 0 <= index < candidates.len()
    &&& candidate_outcome(candidates[index]) == Ok::<ScenarioResult, TaxRuleSelectionError>(result)
    &&& score == scenario_score(result)
    &&& score.composite_score == candidate_score(candidates[index])
    &&& forall|k: int|
        0 <= k < candidates.len() ==> candidate_outcome(#[trigger] candidates[k]) is Ok
            && score.composite_score <= candidate_score(candidates[k])
    &&& forall|k: int|
        0 <= k < index ==> score.composite_score < candidate_score(#[trigger] candidates[k])
}

/// Whether `best` is the choice among `candidates`, all of which have
/// rules: none for an empty batch, else the best choice together with the
/// candidate itself.
pub open spec fn is_best_of(
    candidates: Seq<EstateScenarioInput>,
    best: Option<OptimizedScenario>,
) -> bool {
    match best {
        None => candidates.len() == 0,
        Some(chosen) => {
            &&& chosen.index < candidates.len()
            &&& chosen.input == candidates[chosen.index as int]
            &&& is_best_choice(
                terms_of(candidates),
                chosen.index as int,
                chosen.result,
                chosen.score,
            )
        },
    }
}

/// The choice of an empty batch is none; the choice of a batch of one is
/// that candidate, at position zero; and no candidate of a batch scores
/// below the choice.
pub proof fn lemma_choice_of_batch(
    candidates: Seq<EstateScenarioInput>,
    best: Option<OptimizedScenario>,
)
    requires
        is_best_of(candidates, best),
    ensures
        candidates.len() == 0 <==> best is None,
        candidates.len() == 1 ==> best is Some && best->Some_0.index == 0 && best->Some_0.input
            == candidates[0],
        best is Some ==> forall|k: int|
            0 <= k < candidates.len() ==> best->Some_0.score.composite_score <= candidate_score(
                (#[trigger] candidates[k])@,
            ),
{
    if best is Some {
        let chosen = best->Some_0;
        let terms = terms_of(candidates);
        assert forall|k: int| 0 <= k < candidates.len() implies chosen.score.composite_score
            <= candidate_score((#[trigger] candidates[k])@) by {
            assert(chosen.score.composite_score <= candidate_score(terms[k]));
        }
    }
}

/// Calculates and scores every candidate in order and returns the one with
/// the lowest composite score; among equal scores the earliest wins. The
/// first candidate without rules fails the whole batch.
pub fn optimize_scenarios(candidates: Vec<EstateScenarioInput>) -> (best: Result<
    Option<OptimizedScenario>,
    TaxRuleSelectionError,
>)
    requires
        forall|k: int|
            0 <= k < candidates@.len() ==> (#[trigger] candidates@[k]).assets@.len() <= MAX_ASSETS,
    ensures
        match best {
            Err(e) => is_first_failure(terms_of(candidates@), e),
            Ok(chosen) => is_best_of(candidates@, chosen),
        },
{
    let ghost all = candidates@;
    let mut pool = candidates;
    if pool.len() == 0 {
        return Ok(None);
    }
    let first = match evaluate_candidate(&pool[0]) {
        Ok(evaluated) => evaluated,
        Err(e) => {
            proof {
                let terms = terms_of(all);
                assert(candidate_outcome(terms[0]) == Err::<ScenarioResult, TaxRuleSelectionError>(
                    e,
                ));
            }
            return Err(e);
        },
    };
    let mut best_index: usize = 0;
    let mut best_result = first.0;
    let mut best_score = first.1;
    let mut i: usize = 1;
    while i < pool.len()
        invariant
            pool@ == all,
            candidates@ == all,
            1 <= i <= all.len(),
            best_index < i,
            forall|k: int| 0 <= k < all.len() ==> (#[trigger] all[k]).assets@.len() <= MAX_ASSETS,
            candidate_outcome(all[best_index as int]@) == Ok::<
                ScenarioResult,
                TaxRuleSelectionError,
            >(best_result),
            best_score == scenario_score(best_result),
            best_score.composite_score == candidate_score(all[best_index as int]@),
            forall|k: int|
                0 <= k < i ==> candidate_outcome((#[trigger] all[k])@) is Ok
                    && best_score.composite_score <= candidate_score(all[k]@),
            forall|k: int|
                0 <= k < best_index ==> best_score.composite_score < candidate_score(
                    (#[trigger] all[k])@,
                ),
        decreases all.len() - i,
    {
        match evaluate_candidate(&pool[i]) {
            Ok((result, score)) => {
                if score.composite_score < best_score.composite_score {
                    best_index = i;
                    best_result = result;
                    best_score = score;
                }
            },
            Err(e) => {
                proof {
                    let terms = terms_of(all);
                    assert(candidate_outcome(terms[i as int]) == Err::<
                        ScenarioResult,
                        TaxRuleSelectionError,
                    >(e));
                    assert forall|j: int| 0 <= j < i implies candidate_outcome(
                        #[trigger] terms[j],
                    ) is Ok by {
                        assert(candidate_outcome(all[j]@) is Ok);
                    }
                }
                return Err(e);
            },
        }
        i += 1;
    }
    proof {
        let terms = terms_of(all);
        assert forall|k: int| 0 <= k < terms.len() implies candidate_outcome(
            #[trigger] terms[k],
        ) is Ok && best_score.composite_score <= candidate_score(terms[k]) by {
            assert(candidate_outcome(all[k]@) is Ok);
        }
        assert forall|k: int| 0 <= k < best_index implies best_score.composite_score
            < candidate_score(#[trigger] terms[k]) by {
            assert(best_score.composite_score < candidate_score(all[k]@));
        }
    }
    let input = pool.remove(best_index);
    Ok(Some(OptimizedScenario { index: best_index, input, result: best_result, score: best_score }))
}

} // verus!
