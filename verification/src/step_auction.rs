//! Building the transition that steps an item's auction cost down.

use vstd::prelude::*;

use crate::arith::{sub_checked, word_range};
use crate::error::SolutionError;
use crate::keys::{cost_key, cost_key_spec};
use crate::snapshot::{cost, snapshot_wf, snapshot_word, Query};
use crate::solution::{
    assemble, models, pub_var_identity, pub_var_model, pub_var_word, word_value, Mutation,
    MutationModel, MutationSet, PredicateAddress, Solution,
};
use crate::Word;

verus! {

/// Everything a step-auction transition is built from.
pub struct BuildSolution {
    /// The item whose auction is stepped.
    pub item_id: Word,
    /// The hashed key of the account stepping the auction.
    pub hashed_key: [Word; 4],
    /// The amount the cost decreases by.
    pub amount: Word,
    /// The observed cost of the item.
    pub current_cost: Query,
    /// The resolved address of the step-auction predicate.
    pub predicate_address: PredicateAddress,
}

/// The first rule a step-auction request breaks, if any: a malformed cost
/// snapshot, a decrease larger than the remaining cost, or a difference
/// outside the representable range.
pub open spec fn step_auction_error(build: BuildSolution) -> Option<SolutionError> {
    let c = snapshot_word(build.current_cost@);
    if !snapshot_wf(build.current_cost@) {
        Some(SolutionError::MalformedSnapshot)
    } else if build.amount > c {
        Some(SolutionError::Underflow)
    } else if !word_range(c - build.amount) {
        Some(SolutionError::Overflow)
    } else {
        None
    }
}

/// The public parameters of a step-auction: item, decrease, stepper.
pub open spec fn step_auction_pub_vars(build: BuildSolution) -> Seq<MutationModel> {
    seq![
        pub_var_model(0, seq![build.item_id]),
        pub_var_model(1, seq![build.amount]),
        pub_var_model(2, build.hashed_key@),
    ]
}

/// The write-set of a step-auction: the item's cost becomes the checked
/// difference of the observed cost and the decrease.
pub open spec fn step_auction_mutations(build: BuildSolution) -> Seq<MutationModel> {
    seq![
        (MutationModel {
            key: cost_key_spec(build.item_id),
            value: seq![(snapshot_word(build.current_cost@) - build.amount) as Word],
        }),
    ]
}

/// What a successfully built step-auction solution says: one transition
/// against the step-auction predicate, the item, decrease and stepper as
/// public parameters, and exactly one write, of the checked new cost.
pub open spec fn step_auction_solution_ok(sol: Solution, build: BuildSolution) -> bool {
    &&& sol.data@.len() == 1
    &&& sol.data@[0].predicate_to_solve == build.predicate_address
    &&& sol.data@[0].decision_variables@.len() == 0
    &&& models(sol.data@[0].transient_data@) == step_auction_pub_vars(build)
    &&& models(sol.data@[0].state_mutations@) == step_auction_mutations(build)
}

/// Builds a step-auction solution based on the provided data.
pub fn build_solution(build: BuildSolution) -> (r: Result<Solution, SolutionError>)
    ensures
        r is Ok <==> step_auction_error(build) is None,
        r matches Err(e) ==> step_auction_error(build) == Some(e),
        r matches Ok(sol) ==> step_auction_solution_ok(sol, build),
{
    let BuildSolution { item_id, hashed_key, amount, current_cost, predicate_address } = build;
    let new_cost = calculate_from_cost(cost(current_cost)?, amount)?;
    let mut pub_vars: Vec<Mutation> = Vec::new();
    pub_vars.push(pub_var_word(0, item_id));
    pub_vars.push(pub_var_word(1, amount));
    pub_vars.push(pub_var_identity(2, hashed_key));
    let mut mutations = MutationSet::new();
    mutations.entry(cost_key(item_id), word_value(new_cost))?;
    let sol = assemble(predicate_address, pub_vars, mutations);
    proof {
        assert(models(sol.data@[0].transient_data@) =~= step_auction_pub_vars(build));
        assert(models(sol.data@[0].state_mutations@) =~= step_auction_mutations(build));
    }
    Ok(sol)
}

/// Calculates the new cost after stepping the auction down.
fn calculate_from_cost(current: Word, amount: Word) -> (r: Result<Word, SolutionError>)
    ensures
        r is Ok <==> amount <= current && word_range(current - amount),
        r matches Ok(w) ==> w == current - amount,
        amount > current ==> (r matches Err(e) && e == SolutionError::Underflow),
        amount <= current && !word_range(current - amount) ==> (r matches Err(e) && e
            == SolutionError::Overflow),
{
    sub_checked(current, amount)
}

/// Law: the cost a step-auction writes is never negative, and for a
/// non-negative decrease it never exceeds the observed cost — under
/// stepping, the recorded cost only ever decays.
pub proof fn lemma_step_auction_cost_monotonic(build: BuildSolution, sol: Solution)
    requires
        step_auction_error(build) is None,
        step_auction_solution_ok(sol, build),
    ensures
        0 <= models(sol.data@[0].state_mutations@)[0].value[0],
        0 <= build.amount ==> models(sol.data@[0].state_mutations@)[0].value[0] <= snapshot_word(
            build.current_cost@,
        ),
{
}

} // verus!
