//! Building the transition that opens an auction for an item.

use vstd::prelude::*;

use crate::error::SolutionError;
use crate::keys::{
    auction_status_key, auction_status_key_spec, cost_key, cost_key_spec, get_item_owner_key,
    item_owner_key_spec, lemma_key_families_disjoint,
};
use crate::solution::{
    assemble, identity_value, models, pub_var_identity, pub_var_model, pub_var_word, word_value,
    Mutation, MutationModel, MutationSet, PredicateAddress, Solution,
};
use crate::Word;

verus! {

/// Everything a create-auction transition is built from.
pub struct BuildSolution {
    /// The item put up for auction.
    pub item_id: Word,
    /// The hashed key of the account opening the auction.
    pub hashed_key: [Word; 4],
    /// The initial cost of the item.
    pub amount: Word,
    /// The resolved address of the create-auction predicate.
    pub predicate_address: PredicateAddress,
}

/// The public parameters of a create-auction: item, initial cost, owner.
pub open spec fn create_auction_pub_vars(build: BuildSolution) -> Seq<MutationModel> {
    seq![
        pub_var_model(0, seq![build.item_id]),
        pub_var_model(1, seq![build.amount]),
        pub_var_model(2, build.hashed_key@),
    ]
}

/// The write-set of a create-auction: the opener becomes the item's owner,
/// the auction is marked not ended, and the cost is set to the initial cost
/// — all direct overwrites, whatever was recorded before.
pub open spec fn create_auction_mutations(build: BuildSolution) -> Seq<MutationModel> {
    seq![
        (MutationModel { key: item_owner_key_spec(build.item_id), value: build.hashed_key@ }),
        (MutationModel { key: auction_status_key_spec(build.item_id), value: seq![0] }),
        (MutationModel { key: cost_key_spec(build.item_id), value: seq![build.amount] }),
    ]
}

/// What a successfully built create-auction solution says: one transition
/// against the create-auction predicate, the item, initial cost and owner
/// as public parameters, and exactly the three per-item writes.
pub open spec fn create_auction_solution_ok(sol: Solution, build: BuildSolution) -> bool {
    &&& sol.data@.len() == 1
    &&& sol.data@[0].predicate_to_solve == build.predicate_address
    &&& sol.data@[0].decision_variables@.len() == 0
    &&& models(sol.data@[0].transient_data@) == create_auction_pub_vars(build)
    &&& models(sol.data@[0].state_mutations@) == create_auction_mutations(build)
}

/// Builds a create-auction solution based on the provided data. Creation
/// reads nothing and performs no arithmetic, so it never fails: the three
/// writes are direct sets and their keys can never collide.
pub fn build_solution(build: BuildSolution) -> (r: Result<Solution, SolutionError>)
    ensures
        r is Ok,
        r matches Ok(sol) ==> create_auction_solution_ok(sol, build),
{
    let BuildSolution { item_id, hashed_key, amount, predicate_address } = build;
    let mut pub_vars: Vec<Mutation> = Vec::new();
    pub_vars.push(pub_var_word(0, item_id));
    pub_vars.push(pub_var_word(1, amount));
    pub_vars.push(pub_var_identity(2, hashed_key));
    let mut mutations = MutationSet::new();
    proof {
        lemma_key_families_disjoint(hashed_key@, item_id, item_id);
    }
    mutations.entry(get_item_owner_key(item_id), identity_value(hashed_key))?;
    mutations.entry(auction_status_key(item_id), word_value(0))?;
    mutations.entry(cost_key(item_id), word_value(amount))?;
    let sol = assemble(predicate_address, pub_vars, mutations);
    proof {
        assert(models(sol.data@[0].transient_data@) =~= create_auction_pub_vars(build));
        assert(models(sol.data@[0].state_mutations@) =~= create_auction_mutations(build));
    }
    Ok(sol)
}

} // verus!
