//! Building the transition that mints new tokens into one account.

use vstd::prelude::*;

use crate::arith::{add_checked, word_range};
use crate::error::SolutionError;
use crate::keys::{balance_key, balance_key_spec};
use crate::snapshot::{balance, snapshot_wf, snapshot_word, Query};
use crate::solution::{
    assemble, models, pub_var_identity, pub_var_model, pub_var_word, word_value, Mutation,
    MutationModel, MutationSet, PredicateAddress, Solution,
};
use crate::Word;

verus! {

/// Everything a mint transition is built from.
pub struct BuildSolution {
    /// The observed balance of the account.
    pub current_balance: Query,
    /// The hashed key of the account.
    pub hashed_key: [Word; 4],
    /// The amount of tokens to mint.
    pub amount: Word,
    /// The resolved address of the mint predicate.
    pub predicate_address: PredicateAddress,
}

/// The first rule a mint request breaks, if any: a malformed balance
/// snapshot, or a new balance outside the representable range.
pub open spec fn mint_error(build: BuildSolution) -> Option<SolutionError> {
    if !snapshot_wf(build.current_balance@) {
        Some(SolutionError::MalformedSnapshot)
    } else if !word_range(snapshot_word(build.current_balance@) + build.amount) {
        Some(SolutionError::Overflow)
    } else {
        None
    }
}

/// The public parameters of a mint: the account identity and the amount.
pub open spec fn mint_pub_vars(build: BuildSolution) -> Seq<MutationModel> {
    seq![pub_var_model(0, build.hashed_key@), pub_var_model(1, seq![build.amount])]
}

/// The write-set of a mint: the account's balance becomes the checked sum
/// of the observed balance and the minted amount.
pub open spec fn mint_mutations(build: BuildSolution) -> Seq<MutationModel> {
    seq![
        (MutationModel {
            key: balance_key_spec(build.hashed_key@),
            value: seq![(snapshot_word(build.current_balance@) + build.amount) as Word],
        }),
    ]
}

/// What a successfully built mint solution says: one transition against the
/// mint predicate, the account and amount as public parameters, and exactly
/// one write, of the checked new balance.
pub open spec fn mint_solution_ok(sol: Solution, build: BuildSolution) -> bool {
    &&& sol.data@.len() == 1
    &&& sol.data@[0].predicate_to_solve == build.predicate_address
    &&& sol.data@[0].decision_variables@.len() == 0
    &&& models(sol.data@[0].transient_data@) == mint_pub_vars(build)
    &&& models(sol.data@[0].state_mutations@) == mint_mutations(build)
}

/// Builds a mint solution based on the provided data.
pub fn build_solution(build: BuildSolution) -> (r: Result<Solution, SolutionError>)
    ensures
        r is Ok <==> mint_error(build) is None,
        r matches Err(e) ==> mint_error(build) == Some(e),
        r matches Ok(sol) ==> mint_solution_ok(sol, build),
{
    let BuildSolution { current_balance, hashed_key, amount, predicate_address } = build;
    let new_balance = calculate_new_balance(balance(current_balance)?, amount)?;
    let mut pub_vars: Vec<Mutation> = Vec::new();
    pub_vars.push(pub_var_identity(0, hashed_key));
    pub_vars.push(pub_var_word(1, amount));
    let mut mutations = MutationSet::new();
    mutations.entry(balance_key(hashed_key), word_value(new_balance))?;
    let sol = assemble(predicate_address, pub_vars, mutations);
    proof {
        assert(models(sol.data@[0].transient_data@) =~= mint_pub_vars(build));
        assert(models(sol.data@[0].state_mutations@) =~= mint_mutations(build));
    }
    Ok(sol)
}

/// Law: when the observed balance and the minted amount are non-negative,
/// the balance a mint writes is non-negative. Minting is the one operation
/// that changes the total supply on purpose.
pub proof fn lemma_mint_balance_nonnegative(build: BuildSolution, sol: Solution)
    requires
        mint_error(build) is None,
        mint_solution_ok(sol, build),
        0 <= build.amount,
        0 <= snapshot_word(build.current_balance@),
    ensures
        0 <= models(sol.data@[0].state_mutations@)[0].value[0],
{
}

/// Calculates the new balance after minting tokens.
fn calculate_new_balance(current: Word, amount: Word) -> (r: Result<Word, SolutionError>)
    ensures
        r is Ok <==> word_range(current + amount),
        r matches Ok(w) ==> w == current + amount,
        r matches Err(e) ==> e == SolutionError::Overflow,
{
    add_checked(current, amount)
}

} // verus!
