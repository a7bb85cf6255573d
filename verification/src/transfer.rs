//! Building the transition that moves tokens between two accounts.

use vstd::prelude::*;

use crate::arith::{add_checked, sub_checked, word_range};
use crate::error::SolutionError;
use crate::keys::{balance_key, balance_key_spec, lemma_balance_key_injective};
use crate::snapshot::{balance, snapshot_wf, snapshot_word, Query};
use crate::solution::{
    assemble, models, pub_var_identity, pub_var_model, pub_var_word, word_value, Mutation,
    MutationModel, MutationSet, PredicateAddress, Solution,
};
use crate::Word;

verus! {

/// Everything a transfer transition is built from.
pub struct BuildSolution {
    /// The hashed key of the sender.
    pub hashed_from_key: [Word; 4],
    /// The hashed key of the recipient.
    pub hashed_to_key: [Word; 4],
    /// The amount of tokens to transfer.
    pub amount: Word,
    /// The observed balance of the sender.
    pub current_from_balance: Query,
    /// The observed balance of the recipient.
    pub current_to_balance: Query,
    /// The resolved address of the transfer predicate.
    pub predicate_address: PredicateAddress,
}

/// The first rule a transfer request breaks, if any, in the order the
/// builder checks them: the sender's snapshot and debit, the recipient's
/// snapshot and credit, and last that the two accounts are distinct (a
/// self-transfer would write one balance cell twice).
pub open spec fn transfer_error(build: BuildSolution) -> Option<SolutionError> {
    let from = snapshot_word(build.current_from_balance@);
    let to = snapshot_word(build.current_to_balance@);
    if !snapshot_wf(build.current_from_balance@) {
        Some(SolutionError::MalformedSnapshot)
    } else if build.amount > from {
        Some(SolutionError::Underflow)
    } else if !word_range(from - build.amount) {
        Some(SolutionError::Overflow)
    } else if !snapshot_wf(build.current_to_balance@) {
        Some(SolutionError::MalformedSnapshot)
    } else if !word_range(to + build.amount) {
        Some(SolutionError::Overflow)
    } else if build.hashed_from_key@ == build.hashed_to_key@ {
        Some(SolutionError::DuplicateMutation)
    } else {
        None
    }
}

/// The public parameters of a transfer: sender, recipient, amount.
pub open spec fn transfer_pub_vars(build: BuildSolution) -> Seq<MutationModel> {
    seq![
        pub_var_model(0, build.hashed_from_key@),
        pub_var_model(1, build.hashed_to_key@),
        pub_var_model(2, seq![build.amount]),
    ]
}

/// The write-set of a transfer: the sender's balance loses the amount, the
/// recipient's balance gains it.
pub open spec fn transfer_mutations(build: BuildSolution) -> Seq<MutationModel> {
    let from = snapshot_word(build.current_from_balance@);
    let to = snapshot_word(build.current_to_balance@);
    seq![
        (MutationModel {
            key: balance_key_spec(build.hashed_from_key@),
            value: seq![(from - build.amount) as Word],
        }),
        (MutationModel {
            key: balance_key_spec(build.hashed_to_key@),
            value: seq![(to + build.amount) as Word],
        }),
    ]
}

/// What a successfully built transfer solution says: one transition against
/// the transfer predicate, both accounts and the amount as public
/// parameters, and exactly the two balance writes.
pub open spec fn transfer_solution_ok(sol: Solution, build: BuildSolution) -> bool {
    &&& sol.data@.len() == 1
    &&& sol.data@[0].predicate_to_solve == build.predicate_address
    &&& sol.data@[0].decision_variables@.len() == 0
    &&& models(sol.data@[0].transient_data@) == transfer_pub_vars(build)
    &&& models(sol.data@[0].state_mutations@) == transfer_mutations(build)
}

/// Builds a transfer solution based on the provided data.
pub fn build_solution(build: BuildSolution) -> (r: Result<Solution, SolutionError>)
    ensures
        r is Ok <==> transfer_error(build) is None,
        r matches Err(e) ==> transfer_error(build) == Some(e),
        r matches Ok(sol) ==> transfer_solution_ok(sol, build),
{
    let BuildSolution {
        hashed_from_key,
        hashed_to_key,
        amount,
        current_from_balance,
        current_to_balance,
        predicate_address,
    } = build;
    let from_balance = calculate_from_balance(balance(current_from_balance)?, amount)?;
    let to_balance = calculate_to_balance(balance(current_to_balance)?, amount)?;
    let mut pub_vars: Vec<Mutation> = Vec::new();
    pub_vars.push(pub_var_identity(0, hashed_from_key));
    pub_vars.push(pub_var_identity(1, hashed_to_key));
    pub_vars.push(pub_var_word(2, amount));
    let mut mutations = MutationSet::new();
    mutations.entry(balance_key(hashed_from_key), word_value(from_balance))?;
    proof {
        if hashed_from_key@ == hashed_to_key@ {
            assert(mutations@[0].key == balance_key_spec(hashed_to_key@));
        } else {
            lemma_balance_key_injective(hashed_from_key@, hashed_to_key@);
        }
    }
    mutations.entry(balance_key(hashed_to_key), word_value(to_balance))?;
    let sol = assemble(predicate_address, pub_vars, mutations);
    proof {
        assert(models(sol.data@[0].transient_data@) =~= transfer_pub_vars(build));
        assert(models(sol.data@[0].state_mutations@) =~= transfer_mutations(build));
    }
    Ok(sol)
}

/// Calculates the new balance for the sender after transferring tokens.
fn calculate_from_balance(current: Word, amount: Word) -> (r: Result<Word, SolutionError>)
    ensures
        r is Ok <==> amount <= current && word_range(current - amount),
        r matches Ok(w) ==> w == current - amount,
        amount > current ==> (r matches Err(e) && e == SolutionError::Underflow),
        amount <= current && !word_range(current - amount) ==> (r matches Err(e) && e
            == SolutionError::Overflow),
{
    sub_checked(current, amount)
}

/// Calculates the new balance for the recipient after receiving tokens.
fn calculate_to_balance(current: Word, amount: Word) -> (r: Result<Word, SolutionError>)
    ensures
        r is Ok <==> word_range(current + amount),
        r matches Ok(w) ==> w == current + amount,
        r matches Err(e) ==> e == SolutionError::Overflow,
{
    add_checked(current, amount)
}

/// Law: a transfer conserves the total supply — the two balances it writes
/// sum to the two balances it observed. Mint is the only operation that
/// changes the total on purpose.
pub proof fn lemma_transfer_conserves_total(build: BuildSolution, sol: Solution)
    requires
        transfer_error(build) is None,
        transfer_solution_ok(sol, build),
    ensures
        models(sol.data@[0].state_mutations@)[0].value[0] + models(
            sol.data@[0].state_mutations@,
        )[1].value[0] == snapshot_word(build.current_from_balance@) + snapshot_word(
            build.current_to_balance@,
        ),
{
}

/// Law: when the observed balances and the amount are non-negative, neither
/// balance a transfer writes is negative. The debit cannot dig below zero
/// because a transfer of more than the sender holds is refused as Underflow.
pub proof fn lemma_transfer_balances_nonnegative(build: BuildSolution, sol: Solution)
    requires
        transfer_error(build) is None,
        transfer_solution_ok(sol, build),
        0 <= build.amount,
        0 <= snapshot_word(build.current_from_balance@),
        0 <= snapshot_word(build.current_to_balance@),
    ensures
        0 <= models(sol.data@[0].state_mutations@)[0].value[0],
        0 <= models(sol.data@[0].state_mutations@)[1].value[0],
{
}

} // verus!
