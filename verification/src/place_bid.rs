//! Building the transition that places a bid on an auctioned item: one
//! mutation set that settles the payment (debit bidder, credit previous
//! owner), hands the item over, marks the auction ended and records the bid
//! as the item's cost.

use vstd::prelude::*;

use crate::arith::{add_checked, sub_checked, word_range};
use crate::error::SolutionError;
use crate::keys::{
    auction_status_key, auction_status_key_spec, balance_key, balance_key_spec, cost_key,
    cost_key_spec, get_item_owner_key, item_owner_key_spec, lemma_balance_key_injective,
    lemma_key_families_disjoint,
};
use crate::snapshot::{
    balance, cost, owner_identity, owner_snapshot_identity, owner_snapshot_wf, snapshot_wf,
    snapshot_word, Query,
};
use crate::solution::{
    assemble, identity_value, models, pub_var_identity, pub_var_model, pub_var_word, word_value,
    Mutation, MutationModel, MutationSet, PredicateAddress, Solution,
};
use crate::Word;

verus! {

/// Everything a place-bid transition is built from.
pub struct BuildSolution {
    /// The item being bid on.
    pub item_id: Word,
    /// The hashed key of the bidder.
    pub hashed_from_key: [Word; 4],
    /// The amount of tokens bid.
    pub amount: Word,
    /// The observed balance of the bidder.
    pub current_from_balance: Query,
    /// The observed balance of the item's current owner.
    pub current_to_balance: Query,
    /// The observed cost of the item.
    pub current_cost: Query,
    /// The observed owner of the item; the previous owner's identity is
    /// taken from here before the same cell is overwritten.
    pub current_owner: Query,
    /// The resolved address of the place-bid predicate.
    pub predicate_address: PredicateAddress,
}

/// The first rule a bid breaks, if any, in the order the builder checks
/// them: the owner cell must hold an identity, the bid is sanity-checked
/// against the recorded cost, the bidder is debited, the previous owner is
/// credited, and last the two accounts must be distinct (an owner bidding
/// on their own item would write one balance cell twice).
pub open spec fn place_bid_error(build: BuildSolution) -> Option<SolutionError> {
    let c = snapshot_word(build.current_cost@);
    let bidder_balance = snapshot_word(build.current_from_balance@);
    let owner_balance = snapshot_word(build.current_to_balance@);
    if !owner_snapshot_wf(build.current_owner@) {
        Some(SolutionError::MalformedSnapshot)
    } else if !snapshot_wf(build.current_cost@) {
        Some(SolutionError::MalformedSnapshot)
    } else if !word_range(c - build.amount) {
        Some(SolutionError::Underflow)
    } else if !snapshot_wf(build.current_from_balance@) {
        Some(SolutionError::MalformedSnapshot)
    } else if build.amount > bidder_balance {
        Some(SolutionError::Underflow)
    } else if !word_range(bidder_balance - build.amount) {
        Some(SolutionError::Overflow)
    } else if !snapshot_wf(build.current_to_balance@) {
        Some(SolutionError::MalformedSnapshot)
    } else if !word_range(owner_balance + build.amount) {
        Some(SolutionError::Overflow)
    } else if build.hashed_from_key@ == owner_snapshot_identity(build.current_owner@) {
        Some(SolutionError::DuplicateMutation)
    } else {
        None
    }
}

/// The public parameters of a place-bid: item, bidder, amount.
pub open spec fn place_bid_pub_vars(build: BuildSolution) -> Seq<MutationModel> {
    seq![
        pub_var_model(0, seq![build.item_id]),
        pub_var_model(1, build.hashed_from_key@),
        pub_var_model(2, seq![build.amount]),
    ]
}

/// The write-set of a place-bid: the bidder pays the amount, the previous
/// owner receives it, the bidder becomes the owner, the auction is marked
/// ended, and the recorded cost becomes the bid.
pub open spec fn place_bid_mutations(build: BuildSolution) -> Seq<MutationModel> {
    let bidder_balance = snapshot_word(build.current_from_balance@);
    let owner_balance = snapshot_word(build.current_to_balance@);
    let owner = owner_snapshot_identity(build.current_owner@);
    seq![
        (MutationModel {
            key: balance_key_spec(build.hashed_from_key@),
            value: seq![(bidder_balance - build.amount) as Word],
        }),
        (MutationModel {
            key: balance_key_spec(owner),
            value: seq![(owner_balance + build.amount) as Word],
        }),
        (MutationModel {
            key: item_owner_key_spec(build.item_id),
            value: build.hashed_from_key@,
        }),
        (MutationModel { key: auction_status_key_spec(build.item_id), value: seq![1] }),
        (MutationModel { key: cost_key_spec(build.item_id), value: seq![build.amount] }),
    ]
}

/// What a successfully built place-bid solution says: one transition
/// against the place-bid predicate, the item, bidder and amount as public
/// parameters, and exactly the five writes of the settlement.
pub open spec fn place_bid_solution_ok(sol: Solution, build: BuildSolution) -> bool {
    &&& sol.data@.len() == 1
    &&& sol.data@[0].predicate_to_solve == build.predicate_address
    &&& sol.data@[0].decision_variables@.len() == 0
    &&& models(sol.data@[0].transient_data@) == place_bid_pub_vars(build)
    &&& models(sol.data@[0].state_mutations@) == place_bid_mutations(build)
}

/// Builds a place-bid solution based on the provided data.
pub fn build_solution(build: BuildSolution) -> (r: Result<Solution, SolutionError>)
    ensures
        r is Ok <==> place_bid_error(build) is None,
        r matches Err(e) ==> place_bid_error(build) == Some(e),
        r matches Ok(sol) ==> place_bid_solution_ok(sol, build),
{
    let BuildSolution {
        item_id,
        hashed_from_key,
        amount,
        current_from_balance,
        current_to_balance,
        current_cost,
        current_owner,
        predicate_address,
    } = build;
    let hashed_to_key = owner_identity(current_owner)?;
    let _cost = check_bid_cost(cost(current_cost)?, amount)?;
    let from_balance = calculate_new_balance_sub(balance(current_from_balance)?, amount)?;
    let to_balance = calculate_new_balance_add(balance(current_to_balance)?, amount)?;
    let mut pub_vars: Vec<Mutation> = Vec::new();
    pub_vars.push(pub_var_word(0, item_id));
    pub_vars.push(pub_var_identity(1, hashed_from_key));
    pub_vars.push(pub_var_word(2, amount));
    let mut mutations = MutationSet::new();
    mutations.entry(balance_key(hashed_from_key), word_value(from_balance))?;
    proof {
        if hashed_from_key@ == hashed_to_key@ {
            assert(mutations@[0].key == balance_key_spec(hashed_to_key@));
        } else {
            lemma_balance_key_injective(hashed_from_key@, hashed_to_key@);
        }
    }
    mutations.entry(balance_key(hashed_to_key), word_value(to_balance))?;
    proof {
        lemma_key_families_disjoint(hashed_from_key@, item_id, item_id);
        lemma_key_families_disjoint(hashed_to_key@, item_id, item_id);
    }
    mutations.entry(get_item_owner_key(item_id), identity_value(hashed_from_key))?;
    mutations.entry(auction_status_key(item_id), word_value(1))?;
    mutations.entry(cost_key(item_id), word_value(amount))?;
    let sol = assemble(predicate_address, pub_vars, mutations);
    proof {
        assert(models(sol.data@[0].transient_data@) =~= place_bid_pub_vars(build));
        assert(models(sol.data@[0].state_mutations@) =~= place_bid_mutations(build));
    }
    Ok(sol)
}

/// The bid's sanity check against the recorded cost: the difference must be
/// representable. A bid above the current cost is legitimate — whatever
/// minimum the auction's decay policy asks of a bid is the predicate's to
/// enforce — so unlike a balance debit this does not demand a bound on the
/// amount.
fn check_bid_cost(current: Word, amount: Word) -> (r: Result<Word, SolutionError>)
    ensures
        r is Ok <==> word_range(current - amount),
        r matches Ok(w) ==> w == current - amount,
        r matches Err(e) ==> e == SolutionError::Underflow,
{
    match current.checked_sub(amount) {
        Some(w) => Ok(w),
        None => Err(SolutionError::Underflow),
    }
}

/// Calculates the new balance of the previous owner after the payout.
fn calculate_new_balance_add(current: Word, amount: Word) -> (r: Result<Word, SolutionError>)
    ensures
        r is Ok <==> word_range(current + amount),
        r matches Ok(w) ==> w == current + amount,
        r matches Err(e) ==> e == SolutionError::Overflow,
{
    add_checked(current, amount)
}

/// Calculates the new balance of the bidder after paying the bid.
fn calculate_new_balance_sub(current: Word, amount: Word) -> (r: Result<Word, SolutionError>)
    ensures
        r is Ok <==> amount <= current && word_range(current - amount),
        r matches Ok(w) ==> w == current - amount,
        amount > current ==> (r matches Err(e) && e == SolutionError::Underflow),
        amount <= current && !word_range(current - amount) ==> (r matches Err(e) && e
            == SolutionError::Overflow),
{
    sub_checked(current, amount)
}

/// Law: a bid settlement conserves the total balance of bidder and previous
/// owner — what the bidder pays is exactly what the previous owner receives.
pub proof fn lemma_place_bid_conserves_total(build: BuildSolution, sol: Solution)
    requires
        place_bid_error(build) is None,
        place_bid_solution_ok(sol, build),
    ensures
        models(sol.data@[0].state_mutations@)[0].value[0] + models(
            sol.data@[0].state_mutations@,
        )[1].value[0] == snapshot_word(build.current_from_balance@) + snapshot_word(
            build.current_to_balance@,
        ),
{
}

/// Law: when the observed balances and the bid are non-negative, neither
/// balance a place-bid writes is negative; a bid of more than the bidder
/// holds is refused as Underflow.
pub proof fn lemma_place_bid_balances_nonnegative(build: BuildSolution, sol: Solution)
    requires
        place_bid_error(build) is None,
        place_bid_solution_ok(sol, build),
        0 <= build.amount,
        0 <= snapshot_word(build.current_from_balance@),
        0 <= snapshot_word(build.current_to_balance@),
    ensures
        0 <= models(sol.data@[0].state_mutations@)[0].value[0],
        0 <= models(sol.data@[0].state_mutations@)[1].value[0],
{
}

} // verus!
