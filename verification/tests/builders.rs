//! The five transition constructors, on exact scenarios: the write-set and
//! public parameters of each successful build, and every refusal.

use token::solution::{PredicateAddress, Solution};
use token::{create_auction, mint, place_bid, step_auction, transfer};
use token::{Query, SolutionError};

fn addr() -> PredicateAddress {
    PredicateAddress {
        contract: vec![0xaa; 32],
        predicate: vec![0xbb; 32],
    }
}

fn pairs(sol: &Solution) -> Vec<(Vec<i64>, Vec<i64>)> {
    sol.data[0]
        .state_mutations
        .iter()
        .map(|m| (m.key.clone(), m.value.clone()))
        .collect()
}

fn pub_vars(sol: &Solution) -> Vec<(Vec<i64>, Vec<i64>)> {
    sol.data[0]
        .transient_data
        .iter()
        .map(|m| (m.key.clone(), m.value.clone()))
        .collect()
}

#[test]
fn mint_adds_to_the_observed_balance() {
    let sol = mint::build_solution(mint::BuildSolution {
        current_balance: Query(Some(vec![5])),
        hashed_key: [1, 2, 3, 4],
        amount: 10,
        predicate_address: addr(),
    })
    .unwrap();
    assert_eq!(sol.data.len(), 1);
    assert_eq!(sol.data[0].predicate_to_solve, addr());
    assert!(sol.data[0].decision_variables.is_empty());
    assert_eq!(
        pub_vars(&sol),
        vec![(vec![0], vec![1, 2, 3, 4]), (vec![1], vec![10])]
    );
    assert_eq!(pairs(&sol), vec![(vec![0, 1, 2, 3, 4], vec![15])]);
}

#[test]
fn mint_from_absent_balance_starts_at_zero() {
    let sol = mint::build_solution(mint::BuildSolution {
        current_balance: Query(None),
        hashed_key: [0, 0, 0, 9],
        amount: 100,
        predicate_address: addr(),
    })
    .unwrap();
    assert_eq!(pairs(&sol), vec![(vec![0, 0, 0, 0, 9], vec![100])]);
}

#[test]
fn mint_overflow_is_refused() {
    let r = mint::build_solution(mint::BuildSolution {
        current_balance: Query(Some(vec![i64::MAX])),
        hashed_key: [1, 2, 3, 4],
        amount: 1,
        predicate_address: addr(),
    });
    assert_eq!(r.err(), Some(SolutionError::Overflow));
}

#[test]
fn mint_malformed_snapshot_is_refused() {
    let r = mint::build_solution(mint::BuildSolution {
        current_balance: Query(Some(vec![1, 2])),
        hashed_key: [1, 2, 3, 4],
        amount: 1,
        predicate_address: addr(),
    });
    assert_eq!(r.err(), Some(SolutionError::MalformedSnapshot));
}

#[test]
fn transfer_moves_and_conserves() {
    let sol = transfer::build_solution(transfer::BuildSolution {
        hashed_from_key: [1, 1, 1, 1],
        hashed_to_key: [2, 2, 2, 2],
        amount: 40,
        current_from_balance: Query(Some(vec![50])),
        current_to_balance: Query(Some(vec![10])),
        predicate_address: addr(),
    })
    .unwrap();
    assert_eq!(
        pub_vars(&sol),
        vec![
            (vec![0], vec![1, 1, 1, 1]),
            (vec![1], vec![2, 2, 2, 2]),
            (vec![2], vec![40]),
        ]
    );
    let muts = pairs(&sol);
    assert_eq!(
        muts,
        vec![
            (vec![0, 1, 1, 1, 1], vec![10]),
            (vec![0, 2, 2, 2, 2], vec![50]),
        ]
    );
    // Conservation: the written balances sum to the observed balances.
    assert_eq!(muts[0].1[0] + muts[1].1[0], 50 + 10);
}

#[test]
fn transfer_of_more_than_held_is_underflow() {
    let r = transfer::build_solution(transfer::BuildSolution {
        hashed_from_key: [1, 1, 1, 1],
        hashed_to_key: [2, 2, 2, 2],
        amount: 60,
        current_from_balance: Query(Some(vec![50])),
        current_to_balance: Query(Some(vec![10])),
        predicate_address: addr(),
    });
    assert_eq!(r.err(), Some(SolutionError::Underflow));
}

#[test]
fn transfer_overflowing_the_recipient_is_refused() {
    let r = transfer::build_solution(transfer::BuildSolution {
        hashed_from_key: [1, 1, 1, 1],
        hashed_to_key: [2, 2, 2, 2],
        amount: 1,
        current_from_balance: Query(Some(vec![1])),
        current_to_balance: Query(Some(vec![i64::MAX])),
        predicate_address: addr(),
    });
    assert_eq!(r.err(), Some(SolutionError::Overflow));
}

#[test]
fn transfer_to_self_is_a_duplicate_mutation() {
    let r = transfer::build_solution(transfer::BuildSolution {
        hashed_from_key: [1, 1, 1, 1],
        hashed_to_key: [1, 1, 1, 1],
        amount: 5,
        current_from_balance: Query(Some(vec![50])),
        current_to_balance: Query(Some(vec![50])),
        predicate_address: addr(),
    });
    assert_eq!(r.err(), Some(SolutionError::DuplicateMutation));
}

#[test]
fn create_auction_writes_owner_status_and_cost() {
    let sol = create_auction::build_solution(create_auction::BuildSolution {
        item_id: 7,
        hashed_key: [4, 3, 2, 1],
        amount: 10,
        predicate_address: addr(),
    })
    .unwrap();
    assert_eq!(
        pub_vars(&sol),
        vec![
            (vec![0], vec![7]),
            (vec![1], vec![10]),
            (vec![2], vec![4, 3, 2, 1]),
        ]
    );
    assert_eq!(
        pairs(&sol),
        vec![
            (vec![1, 7], vec![4, 3, 2, 1]),
            (vec![3, 7], vec![0]),
            (vec![2, 7], vec![10]),
        ]
    );
}

#[test]
fn step_auction_decreases_the_cost() {
    let sol = step_auction::build_solution(step_auction::BuildSolution {
        item_id: 7,
        hashed_key: [4, 3, 2, 1],
        amount: 4,
        current_cost: Query(Some(vec![10])),
        predicate_address: addr(),
    })
    .unwrap();
    assert_eq!(
        pub_vars(&sol),
        vec![
            (vec![0], vec![7]),
            (vec![1], vec![4]),
            (vec![2], vec![4, 3, 2, 1]),
        ]
    );
    assert_eq!(pairs(&sol), vec![(vec![2, 7], vec![6])]);
}

#[test]
fn step_auction_below_zero_is_underflow() {
    let r = step_auction::build_solution(step_auction::BuildSolution {
        item_id: 7,
        hashed_key: [4, 3, 2, 1],
        amount: 11,
        current_cost: Query(Some(vec![10])),
        predicate_address: addr(),
    });
    assert_eq!(r.err(), Some(SolutionError::Underflow));
}

#[test]
fn place_bid_settles_payment_and_ownership() {
    let sol = place_bid::build_solution(place_bid::BuildSolution {
        item_id: 7,
        hashed_from_key: [2, 2, 2, 2],
        amount: 25,
        current_from_balance: Query(Some(vec![40])),
        current_to_balance: Query(Some(vec![60])),
        current_cost: Query(Some(vec![30])),
        current_owner: Query(Some(vec![1, 1, 1, 1])),
        predicate_address: addr(),
    })
    .unwrap();
    assert_eq!(
        pub_vars(&sol),
        vec![
            (vec![0], vec![7]),
            (vec![1], vec![2, 2, 2, 2]),
            (vec![2], vec![25]),
        ]
    );
    let muts = pairs(&sol);
    assert_eq!(
        muts,
        vec![
            (vec![0, 2, 2, 2, 2], vec![15]),
            (vec![0, 1, 1, 1, 1], vec![85]),
            (vec![1, 7], vec![2, 2, 2, 2]),
            (vec![3, 7], vec![1]),
            (vec![2, 7], vec![25]),
        ]
    );
    // Conservation between bidder and previous owner.
    assert_eq!(muts[0].1[0] + muts[1].1[0], 40 + 60);
}

#[test]
fn place_bid_above_the_current_cost_is_legitimate() {
    let sol = place_bid::build_solution(place_bid::BuildSolution {
        item_id: 1,
        hashed_from_key: [2, 2, 2, 2],
        amount: 40,
        current_from_balance: Query(Some(vec![40])),
        current_to_balance: Query(Some(vec![60])),
        current_cost: Query(Some(vec![10])),
        current_owner: Query(Some(vec![1, 1, 1, 1])),
        predicate_address: addr(),
    })
    .unwrap();
    let muts = pairs(&sol);
    assert_eq!(muts[0], (vec![0, 2, 2, 2, 2], vec![0]));
    assert_eq!(muts[1], (vec![0, 1, 1, 1, 1], vec![100]));
    assert_eq!(muts[4], (vec![2, 1], vec![40]));
}

#[test]
fn place_bid_beyond_the_bidder_balance_is_underflow() {
    let r = place_bid::build_solution(place_bid::BuildSolution {
        item_id: 7,
        hashed_from_key: [2, 2, 2, 2],
        amount: 41,
        current_from_balance: Query(Some(vec![40])),
        current_to_balance: Query(Some(vec![60])),
        current_cost: Query(Some(vec![30])),
        current_owner: Query(Some(vec![1, 1, 1, 1])),
        predicate_address: addr(),
    });
    assert_eq!(r.err(), Some(SolutionError::Underflow));
}

#[test]
fn place_bid_without_a_recorded_owner_is_malformed() {
    let r = place_bid::build_solution(place_bid::BuildSolution {
        item_id: 7,
        hashed_from_key: [2, 2, 2, 2],
        amount: 25,
        current_from_balance: Query(Some(vec![40])),
        current_to_balance: Query(Some(vec![60])),
        current_cost: Query(Some(vec![30])),
        current_owner: Query(None),
        predicate_address: addr(),
    });
    assert_eq!(r.err(), Some(SolutionError::MalformedSnapshot));
}

#[test]
fn place_bid_on_own_item_is_a_duplicate_mutation() {
    let r = place_bid::build_solution(place_bid::BuildSolution {
        item_id: 7,
        hashed_from_key: [1, 1, 1, 1],
        amount: 25,
        current_from_balance: Query(Some(vec![40])),
        current_to_balance: Query(Some(vec![60])),
        current_cost: Query(Some(vec![30])),
        current_owner: Query(Some(vec![1, 1, 1, 1])),
        predicate_address: addr(),
    });
    assert_eq!(r.err(), Some(SolutionError::DuplicateMutation));
}
