//! End-to-end scenario: a small in-memory ledger has each built solution's
//! write-set applied to it, and the balances and auction cells are checked
//! after every step.

use token::solution::{PredicateAddress, Solution};
use token::{balance, balance_key, cost_key, get_item_owner_key, owner_identity};
use token::{auction_status_key, create_auction, mint, place_bid, transfer, Query};

type Ledger = Vec<(Vec<i64>, Vec<i64>)>;

fn addr() -> PredicateAddress {
    PredicateAddress {
        contract: vec![0x11; 32],
        predicate: vec![0x22; 32],
    }
}

fn query(ledger: &Ledger, key: &Vec<i64>) -> Query {
    Query(
        ledger
            .iter()
            .find(|(k, _)| k == key)
            .map(|(_, v)| v.clone()),
    )
}

fn apply(ledger: &mut Ledger, sol: &Solution) {
    for m in &sol.data[0].state_mutations {
        if let Some(slot) = ledger.iter_mut().find(|(k, _)| *k == m.key) {
            slot.1 = m.value.clone();
        } else {
            ledger.push((m.key.clone(), m.value.clone()));
        }
    }
}

fn balance_of(ledger: &Ledger, account: [i64; 4]) -> i64 {
    balance(query(ledger, &balance_key(account))).unwrap()
}

#[test]
fn mint_transfer_auction_and_bid() {
    let account_a = [1, 1, 1, 1];
    let account_b = [2, 2, 2, 2];
    let item = 1;
    let mut ledger: Ledger = Vec::new();

    // Account A mints 100.
    let sol = mint::build_solution(mint::BuildSolution {
        current_balance: query(&ledger, &balance_key(account_a)),
        hashed_key: account_a,
        amount: 100,
        predicate_address: addr(),
    })
    .unwrap();
    apply(&mut ledger, &sol);
    assert_eq!(balance_of(&ledger, account_a), 100);

    // A transfers 40 to B.
    let sol = transfer::build_solution(transfer::BuildSolution {
        hashed_from_key: account_a,
        hashed_to_key: account_b,
        amount: 40,
        current_from_balance: query(&ledger, &balance_key(account_a)),
        current_to_balance: query(&ledger, &balance_key(account_b)),
        predicate_address: addr(),
    })
    .unwrap();
    apply(&mut ledger, &sol);
    assert_eq!(balance_of(&ledger, account_a), 60);
    assert_eq!(balance_of(&ledger, account_b), 40);

    // Owner A creates an auction for the item at cost 10.
    let sol = create_auction::build_solution(create_auction::BuildSolution {
        item_id: item,
        hashed_key: account_a,
        amount: 10,
        predicate_address: addr(),
    })
    .unwrap();
    apply(&mut ledger, &sol);
    assert_eq!(
        owner_identity(query(&ledger, &get_item_owner_key(item))).unwrap(),
        account_a
    );
    assert_eq!(query(&ledger, &auction_status_key(item)).0, Some(vec![0]));
    assert_eq!(query(&ledger, &cost_key(item)).0, Some(vec![10]));

    // Bidder B places a bid of 40 on the item.
    let sol = place_bid::build_solution(place_bid::BuildSolution {
        item_id: item,
        hashed_from_key: account_b,
        amount: 40,
        current_from_balance: query(&ledger, &balance_key(account_b)),
        current_to_balance: query(&ledger, &balance_key(account_a)),
        current_cost: query(&ledger, &cost_key(item)),
        current_owner: query(&ledger, &get_item_owner_key(item)),
        predicate_address: addr(),
    })
    .unwrap();
    apply(&mut ledger, &sol);
    assert_eq!(balance_of(&ledger, account_b), 0);
    assert_eq!(balance_of(&ledger, account_a), 100);
    assert_eq!(
        owner_identity(query(&ledger, &get_item_owner_key(item))).unwrap(),
        account_b
    );
    assert_eq!(query(&ledger, &auction_status_key(item)).0, Some(vec![1]));
    assert_eq!(query(&ledger, &cost_key(item)).0, Some(vec![40]));
}
