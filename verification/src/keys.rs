//! Key derivation: the deterministic mapping from logical ledger fields
//! (account identity, item identity) to ledger keys.
//!
//! The schema is explicit: the first word of every key names its storage
//! family, the remaining words are the identity component. The query service
//! and the mutation set agree on key identity exactly because these
//! functions are pure and stable: same input, identical key.

use vstd::prelude::*;

use crate::{Key, Word};

verus! {

/// Storage family of `balances[account]`.
pub const BALANCES_FAMILY: Word = 0;

/// Storage family of `item_owner[item]`.
pub const ITEM_OWNER_FAMILY: Word = 1;

/// Storage family of `cost[item]`.
pub const COST_FAMILY: Word = 2;

/// Storage family of `auction_ended[item]`.
pub const AUCTION_ENDED_FAMILY: Word = 3;

/// The ledger key holding an account's balance.
pub open spec fn balance_key_spec(hashed_key: Seq<Word>) -> Seq<Word> {
    seq![BALANCES_FAMILY] + hashed_key
}

/// The ledger key holding an item's owner.
pub open spec fn item_owner_key_spec(item_id: Word) -> Seq<Word> {
    seq![ITEM_OWNER_FAMILY, item_id]
}

/// The ledger key holding an item's current auction cost.
pub open spec fn cost_key_spec(item_id: Word) -> Seq<Word> {
    seq![COST_FAMILY, item_id]
}

/// The ledger key holding whether an item's auction has ended.
pub open spec fn auction_status_key_spec(item_id: Word) -> Seq<Word> {
    seq![AUCTION_ENDED_FAMILY, item_id]
}

/// Generates the key for querying an account's balance.
pub fn balance_key(hashed_key: [Word; 4]) -> (r: Key)
    ensures
        r@ == balance_key_spec(hashed_key@),
{
    let mut k: Vec<Word> = Vec::new();
    k.push(BALANCES_FAMILY);
    k.push(hashed_key[0]);
    k.push(hashed_key[1]);
    k.push(hashed_key[2]);
    k.push(hashed_key[3]);
    assert(k@ =~= balance_key_spec(hashed_key@));
    k
}

/// Generates the key for querying an item's owner.
pub fn get_item_owner_key(item_id: Word) -> (r: Key)
    ensures
        r@ == item_owner_key_spec(item_id),
{
    let mut k: Vec<Word> = Vec::new();
    k.push(ITEM_OWNER_FAMILY);
    k.push(item_id);
    assert(k@ =~= item_owner_key_spec(item_id));
    k
}

/// Generates the key for querying an item's current auction cost.
pub fn cost_key(item_id: Word) -> (r: Key)
    ensures
        r@ == cost_key_spec(item_id),
{
    let mut k: Vec<Word> = Vec::new();
    k.push(COST_FAMILY);
    k.push(item_id);
    assert(k@ =~= cost_key_spec(item_id));
    k
}

/// Generates the key for querying an item's auction status.
pub fn auction_status_key(item_id: Word) -> (r: Key)
    ensures
        r@ == auction_status_key_spec(item_id),
{
    let mut k: Vec<Word> = Vec::new();
    k.push(AUCTION_ENDED_FAMILY);
    k.push(item_id);
    assert(k@ =~= auction_status_key_spec(item_id));
    k
}

/// Law: balance keys of different account identities never collide, so the
/// only way two balance writes can land on one ledger cell is through one
/// and the same account.
pub proof fn lemma_balance_key_injective(a: Seq<Word>, b: Seq<Word>)
    requires
        a.len() == b.len(),
        a != b,
    ensures
        balance_key_spec(a) != balance_key_spec(b),
{
    if balance_key_spec(a) == balance_key_spec(b) {
        assert forall|i: int| 0 <= i < a.len() implies a[i] == b[i] by {
            assert(balance_key_spec(a)[i + 1] == balance_key_spec(b)[i + 1]);
        }
        assert(a =~= b);
    }
}

/// Law: the four key families are pairwise disjoint — a balance key is never
/// an item-owner, cost or auction-status key, and the three per-item keys of
/// one item differ from each other. The first word of a key names its family.
pub proof fn lemma_key_families_disjoint(hashed_key: Seq<Word>, item_a: Word, item_b: Word)
    ensures
        balance_key_spec(hashed_key) != item_owner_key_spec(item_a),
        balance_key_spec(hashed_key) != cost_key_spec(item_a),
        balance_key_spec(hashed_key) != auction_status_key_spec(item_a),
        item_owner_key_spec(item_a) != cost_key_spec(item_b),
        item_owner_key_spec(item_a) != auction_status_key_spec(item_b),
        cost_key_spec(item_a) != auction_status_key_spec(item_b),
{
    assert(balance_key_spec(hashed_key)[0] == BALANCES_FAMILY);
}

} // verus!
