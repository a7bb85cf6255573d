//! Client-side builder for atomic state-transition proposals ("solutions")
//! against the key/value ledger that backs a token-and-auction contract.
//!
//! Given a requested operation (mint, transfer, create auction, step auction,
//! place bid) and snapshots of the relevant ledger cells, the builder produces
//! a self-consistent proposal: a target predicate address, a set of public
//! transition parameters, and a set of key-to-new-value mutations. All
//! construction is pure computation over already-fetched snapshots; querying
//! the ledger and submitting the finished proposal are the caller's concern.

pub mod arith;
pub mod create_auction;
pub mod error;
pub mod hexfmt;
pub mod keys;
pub mod mint;
pub mod place_bid;
pub mod snapshot;
pub mod solution;
pub mod step_auction;
pub mod transfer;

pub use error::SolutionError;
pub use hexfmt::to_hex_string;
pub use keys::{auction_status_key, balance_key, cost_key, get_item_owner_key};
pub use snapshot::{balance, cost, owner_identity, Query};

use vstd::prelude::*;

verus! {

/// The fixed-width signed integer the ledger stores: every balance, cost,
/// item identifier and key component is one of these.
pub type Word = i64;

/// An opaque addressable location in the external key/value store.
pub type Key = Vec<Word>;

/// The sequence of words stored at one ledger key.
pub type Value = Vec<Word>;

} // verus!
