//! The single failure taxonomy every construction step reports through.

use vstd::prelude::*;

verus! {

/// Why building a solution failed. Construction either fully succeeds or
/// produces no proposal at all; one of these says which rule was violated.
#[derive(Debug, Clone, Copy, PartialEq, Eq, Structural)]
pub enum SolutionError {
    /// A snapshot had an unexpected shape: the store layout and the builder
    /// disagree. Never a legitimate ledger state.
    MalformedSnapshot,
    /// A checked addition left the representable range (supply overflow).
    Overflow,
    /// A checked subtraction was asked to take more than was there
    /// (insufficient balance or insufficient remaining cost).
    Underflow,
    /// One mutation set was about to write the same ledger key twice;
    /// no legitimate transition in this domain does that.
    DuplicateMutation,
}

} // verus!
