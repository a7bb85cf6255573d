//! Checked arithmetic: the only update rules the builder performs on
//! balances and auction costs. Either primitive fully succeeds or reports
//! which business rule was violated; nothing wraps and nothing panics.

use vstd::prelude::*;

use crate::error::SolutionError;
use crate::Word;

verus! {

/// Whether a mathematical integer fits in the ledger's word.
pub open spec fn word_range(x: int) -> bool {
    i64::MIN <= x <= i64::MAX
}

/// The checked addition rule: `a + b`, failing with `Overflow` when the true
/// sum leaves the representable range (supply overflow).
pub fn add_checked(a: Word, b: Word) -> (r: Result<Word, SolutionError>)
    ensures
        r is Ok <==> word_range(a + b),
        r matches Ok(w) ==> w == a + b,
        r matches Err(e) ==> e == SolutionError::Overflow,
{
    match a.checked_add(b) {
        Some(w) => Ok(w),
        None => Err(SolutionError::Overflow),
    }
}

/// The checked subtraction rule: `a - b`, failing with `Underflow` when
/// `b > a` (insufficient balance, insufficient remaining cost). A difference
/// that is non-negative yet still out of range (only possible when `b` is
/// itself negative and huge) fails with `Overflow`.
pub fn sub_checked(a: Word, b: Word) -> (r: Result<Word, SolutionError>)
    ensures
        r is Ok <==> b <= a && word_range(a - b),
        r matches Ok(w) ==> w == a - b,
        b > a ==> (r matches Err(e) && e == SolutionError::Underflow),
        b <= a && !word_range(a - b) ==> (r matches Err(e) && e == SolutionError::Overflow),
{
    if b > a {
        Err(SolutionError::Underflow)
    } else {
        match a.checked_sub(b) {
            Some(w) => Ok(w),
            None => Err(SolutionError::Overflow),
        }
    }
}

} // verus!
