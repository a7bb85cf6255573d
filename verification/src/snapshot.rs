//! Snapshot extraction: decoding a raw "possibly-absent, possibly-multi-word"
//! point-query result into a single integral quantity with a defined default.

use vstd::prelude::*;

use crate::error::SolutionError;
use crate::Word;

verus! {

/// The result of a point query against the ledger: either absent or the
/// stored sequence of words. An account or item that was never written is
/// absent, which this domain reads as zero.
pub struct Query(pub Option<Vec<Word>>);

impl View for Query {
    type V = Option<Seq<Word>>;

    open spec fn view(&self) -> Option<Seq<Word>> {
        match self.0 {
            None => None,
            Some(v) => Some(v@),
        }
    }
}

/// A single-cell snapshot is well formed when it is absent, present-empty,
/// or holds exactly one word. Any other shape is data corruption.
pub open spec fn snapshot_wf(s: Option<Seq<Word>>) -> bool {
    match s {
        None => true,
        Some(v) => v.len() <= 1,
    }
}

/// The integral quantity a well-formed single-cell snapshot denotes:
/// absent and present-empty both default to zero.
pub open spec fn snapshot_word(s: Option<Seq<Word>>) -> Word {
    match s {
        None => 0,
        Some(v) => if v.len() == 0 {
            0
        } else {
            v[0]
        },
    }
}

/// An item-owner snapshot is well formed when it holds exactly the four
/// words of an account identity. An item with no recorded owner (absent or
/// otherwise misshapen) cannot be bid on, so no default is given here.
pub open spec fn owner_snapshot_wf(s: Option<Seq<Word>>) -> bool {
    match s {
        None => false,
        Some(v) => v.len() == 4,
    }
}

/// The account identity a well-formed item-owner snapshot denotes.
pub open spec fn owner_snapshot_identity(s: Option<Seq<Word>>) -> Seq<Word> {
    match s {
        None => Seq::empty(),
        Some(v) => v,
    }
}

/// Extracts the balance from a Query result. Absent and present-empty both
/// mean a zero balance; more than one word is a malformed snapshot.
pub fn balance(q: Query) -> (r: Result<Word, SolutionError>)
    ensures
        r is Ok <==> snapshot_wf(q@),
        r matches Ok(w) ==> w == snapshot_word(q@),
        r matches Err(e) ==> e == SolutionError::MalformedSnapshot,
{
    extract(q)
}

/// Extracts the current auction cost from a Query result. Absent and
/// present-empty both mean a zero cost; more than one word is a malformed
/// snapshot.
pub fn cost(q: Query) -> (r: Result<Word, SolutionError>)
    ensures
        r is Ok <==> snapshot_wf(q@),
        r matches Ok(w) ==> w == snapshot_word(q@),
        r matches Err(e) ==> e == SolutionError::MalformedSnapshot,
{
    extract(q)
}

/// Decodes a single-cell snapshot: absent or present-empty default to zero,
/// exactly one word is that word, anything longer is malformed.
fn extract(q: Query) -> (r: Result<Word, SolutionError>)
    ensures
        r is Ok <==> snapshot_wf(q@),
        r matches Ok(w) ==> w == snapshot_word(q@),
        r matches Err(e) ==> e == SolutionError::MalformedSnapshot,
{
    match q.0 {
        None => Ok(0),
        Some(v) => {
            if v.len() == 0 {
                Ok(0)
            } else if v.len() == 1 {
                Ok(v[0])
            } else {
                Err(SolutionError::MalformedSnapshot)
            }
        },
    }
}

/// Extracts the four-word account identity from an item-owner snapshot.
/// The owner cell is written as a whole identity, so any other shape
/// (including absent: the item was never auctioned) is malformed.
pub fn owner_identity(owner: Query) -> (r: Result<[Word; 4], SolutionError>)
    ensures
        r is Ok <==> owner_snapshot_wf(owner@),
        r matches Ok(id) ==> id@ == owner_snapshot_identity(owner@),
        r matches Err(e) ==> e == SolutionError::MalformedSnapshot,
{
    match owner.0 {
        None => Err(SolutionError::MalformedSnapshot),
        Some(v) => {
            if v.len() == 4 {
                let id = [v[0], v[1], v[2], v[3]];
                assert(id@ =~= v@);
                Ok(id)
            } else {
                Err(SolutionError::MalformedSnapshot)
            }
        },
    }
}

} // verus!
