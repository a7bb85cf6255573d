//! The proposal ("solution") shape handed to the submission layer, and the
//! mutation-set builder every transition constructor accumulates its
//! write-set with.

use vstd::prelude::*;

use crate::error::SolutionError;
use crate::{Key, Value, Word};

verus! {

/// One (ledger key, new value) pair of a proposal's write-set.
#[derive(Debug, Clone, PartialEq, Eq)]
pub struct Mutation {
    /// The addressed ledger cell.
    pub key: Key,
    /// The full new contents of that cell.
    pub value: Value,
}

/// The mathematical model of a mutation: both sides as plain sequences.
pub ghost struct MutationModel {
    /// The addressed ledger cell.
    pub key: Seq<Word>,
    /// The full new contents of that cell.
    pub value: Seq<Word>,
}

impl View for Mutation {
    type V = MutationModel;

    open spec fn view(&self) -> MutationModel {
        MutationModel { key: self.key@, value: self.value@ }
    }
}

/// The models of a sequence of mutations.
pub open spec fn models(muts: Seq<Mutation>) -> Seq<MutationModel> {
    muts.map_values(|m: Mutation| m@)
}

/// No two mutations address the same ledger key: the defining invariant of
/// every write-set this builder emits.
pub open spec fn distinct_keys(s: Seq<MutationModel>) -> bool {
    forall|i: int, j: int| 0 <= i < j < s.len() ==> s[i].key != s[j].key
}

/// Whether some mutation in `s` already addresses key `k`.
pub open spec fn has_key(s: Seq<MutationModel>, k: Seq<Word>) -> bool {
    exists|i: int| 0 <= i < s.len() && s[i].key == k
}

/// Content address of the deployed contract and of the predicate a proposal
/// targets; resolved once per contract version by the caller and carried
/// through unchanged.
#[derive(Debug, Clone, PartialEq, Eq)]
pub struct PredicateAddress {
    /// Content address of the contract.
    pub contract: Vec<u8>,
    /// Content address of the predicate to solve.
    pub predicate: Vec<u8>,
}

/// One atomic state transition: the predicate that authorises it, the public
/// parameters the predicate re-verifies it against, and the full write-set.
#[derive(Debug, Clone, PartialEq, Eq)]
pub struct SolutionData {
    /// The predicate this transition must satisfy.
    pub predicate_to_solve: PredicateAddress,
    /// Private decision variables; this contract family uses none.
    pub decision_variables: Vec<Value>,
    /// The operation's public parameters, one cell per declared parameter.
    pub transient_data: Vec<Mutation>,
    /// The write-set: the complete set of ledger cells this transition sets.
    pub state_mutations: Vec<Mutation>,
}

/// A finished proposal: a single atomic transition, immutable once built.
#[derive(Debug, Clone, PartialEq, Eq)]
pub struct Solution {
    /// The transitions of the proposal; this builder always emits exactly one.
    pub data: Vec<SolutionData>,
}

/// Accumulates the write-set of one operation. Duplicate keys are rejected:
/// no legitimate transition in this domain writes one ledger cell twice, so
/// a collision is reported as `DuplicateMutation` rather than shadowed.
pub struct MutationSet {
    muts: Vec<Mutation>,
}

impl View for MutationSet {
    type V = Seq<MutationModel>;

    closed spec fn view(&self) -> Seq<MutationModel> {
        models(self.muts@)
    }
}

impl MutationSet {
    /// The invariant every reachable mutation set keeps: pairwise distinct keys.
    pub open spec fn wf(&self) -> bool {
        distinct_keys(self@)
    }

    /// An empty write-set.
    pub fn new() -> (r: Self)
        ensures
            r@ == Seq::<MutationModel>::empty(),
            r.wf(),
    {
        let r = MutationSet { muts: Vec::new() };
        assert(r@ =~= Seq::<MutationModel>::empty());
        r
    }

    /// The additive combinator: appends one (key, new value) pair, refusing
    /// a key the set already writes.
    pub fn entry(&mut self, key: Key, value: Value) -> (r: Result<(), SolutionError>)
        requires
            old(self).wf(),
        ensures
            final(self).wf(),
            r is Ok <==> !has_key(old(self)@, key@),
            r is Ok ==> final(self)@ == old(self)@.push(MutationModel { key: key@, value: value@ }),
            r is Err ==> final(self)@ == old(self)@,
            r matches Err(e) ==> e == SolutionError::DuplicateMutation,
    {
        let n = self.muts.len();
        let mut i: usize = 0;
        while i < n
            invariant
                i <= n,
                n == self.muts.len(),
                *self == *old(self),
                old(self).wf(),
                forall|j: int| 0 <= j < i ==> self.muts@[j]@.key != key@,
            decreases n - i,
        {
            if keys_eq(&self.muts[i].key, &key) {
                assert(self@[i as int].key == key@);
                return Err(SolutionError::DuplicateMutation);
            }
            i += 1;
        }
        assert(forall|j: int| 0 <= j < self@.len() ==> self@[j].key != key@);
        let ghost prior = self@;
        self.muts.push(Mutation { key, value });
        assert(self@ =~= prior.push(MutationModel { key: key@, value: value@ }));
        assert forall|a: int, b: int| 0 <= a < b < self@.len() implies self@[a].key
            != self@[b].key by {
            if b < prior.len() {
                assert(prior[a].key != prior[b].key);
            }
        }
        Ok(())
    }

    /// Hands the accumulated write-set over for proposal assembly.
    pub fn into_mutations(self) -> (r: Vec<Mutation>)
        ensures
            models(r@) == self@,
    {
        self.muts
    }
}

/// Whether two ledger keys address the same cell: word-for-word equality.
fn keys_eq(a: &Key, b: &Key) -> (r: bool)
    ensures
        r <==> a@ == b@,
{
    if a.len() != b.len() {
        return false;
    }
    let mut i: usize = 0;
    while i < a.len()
        invariant
            i <= a.len(),
            a.len() == b.len(),
            forall|j: int| 0 <= j < i ==> a@[j] == b@[j],
        decreases a.len() - i,
    {
        if a[i] != b[i] {
            return false;
        }
        i += 1;
    }
    assert(a@ =~= b@);
    true
}

/// A single-word cell value.
pub fn word_value(w: Word) -> (r: Value)
    ensures
        r@ == seq![w],
{
    let mut v: Vec<Word> = Vec::new();
    v.push(w);
    assert(v@ =~= seq![w]);
    v
}

/// A four-word account-identity cell value.
pub fn identity_value(id: [Word; 4]) -> (r: Value)
    ensures
        r@ == id@,
{
    let mut v: Vec<Word> = Vec::new();
    v.push(id[0]);
    v.push(id[1]);
    v.push(id[2]);
    v.push(id[3]);
    assert(v@ =~= id@);
    v
}

/// The model of one public parameter: the `index`-th declared parameter of
/// an operation sits under the single-word key `[index]`.
pub open spec fn pub_var_model(index: Word, value: Seq<Word>) -> MutationModel {
    MutationModel { key: seq![index], value: value }
}

/// A single-word public parameter (an amount, an item identifier).
pub fn pub_var_word(index: Word, w: Word) -> (r: Mutation)
    ensures
        r@ == pub_var_model(index, seq![w]),
{
    let r = Mutation { key: word_value(index), value: word_value(w) };
    r
}

/// A four-word account-identity public parameter.
pub fn pub_var_identity(index: Word, id: [Word; 4]) -> (r: Mutation)
    ensures
        r@ == pub_var_model(index, id@),
{
    Mutation { key: word_value(index), value: identity_value(id) }
}

/// Proposal assembly: packs the predicate address, the public parameters and
/// the accumulated write-set into the uniform single-transition proposal.
pub fn assemble(predicate_address: PredicateAddress, pub_vars: Vec<Mutation>, mutations: MutationSet) -> (r:
    Solution)
    ensures
        r.data@.len() == 1,
        r.data@[0].predicate_to_solve == predicate_address,
        r.data@[0].decision_variables@.len() == 0,
        r.data@[0].transient_data == pub_vars,
        models(r.data@[0].state_mutations@) == mutations@,
{
    let state_mutations = mutations.into_mutations();
    let data = SolutionData {
        predicate_to_solve: predicate_address,
        decision_variables: Vec::new(),
        transient_data: pub_vars,
        state_mutations,
    };
    let mut v: Vec<SolutionData> = Vec::new();
    v.push(data);
    Solution { data: v }
}

} // verus!
