//! The voter ledger: the identities that have already cast a vote, kept to
//! enforce one vote per identity. Insertion order is preserved for audit,
//! but only membership matters for correctness.

use vstd::prelude::*;

use crate::MAX_VOTERS;

verus! {

broadcast use vstd::array::group_array_axioms;

/// A fixed-length 32-byte identity value, as the execution host hands it in
/// (a public-key-shaped identifier). The core trusts it as already
/// authenticated.
#[derive(Clone, Copy, Debug, PartialEq, Eq)]
pub struct VoterId {
    pub bytes: [u8; 32],
}

/// Whether the identity `v` is already recorded in `voters`, comparing
/// identities byte for byte.
pub open spec fn contains_voter(voters: Seq<VoterId>, v: VoterId) -> bool {
    exists|i: int| 0 <= i < voters.len() && (#[trigger] voters[i]).bytes@ == v.bytes@
}

/// No identity appears twice in the ledger.
pub open spec fn voters_distinct(voters: Seq<VoterId>) -> bool {
    forall|i: int, j: int|
        0 <= i < j < voters.len() ==> (#[trigger] voters[i]).bytes@ != (#[trigger] voters[j]).bytes@
}

/// Byte-for-byte comparison of two identities.
pub fn voter_eq(a: &VoterId, b: &VoterId) -> (r: bool)
    ensures
        r == (a.bytes@ == b.bytes@),
{
    let mut i: usize = 0;
    while i < 32
        invariant
            i <= 32,
            forall|j: int| 0 <= j < i ==> a.bytes@[j] == b.bytes@[j],
        decreases 32 - i,
    {
        if a.bytes[i] != b.bytes[i] {
            return false;
        }
        i = i + 1;
    }
    proof {
        assert(a.bytes@ =~= b.bytes@);
    }
    true
}

/// Membership check: a linear scan over the bounded ledger.
pub fn contains(voters: &Vec<VoterId>, v: &VoterId) -> (r: bool)
    ensures
        r == contains_voter(voters@, *v),
{
    let mut i: usize = 0;
    while i < voters.len()
        invariant
            i <= voters@.len(),
            forall|j: int| 0 <= j < i ==> (#[trigger] voters@[j]).bytes@ != v.bytes@,
        decreases voters@.len() - i,
    {
        if voter_eq(&voters[i], v) {
            return true;
        }
        i = i + 1;
    }
    false
}

/// Appends an identity. The controller guarantees beforehand that the ledger
/// has room and that the identity is not already present; this operation
/// itself checks nothing.
pub fn insert(voters: &mut Vec<VoterId>, v: VoterId)
    requires
        old(voters)@.len() < MAX_VOTERS,
        !contains_voter(old(voters)@, v),
        voters_distinct(old(voters)@),
    ensures
        final(voters)@ == old(voters)@.push(v),
        voters_distinct(final(voters)@),
        contains_voter(final(voters)@, v),
{
    voters.push(v);
    proof {
        let s = voters@;
        assert(s[s.len() - 1].bytes@ == v.bytes@);
        assert forall|i: int, j: int| 0 <= i < j < s.len() implies s[i].bytes@ != s[j].bytes@ by {
            if j == s.len() - 1 {
                assert(s[i] == old(voters)@[i]);
            }
        }
    }
}

} // verus!
