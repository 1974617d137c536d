//! The poll record and its state controller: the two transitions that create
//! the poll and cast a vote, each one an atomic validate-then-commit unit.

use vstd::prelude::*;

use crate::MAX_OPTIONS;
use crate::MAX_VOTERS;
use crate::ledger;
use crate::ledger::VoterId;
use crate::ledger::contains_voter;
use crate::ledger::voters_distinct;
use crate::registry;
use crate::registry::PollOption;
use crate::registry::has_option;
use crate::registry::ids_sequential;
use crate::registry::sum_votes;

verus! {

/// The named failures of the two transitions. Each is a checked precondition,
/// reported before any mutation; none is ever swallowed.
#[derive(Clone, Copy, Debug, PartialEq, Eq, Structural)]
pub enum StarSollError {
    /// The poll's `finished` flag is set, so no transition may touch it.
    PollAlreadyFinished,
    /// `vote` named an id that no option carries.
    PollOptionNotFound,
    /// `vote` came from an identity already in the ledger.
    UserAlreadyVoted,
}

/// One poll record, as the execution host persists it: the option registry,
/// the voter ledger, and the `finished` flag. The flag is never set by any
/// transition here; a finished poll can only arise by external construction,
/// and both transitions then refuse to touch it.
pub struct Poll {
    pub options: Vec<PollOption>,
    pub voters: Vec<VoterId>,
    pub finished: bool,
}

impl Poll {
    /// The record's invariant, established by `init` and preserved by `vote`:
    /// both collections stay within the storage allocation, option ids are
    /// exactly `1..=len` in order, no identity is recorded twice, and the
    /// vote counts total exactly the number of recorded voters.
    pub open spec fn well_formed(&self) -> bool {
        &&& self.options@.len() <= MAX_OPTIONS
        &&& self.voters@.len() <= MAX_VOTERS
        &&& ids_sequential(self.options@)
        &&& voters_distinct(self.voters@)
        &&& sum_votes(self.options@) == self.voters@.len()
    }

    /// All three preconditions of `vote` hold: the poll is open, the id names
    /// an option, and the identity has not voted yet.
    pub open spec fn vote_allowed(&self, vote_id: u8, voter_key: VoterId) -> bool {
        &&& !self.finished
        &&& has_option(self.options@, vote_id)
        &&& !contains_voter(self.voters@, voter_key)
    }

    /// The error a rejected `vote` reports: the first failing precondition in
    /// evaluation order.
    pub open spec fn vote_rejection(&self, vote_id: u8, voter_key: VoterId) -> StarSollError {
        if self.finished {
            StarSollError::PollAlreadyFinished
        } else if !has_option(self.options@, vote_id) {
            StarSollError::PollOptionNotFound
        } else {
            StarSollError::UserAlreadyVoted
        }
    }

    /// Creates the poll's contents: one option per label with ids `1..=len`
    /// assigned in input order and every count zero, an empty voter ledger,
    /// and the poll open. Refused, with the record untouched, only when the
    /// record is already finished. The caller keeps the label count within
    /// the record's storage capacity.
    pub fn init(&mut self, options: Vec<String>) -> (r: Result<(), StarSollError>)
        requires
            options@.len() <= MAX_OPTIONS,
        ensures
            old(self).finished ==> {
                &&& r == Err::<(), StarSollError>(StarSollError::PollAlreadyFinished)
                &&& *final(self) == *old(self)
            },
            !old(self).finished ==> {
                &&& r == Ok::<(), StarSollError>(())
                &&& final(self).options@.len() == options@.len()
                &&& (forall|i: int|
                    0 <= i < options@.len() ==> {
                        &&& (#[trigger] final(self).options@[i]).label == options@[i]
                        &&& final(self).options@[i].id == i + 1
                        &&& final(self).options@[i].votes == 0
                    })
                &&& final(self).voters@ == Seq::<VoterId>::empty()
                &&& !final(self).finished
                &&& final(self).well_formed()
            },
    {
        if self.finished {
            return Err(StarSollError::PollAlreadyFinished);
        }
        self.options = registry::build(options);
        self.voters = Vec::new();
        self.finished = false;
        Ok(())
    }

    /// Decides the record's invariant at run time, for a caller that received
    /// the record from outside — say, decoded from the host's storage — and
    /// must establish `well_formed` before transitioning it.
    pub fn check_well_formed(&self) -> (r: bool)
        ensures
            r == self.well_formed(),
    {
        if self.options.len() > MAX_OPTIONS {
            return false;
        }
        if self.voters.len() > MAX_VOTERS {
            return false;
        }
        let mut i: usize = 0;
        while i < self.options.len()
            invariant
                i <= self.options@.len(),
                self.options@.len() <= MAX_OPTIONS,
                forall|j: int| 0 <= j < i ==> (#[trigger] self.options@[j]).id == j + 1,
            decreases self.options@.len() - i,
        {
            if self.options[i].id != (i + 1) as u8 {
                return false;
            }
            i = i + 1;
        }
        let mut a: usize = 0;
        while a < self.voters.len()
            invariant
                a <= self.voters@.len(),
                forall|i: int, j: int|
                    0 <= i < j < self.voters@.len() && i < a ==> (#[trigger] self.voters@[i]).bytes@
                        != (#[trigger] self.voters@[j]).bytes@,
            decreases self.voters@.len() - a,
        {
            let mut b: usize = a + 1;
            while b < self.voters.len()
                invariant
                    a < b <= self.voters@.len(),
                    forall|j: int|
                        a < j < b ==> (#[trigger] self.voters@[j]).bytes@ != self.voters@[
                            a as int].bytes@,
                decreases self.voters@.len() - b,
            {
                if ledger::voter_eq(&self.voters[a], &self.voters[b]) {
                    return false;
                }
                b = b + 1;
            }
            a = a + 1;
        }
        let mut total: u64 = 0;
        let mut k: usize = 0;
        while k < self.options.len()
            invariant
                k <= self.options@.len(),
                self.options@.len() <= MAX_OPTIONS,
                total == sum_votes(self.options@.take(k as int)),
                total <= k * 0xffff_ffffu64,
            decreases self.options@.len() - k,
        {
            proof {
                assert(self.options@.take(k + 1).drop_last() =~= self.options@.take(k as int));
                assert(self.options@.take(k + 1).last() == self.options@[k as int]);
            }
            total = total + self.options[k].votes as u64;
            k = k + 1;
        }
        proof {
            assert(self.options@.take(self.options@.len() as int) =~= self.options@);
        }
        total == self.voters.len() as u64
    }

    /// Casts one vote: records the identity in the ledger and advances the
    /// chosen option's count by one, together as one atomic unit. Rejected,
    /// with the record untouched, when the poll is finished, when no option
    /// carries `vote_id`, or when the identity has already voted — in that
    /// order of evaluation, each with its own error. The host's fixed
    /// allocation keeps the ledger below capacity before the call.
    pub fn vote(&mut self, vote_id: u8, voter_key: VoterId) -> (r: Result<(), StarSollError>)
        requires
            old(self).well_formed(),
            old(self).voters@.len() < MAX_VOTERS,
        ensures
            final(self).well_formed(),
            !old(self).vote_allowed(vote_id, voter_key) ==> {
                &&& r == Err::<(), StarSollError>(old(self).vote_rejection(vote_id, voter_key))
                &&& *final(self) == *old(self)
            },
            old(self).vote_allowed(vote_id, voter_key) ==> {
                &&& r == Ok::<(), StarSollError>(())
                &&& final(self).voters@ == old(self).voters@.push(voter_key)
                &&& final(self).options@.len() == old(self).options@.len()
                &&& (forall|i: int|
                    0 <= i < old(self).options@.len() && (#[trigger] old(self).options@[i]).id
                        != vote_id ==> final(self).options@[i] == old(self).options@[i])
                &&& (forall|i: int|
                    0 <= i < old(self).options@.len() && (#[trigger] old(self).options@[i]).id
                        == vote_id ==> {
                        &&& final(self).options@[i].label == old(self).options@[i].label
                        &&& final(self).options@[i].id == old(self).options@[i].id
                        &&& final(self).options@[i].votes == old(self).options@[i].votes + 1
                    })
                &&& final(self).finished == old(self).finished
                &&& sum_votes(final(self).options@) == sum_votes(old(self).options@) + 1
            },
    {
        if self.finished {
            return Err(StarSollError::PollAlreadyFinished);
        }
        match registry::find(&self.options, vote_id) {
            None => Err(StarSollError::PollOptionNotFound),
            Some(k) => {
                proof {
                    assert(self.options@[k as int].id == vote_id);
                }
                if ledger::contains(&self.voters, &voter_key) {
                    return Err(StarSollError::UserAlreadyVoted);
                }
                ledger::insert(&mut self.voters, voter_key);
                registry::increment(&mut self.options, vote_id);
                Ok(())
            },
        }
    }
}

/// Ballot conservation: in every well-formed poll — as `init` creates it and
/// `vote` preserves it — the vote counts total exactly the number of recorded
/// voters. Since a successful `vote` appends exactly one voter and raises the
/// total by exactly one, while a rejected call leaves the record unchanged,
/// the total always equals the number of successful `vote` calls since `init`.
pub proof fn lemma_ballot_conservation(p: Poll)
    requires
        p.well_formed(),
    ensures
        sum_votes(p.options@) == p.voters@.len(),
{
}

/// One vote per identity across the poll's whole lifetime, not per option:
/// once a successful `vote` has recorded `voter_key` — leaving the ledger as
/// `before.voters` plus that identity — any further `vote` by the same
/// identity on the still-open poll is rejected as `UserAlreadyVoted`,
/// whichever existing option id it names; `vote`'s contract then leaves the
/// record unchanged.
pub proof fn lemma_revote_rejected(before: Poll, after: Poll, vote_id: u8, voter_key: VoterId)
    requires
        after.voters@ == before.voters@.push(voter_key),
        !after.finished,
        has_option(after.options@, vote_id),
    ensures
        !after.vote_allowed(vote_id, voter_key),
        after.vote_rejection(vote_id, voter_key) == StarSollError::UserAlreadyVoted,
{
    assert(after.voters@[after.voters@.len() - 1].bytes@ == voter_key.bytes@);
}

} // verus!
