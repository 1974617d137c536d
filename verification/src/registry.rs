//! The option registry: the ordered selectable options, their positional ids,
//! and their vote counts.

use vstd::prelude::*;

use crate::MAX_OPTIONS;

verus! {

/// One selectable option: a label, a stable id assigned positionally at
/// creation, and the votes accumulated so far.
#[derive(Clone, Debug)]
pub struct PollOption {
    pub label: String,
    pub id: u8,
    pub votes: u32,
}

/// Ids are exactly `1..=len`, in order: pairwise distinct and contiguous.
pub open spec fn ids_sequential(options: Seq<PollOption>) -> bool {
    forall|i: int| 0 <= i < options.len() ==> (#[trigger] options[i]).id == i + 1
}

/// Whether some option carries the id `vote_id`.
pub open spec fn has_option(options: Seq<PollOption>, vote_id: u8) -> bool {
    exists|i: int| 0 <= i < options.len() && (#[trigger] options[i]).id == vote_id
}

/// The total of all vote counts in the registry.
pub open spec fn sum_votes(options: Seq<PollOption>) -> int
    decreases options.len(),
{
    if options.len() == 0 {
        0
    } else {
        sum_votes(options.drop_last()) + options.last().votes
    }
}

/// Vote counts are unsigned, so their total is never negative.
pub proof fn lemma_sum_votes_nonneg(options: Seq<PollOption>)
    ensures
        sum_votes(options) >= 0,
    decreases options.len(),
{
    if options.len() > 0 {
        lemma_sum_votes_nonneg(options.drop_last());
    }
}

/// A registry whose counts are all zero totals zero.
pub proof fn lemma_sum_votes_zero(options: Seq<PollOption>)
    requires
        forall|i: int| 0 <= i < options.len() ==> (#[trigger] options[i]).votes == 0,
    ensures
        sum_votes(options) == 0,
    decreases options.len(),
{
    if options.len() > 0 {
        assert forall|i: int| 0 <= i < options.drop_last().len() implies (#[trigger] options
            .drop_last()[i]).votes == 0 by {
            assert(options.drop_last()[i] == options[i]);
        }
        lemma_sum_votes_zero(options.drop_last());
    }
}

/// No single count exceeds the total.
pub proof fn lemma_sum_votes_bound(options: Seq<PollOption>, k: int)
    requires
        0 <= k < options.len(),
    ensures
        options[k].votes <= sum_votes(options),
    decreases options.len(),
{
    lemma_sum_votes_nonneg(options.drop_last());
    if k < options.len() - 1 {
        lemma_sum_votes_bound(options.drop_last(), k);
        assert(options.drop_last()[k] == options[k]);
    }
}

/// Replacing one option changes the total by the difference in its count.
pub proof fn lemma_sum_votes_update(options: Seq<PollOption>, k: int, x: PollOption)
    requires
        0 <= k < options.len(),
    ensures
        sum_votes(options.update(k, x)) == sum_votes(options) - options[k].votes + x.votes,
    decreases options.len(),
{
    let u = options.update(k, x);
    if k == options.len() - 1 {
        assert(u.drop_last() =~= options.drop_last());
    } else {
        assert(u.drop_last() =~= options.drop_last().update(k, x));
        lemma_sum_votes_update(options.drop_last(), k, x);
    }
}

/// Builds the registry for `labels`: one option per label in input order,
/// ids `1..=len`, every count zero. The caller keeps the label count within
/// the record's capacity.
pub fn build(labels: Vec<String>) -> (r: Vec<PollOption>)
    requires
        labels@.len() <= MAX_OPTIONS,
    ensures
        r@.len() == labels@.len(),
        forall|i: int|
            0 <= i < r@.len() ==> {
                &&& (#[trigger] r@[i]).label == labels@[i]
                &&& r@[i].id == i + 1
                &&& r@[i].votes == 0
            },
        ids_sequential(r@),
        sum_votes(r@) == 0,
{
    let mut r: Vec<PollOption> = Vec::new();
    let mut c: u8 = 0;
    let mut i: usize = 0;
    while i < labels.len()
        invariant
            i <= labels@.len(),
            labels@.len() <= MAX_OPTIONS,
            c == i,
            r@.len() == i,
            forall|j: int|
                0 <= j < i ==> {
                    &&& (#[trigger] r@[j]).label == labels@[j]
                    &&& r@[j].id == j + 1
                    &&& r@[j].votes == 0
                },
        decreases labels@.len() - i,
    {
        c = c + 1;
        r.push(PollOption { label: labels[i].clone(), id: c, votes: 0 });
        i = i + 1;
    }
    proof {
        lemma_sum_votes_zero(r@);
    }
    r
}

/// Finds the position of the option carrying `vote_id`, or reports that none
/// does. Under the registry invariant at most one option can ever match, so
/// the first match is the only one.
pub fn find(options: &Vec<PollOption>, vote_id: u8) -> (r: Option<usize>)
    ensures
        match r {
            Some(k) => k < options@.len() && options@[k as int].id == vote_id,
            None => !has_option(options@, vote_id),
        },
{
    let mut i: usize = 0;
    while i < options.len()
        invariant
            i <= options@.len(),
            forall|j: int| 0 <= j < i ==> (#[trigger] options@[j]).id != vote_id,
        decreases options@.len() - i,
    {
        if options[i].id == vote_id {
            return Some(i);
        }
        i = i + 1;
    }
    None
}

/// Advances the matching option's count by one, leaving every other option
/// untouched. The controller has already established that the id exists and
/// that the total leaves the count room to grow.
pub fn increment(options: &mut Vec<PollOption>, vote_id: u8)
    requires
        ids_sequential(old(options)@),
        has_option(old(options)@, vote_id),
        sum_votes(old(options)@) < u32::MAX,
    ensures
        final(options)@.len() == old(options)@.len(),
        forall|i: int|
            0 <= i < old(options)@.len() && (#[trigger] old(options)@[i]).id != vote_id
                ==> final(options)@[i] == old(options)@[i],
        forall|i: int|
            0 <= i < old(options)@.len() && (#[trigger] old(options)@[i]).id == vote_id
                ==> {
                    &&& final(options)@[i].label == old(options)@[i].label
                    &&& final(options)@[i].id == old(options)@[i].id
                    &&& final(options)@[i].votes == old(options)@[i].votes + 1
                },
        ids_sequential(final(options)@),
        sum_votes(final(options)@) == sum_votes(old(options)@) + 1,
{
    let found = find(options, vote_id);
    match found {
        None => {
            proof {
                assert(false);
            }
        },
        Some(k) => {
            proof {
                lemma_sum_votes_bound(old(options)@, k as int);
                lemma_sum_votes_update(
                    old(options)@,
                    k as int,
                    PollOption {
                        label: old(options)@[k as int].label,
                        id: old(options)@[k as int].id,
                        votes: (old(options)@[k as int].votes + 1) as u32,
                    },
                );
            }
            let votes: u32 = options[k].votes;
            options[k].votes = votes + 1;
            proof {
                assert forall|i: int|
                    0 <= i < old(options)@.len() && (#[trigger] old(options)@[i]).id == vote_id
                        implies i == k as int by {
                    assert(old(options)@[i].id == i + 1);
                    assert(old(options)@[k as int].id == k + 1);
                }
            }
        },
    }
}

} // verus!
