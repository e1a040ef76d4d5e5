//! Searching the voter ledger and scanning the proposals.

use crate::invariants::{lemma_no_id_above_max, lemma_votes_for_prefix};
use crate::model::{
    ids_with_count, max_count_below, one_line_each, registered, votes_for, winners, ID_SPACE,
};
use crate::types::{AccountAddress, Proposal, ProposalId, ProposalView, VoteCount, VoterState};
use vstd::prelude::*;

verus! {

/// The proposals of a list as the contracts see them.
pub open spec fn proposal_views(proposals: Seq<Proposal>) -> Seq<ProposalView> {
    Seq::new(proposals.len(), |i: int| proposals[i]@)
}

/// The first line of the ledger that belongs to `who`.
pub fn find_voter(
    voters: &Vec<(AccountAddress, VoterState)>,
    who: &AccountAddress,
) -> (found: Option<usize>)
    ensures
        match found {
            Some(at) => {
                &&& at < voters.len()
                &&& voters[at as int].0 == *who
                &&& forall|j: int| 0 <= j < at ==> (#[trigger] voters[j]).0 != *who
            },
            None => !registered(voters@, *who),
        },
{
    let mut at: usize = 0;
    while at < voters.len()
        invariant
            at <= voters.len(),
            forall|j: int| 0 <= j < at ==> (#[trigger] voters[j]).0 != *who,
        decreases voters.len() - at,
    {
        if voters[at].0 == *who {
            return Some(at);
        }
        at += 1;
    }
    None
}

/// Whether no account has two lines in the ledger.
pub fn lines_are_distinct(voters: &Vec<(AccountAddress, VoterState)>) -> (distinct: bool)
    ensures
        distinct == one_line_each(voters@),
{
    let mut next: usize = 0;
    while next < voters.len()
        invariant
            next <= voters.len(),
            forall|i: int, j: int|
                0 <= i < j < next ==> (#[trigger] voters[i]).0 != (#[trigger] voters[j]).0,
        decreases voters.len() - next,
    {
        match find_voter(voters, &voters[next].0) {
            Some(first) => {
                if first != next {
                    return false;
                }
            },
            None => {
                return false;
            },
        }
        next += 1;
    }
    true
}

/// Whether every vote that stands in the ledger names one of the first
/// `proposals` identifiers.
pub fn votes_are_in_range(
    voters: &Vec<(AccountAddress, VoterState)>,
    proposals: usize,
) -> (in_range: bool)
    ensures
        in_range == (forall|i: int|
            0 <= i < voters.len() && (#[trigger] voters[i]).1.voted ==> voters[i].1.vote
                < proposals),
{
    let mut next: usize = 0;
    while next < voters.len()
        invariant
            next <= voters.len(),
            forall|i: int|
                0 <= i < next && (#[trigger] voters[i]).1.voted ==> voters[i].1.vote < proposals,
        decreases voters.len() - next,
    {
        if voters[next].1.voted && voters[next].1.vote as usize >= proposals {
            return false;
        }
        next += 1;
    }
    true
}

/// Whether the weights of the records that hold a vote for `id` add up to
/// `expected`.
pub fn counts_to(
    voters: &Vec<(AccountAddress, VoterState)>,
    id: ProposalId,
    expected: VoteCount,
) -> (exact: bool)
    ensures
        exact == (votes_for(voters@, id as int) == expected),
{
    let mut sum: u64 = 0;
    let mut next: usize = 0;
    while next < voters.len()
        invariant
            next <= voters.len(),
            sum == votes_for(voters@.take(next as int), id as int),
            sum <= expected,
        decreases voters.len() - next,
    {
        let record: VoterState = voters[next].1;
        proof {
            assert(voters@.take(next + 1).drop_last() =~= voters@.take(next as int));
        }
        if record.voted && record.vote == id {
            sum = sum + record.weight as u64;
        }
        if sum > expected as u64 {
            proof {
                lemma_votes_for_prefix(voters@, next + 1, id as int);
            }
            return false;
        }
        next += 1;
    }
    proof {
        assert(voters@.take(next as int) =~= voters@);
    }
    sum == expected as u64
}

/// Whether two lists of identifiers are the same.
pub fn same_ids(left: &Vec<ProposalId>, right: &Vec<ProposalId>) -> (same: bool)
    ensures
        same == (left@ == right@),
{
    if left.len() != right.len() {
        return false;
    }
    let mut next: usize = 0;
    while next < left.len()
        invariant
            next <= left.len() == right.len(),
            forall|i: int| 0 <= i < next ==> left[i] == right[i],
        decreases left.len() - next,
    {
        if left[next] != right[next] {
            return false;
        }
        next += 1;
    }
    assert(left@ =~= right@);
    true
}

/// The identifiers of the proposals that share the largest count, in rising
/// order.
///
/// One pass over the proposals keeps the largest count met so far and the
/// identifiers that reach it: a larger count starts the list afresh, an equal
/// one joins it.
pub fn winning_ids(proposals: &Vec<Proposal>) -> (winning: Vec<ProposalId>)
    requires
        proposals.len() <= ID_SPACE,
    ensures
        winning@ == winners(proposal_views(proposals@)),
{
    let ghost views = proposal_views(proposals@);
    let mut winning_vote_count: VoteCount = 0;
    let mut winning: Vec<ProposalId> = Vec::new();
    let mut next: usize = 0;
    while next < proposals.len()
        invariant
            next <= proposals.len() <= ID_SPACE,
            views == proposal_views(proposals@),
            winning_vote_count == max_count_below(views, next as int),
            winning@ == ids_with_count(views, winning_vote_count as nat, next as int),
        decreases proposals.len() - next,
    {
        let vote_count: VoteCount = proposals[next].vote_count;
        if winning_vote_count < vote_count {
            proof {
                lemma_no_id_above_max(views, vote_count as nat, next as int);
            }
            winning_vote_count = vote_count;
            winning.clear();
            winning.push(next as ProposalId);
        } else if winning_vote_count == vote_count {
            winning.push(next as ProposalId);
        }
        next += 1;
    }
    winning
}

} // verus!
