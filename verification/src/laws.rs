//! What holds of every agenda, whatever is done with it.
//!
//! The laws speak of a [`Poll`] and of the calls made on it. The executable
//! operations promise to follow `after_vote`, `after_cancel` and
//! `after_tally`, so each law holds of the ledger as well.

use crate::invariants::{
    lemma_cast_wf, lemma_created_wf, lemma_ids_with_count, lemma_latest_place, lemma_line_of,
    lemma_max_count_bounds, lemma_record_after_cast, lemma_standing_vote_is_counted,
    lemma_tallied_wf, lemma_votes_for_push, lemma_with_record_one_line_each, lemma_withdrawn_wf,
    lemma_without_vote_of,
};
use crate::model::{latest_place, line_of, max_count, votes_for, winners, Poll, ID_SPACE};
use crate::types::{
    AccountAddress, Address, ContractAddress, ContractError, ProposalId, ProposalView, Status,
    Timestamp, VoterState,
};
use vstd::prelude::*;

verus! {

/// One call on an agenda.
pub enum Call {
    Vote { sender: Address, id: ProposalId, now: Timestamp },
    Cancel { sender: Address, now: Timestamp },
    Tally,
}

impl Poll {
    /// The agenda after one call, taken or refused.
    pub open spec fn after(self, call: Call) -> Poll {
        match call {
            Call::Vote { sender, id, now } => self.after_vote(sender, id, now),
            Call::Cancel { sender, now } => self.after_cancel(sender, now),
            Call::Tally => self.after_tally(),
        }
    }

    /// The agenda after a series of calls, the first of them first.
    pub open spec fn after_all(self, calls: Seq<Call>) -> Poll
        decreases calls.len(),
    {
        if calls.len() == 0 {
            self
        } else {
            self.after_all(calls.drop_last()).after(calls.last())
        }
    }
}

/// The sum of the weights of all records that hold a vote.
pub open spec fn standing_weight(voters: Seq<(AccountAddress, VoterState)>) -> nat
    decreases voters.len(),
{
    if voters.len() == 0 {
        0
    } else {
        standing_weight(voters.drop_last()) + if voters.last().1.voted {
            voters.last().1.weight as nat
        } else {
            0
        }
    }
}

/// The sum of the counts of the proposals with an identifier below `upto`.
pub open spec fn total_count_below(proposals: Seq<ProposalView>, upto: int) -> nat
    decreases upto,
{
    if upto <= 0 {
        0
    } else {
        total_count_below(proposals, upto - 1) + proposals[upto - 1].vote_count
    }
}

/// A fresh agenda holds no vote and no winner and is in process. Its
/// proposals are as many as there are names, up to the number of
/// identifiers. With no more names than identifiers each proposal has the
/// name at the place of its identifier; with more, the name at the last
/// place that is its identifier modulo the number of identifiers.
pub proof fn law_fresh_agenda(
    title: Seq<char>,
    description: Seq<char>,
    names: Seq<Seq<char>>,
    expiry: Timestamp,
)
    ensures
        ({
            let fresh = Poll::created(title, description, names, expiry);
            &&& fresh.voters.len() == 0
            &&& fresh.winning.len() == 0
            &&& fresh.status == Status::InProcess
            &&& fresh.title == title && fresh.description == description && fresh.expiry == expiry
            &&& fresh.proposals.len() == if names.len() <= ID_SPACE {
                names.len()
            } else {
                ID_SPACE as nat
            }
            &&& forall|id: int|
                0 <= id < fresh.proposals.len() ==> {
                    &&& (#[trigger] fresh.proposals[id]).vote_count == 0
                    &&& fresh.proposals[id].name == names[latest_place(names.len(), id)]
                    &&& names.len() <= ID_SPACE ==> fresh.proposals[id].name == names[id]
                    &&& 0 <= latest_place(names.len(), id) < names.len()
                    &&& latest_place(names.len(), id) % (ID_SPACE as int) == id
                    &&& latest_place(names.len(), id) + ID_SPACE >= names.len()
                }
        }),
{
    let fresh = Poll::created(title, description, names, expiry);
    assert forall|id: int| 0 <= id < fresh.proposals.len() implies {
        &&& (#[trigger] fresh.proposals[id]).vote_count == 0
        &&& fresh.proposals[id].name == names[latest_place(names.len(), id)]
        &&& names.len() <= ID_SPACE ==> fresh.proposals[id].name == names[id]
        &&& 0 <= latest_place(names.len(), id) < names.len()
        &&& latest_place(names.len(), id) % (ID_SPACE as int) == id
        &&& latest_place(names.len(), id) + ID_SPACE >= names.len()
    } by {
        lemma_latest_place(names.len(), id);
    }
}

/// One call keeps a well-formed agenda well formed.
pub proof fn law_call_keeps_wf(poll: Poll, call: Call)
    requires
        poll.wf(),
    ensures
        poll.after(call).wf(),
{
    match call {
        Call::Vote { sender, id, now } => {
            if let Address::Account(who) = sender {
                if poll.vote_outcome(sender, id, now) is Ok {
                    lemma_cast_wf(poll, who, id);
                }
            }
        },
        Call::Cancel { sender, now } => {
            if let Address::Account(who) = sender {
                if poll.cancel_outcome(sender, now) is Ok {
                    lemma_withdrawn_wf(poll, who);
                }
            }
        },
        Call::Tally => {
            if poll.tally_outcome() is Ok {
                lemma_tallied_wf(poll);
            }
        },
    }
}

/// What no call changes: the number of proposals and their names, the title,
/// the description and the expiry. And what no call takes away: an account
/// that has a line in the ledger keeps one.
pub proof fn law_agenda_is_fixed(poll: Poll, call: Call)
    requires
        poll.wf(),
    ensures
        poll.after(call).proposals.len() == poll.proposals.len(),
        forall|id: int|
            0 <= id < poll.proposals.len() ==> (#[trigger] poll.after(call).proposals[id]).name
                == poll.proposals[id].name,
        poll.after(call).title == poll.title,
        poll.after(call).description == poll.description,
        poll.after(call).expiry == poll.expiry,
        poll.after(call).voters.len() >= poll.voters.len(),
        forall|i: int|
            0 <= i < poll.voters.len() ==> (#[trigger] poll.after(call).voters[i]).0
                == poll.voters[i].0,
{
    match call {
        Call::Vote { sender, id, now } => {
            if let Address::Account(who) = sender {
                lemma_without_vote_of(poll, who);
            }
        },
        Call::Cancel { sender, now } => {
            if let Address::Account(who) = sender {
                lemma_without_vote_of(poll, who);
            }
        },
        Call::Tally => {},
    }
}

/// Votes are conserved. In every agenda that calls can make of a fresh one,
/// each count is the sum of the weights of the records that hold a vote for
/// that proposal.
pub proof fn law_conservation(
    title: Seq<char>,
    description: Seq<char>,
    names: Seq<Seq<char>>,
    expiry: Timestamp,
    calls: Seq<Call>,
)
    ensures
        Poll::created(title, description, names, expiry).after_all(calls).wf(),
        Poll::created(title, description, names, expiry).after_all(calls).conserved(),
    decreases calls.len(),
{
    let fresh = Poll::created(title, description, names, expiry);
    if calls.len() == 0 {
        lemma_created_wf(title, description, names, expiry);
    } else {
        law_conservation(title, description, names, expiry, calls.drop_last());
        law_call_keeps_wf(fresh.after_all(calls.drop_last()), calls.last());
    }
}

/// Every record weighs one, and a record without a vote names proposal zero.
pub open spec fn plain_records(voters: Seq<(AccountAddress, VoterState)>) -> bool {
    forall|i: int|
        0 <= i < voters.len() ==> (#[trigger] voters[i]).1.weight == 1 && (voters[i].1.voted
            || voters[i].1.vote == 0)
}

/// One call keeps every record at weight one.
proof fn lemma_call_keeps_plain_records(poll: Poll, call: Call)
    requires
        plain_records(poll.voters),
    ensures
        plain_records(poll.after(call).voters),
{
    let after = poll.after(call).voters;
    assert forall|i: int| 0 <= i < after.len() implies
        (#[trigger] after[i]).1.weight == 1 && (after[i].1.voted || after[i].1.vote == 0) by {
        if i < poll.voters.len() && after[i] != poll.voters[i] {
            assert(poll.voters[line_of(poll.voters, after[i].0)].1.weight == 1);
        }
    }
}

/// Every account has the same voting power. In every agenda that calls can
/// make of a fresh one, each record weighs one, so that a count is the number
/// of accounts that stand behind the proposal.
pub proof fn law_one_vote_each(
    title: Seq<char>,
    description: Seq<char>,
    names: Seq<Seq<char>>,
    expiry: Timestamp,
    calls: Seq<Call>,
)
    ensures
        plain_records(Poll::created(title, description, names, expiry).after_all(calls).voters),
    decreases calls.len(),
{
    let fresh = Poll::created(title, description, names, expiry);
    if calls.len() > 0 {
        law_one_vote_each(title, description, names, expiry, calls.drop_last());
        lemma_call_keeps_plain_records(fresh.after_all(calls.drop_last()), calls.last());
    }
}

/// An account stands behind one proposal at most: of two proposals, its
/// weight is part of the count of one only.
pub proof fn law_single_active_vote(
    poll: Poll,
    who: AccountAddress,
    a: ProposalId,
    b: ProposalId,
)
    requires
        a != b,
    ensures
        poll.record_of(who).share(a as int) == 0 || poll.record_of(who).share(b as int) == 0,
{
}

/// The sum over the proposals below `upto` of the votes that `voters` give
/// them.
pub open spec fn votes_below(voters: Seq<(AccountAddress, VoterState)>, upto: int) -> nat
    decreases upto,
{
    if upto <= 0 {
        0
    } else {
        votes_below(voters, upto - 1) + votes_for(voters, upto - 1)
    }
}

proof fn lemma_votes_below_push(
    voters: Seq<(AccountAddress, VoterState)>,
    line: (AccountAddress, VoterState),
    upto: int,
)
    requires
        0 <= upto,
    ensures
        votes_below(voters.push(line), upto) == votes_below(voters, upto) + if line.1.voted
            && line.1.vote < upto {
            line.1.weight as nat
        } else {
            0
        },
    decreases upto,
{
    if upto > 0 {
        lemma_votes_below_push(voters, line, upto - 1);
        lemma_votes_for_push(voters, line, upto - 1);
    }
}

proof fn lemma_votes_below_is_standing_weight(
    voters: Seq<(AccountAddress, VoterState)>,
    upto: int,
)
    requires
        0 <= upto,
        forall|i: int|
            0 <= i < voters.len() && (#[trigger] voters[i]).1.voted ==> voters[i].1.vote < upto,
    ensures
        votes_below(voters, upto) == standing_weight(voters),
    decreases voters.len(),
{
    if voters.len() == 0 {
        lemma_votes_below_of_none(voters, upto);
    } else {
        let rest = voters.drop_last();
        assert forall|i: int| 0 <= i < rest.len() && (#[trigger] rest[i]).1.voted implies
            rest[i].1.vote < upto by {
            assert(rest[i] == voters[i]);
        }
        lemma_votes_below_is_standing_weight(rest, upto);
        lemma_votes_below_push(rest, voters.last(), upto);
        assert(rest.push(voters.last()) =~= voters);
    }
}

proof fn lemma_votes_below_of_none(voters: Seq<(AccountAddress, VoterState)>, upto: int)
    requires
        voters.len() == 0,
    ensures
        votes_below(voters, upto) == 0,
    decreases upto,
{
    if upto > 0 {
        lemma_votes_below_of_none(voters, upto - 1);
    }
}

proof fn lemma_total_count_is_votes_below(poll: Poll, upto: int)
    requires
        poll.conserved(),
        0 <= upto <= poll.proposals.len(),
    ensures
        total_count_below(poll.proposals, upto) == votes_below(poll.voters, upto),
    decreases upto,
{
    if upto > 0 {
        lemma_total_count_is_votes_below(poll, upto - 1);
    }
}

/// No weight is counted twice: all counts together are the weights of the
/// accounts that hold a vote, each weight once.
pub proof fn law_no_weight_counts_twice(poll: Poll)
    requires
        poll.wf(),
    ensures
        total_count_below(poll.proposals, poll.proposals.len() as int) == standing_weight(
            poll.voters,
        ),
{
    lemma_total_count_is_votes_below(poll, poll.proposals.len() as int);
    lemma_votes_below_is_standing_weight(poll.voters, poll.proposals.len() as int);
}

/// Once a vote of an account for a proposal is taken, a second vote of that
/// account for the same proposal, taken or refused, leaves every count and
/// the whole agenda as it is.
pub proof fn law_revote_is_idempotent(
    poll: Poll,
    who: AccountAddress,
    id: ProposalId,
    first: Timestamp,
    second: Timestamp,
)
    requires
        poll.wf(),
        poll.vote_outcome(Address::Account(who), id, first) is Ok,
    ensures
        poll.after_vote(Address::Account(who), id, first).after_vote(
            Address::Account(who),
            id,
            second,
        ) == poll.after_vote(Address::Account(who), id, first),
{
    let once = poll.cast(who, id);
    lemma_cast_wf(poll, who, id);
    lemma_record_after_cast(poll, who, id);
    lemma_standing_vote_is_counted(once, who);
    assert(once.cast(who, id) =~= once);
}

/// Where an account that voted for `a` votes for another proposal `b`, the
/// count of `a` goes down by one, the weight of the account, the count of `b`
/// goes up by one, and no other count moves.
pub proof fn law_switch(
    poll: Poll,
    who: AccountAddress,
    a: ProposalId,
    b: ProposalId,
    first: Timestamp,
    second: Timestamp,
)
    requires
        poll.wf(),
        a != b,
        poll.vote_outcome(Address::Account(who), a, first) is Ok,
        poll.after_vote(Address::Account(who), a, first).vote_outcome(
            Address::Account(who),
            b,
            second,
        ) is Ok,
    ensures
        ({
            let voted_a = poll.after_vote(Address::Account(who), a, first);
            let voted_b = voted_a.after_vote(Address::Account(who), b, second);
            &&& voted_a.record_of(who).weight == 1
            &&& voted_b.proposals.len() == voted_a.proposals.len()
            &&& voted_b.proposals[a as int].vote_count + 1 == voted_a.proposals[a as int].vote_count
            &&& voted_b.proposals[b as int].vote_count == voted_a.proposals[b as int].vote_count + 1
            &&& forall|other: int|
                0 <= other < voted_a.proposals.len() && other != a && other != b
                    ==> (#[trigger] voted_b.proposals[other]) == voted_a.proposals[other]
        }),
{
    let voted_a = poll.cast(who, a);
    lemma_cast_wf(poll, who, a);
    lemma_record_after_cast(poll, who, a);
    lemma_standing_vote_is_counted(voted_a, who);
}

/// Once an agenda is finished no call changes anything: it stays finished,
/// the winners stay as they are, and a further tally is refused as already
/// finished.
pub proof fn law_tally_is_final(poll: Poll, calls: Seq<Call>)
    requires
        poll.status == Status::Finished,
    ensures
        poll.tally_outcome() == Err::<(), ContractError>(ContractError::AlreadyFinished),
        poll.after_all(calls) == poll,
    decreases calls.len(),
{
    if calls.len() > 0 {
        law_tally_is_final(poll, calls.drop_last());
    }
}

/// The tally of an agenda in process is taken and finishes it with the
/// winners of its counts; a second tally changes nothing.
pub proof fn law_first_tally(poll: Poll)
    requires
        poll.status == Status::InProcess,
    ensures
        poll.tally_outcome() is Ok,
        poll.after_tally().status == Status::Finished,
        poll.after_tally().winning == winners(poll.proposals),
        poll.after_tally().after_tally() == poll.after_tally(),
{
}

/// The winners are exactly the proposals whose count is the largest one,
/// each listed once and in rising order; and the largest count is one that
/// no proposal exceeds.
pub proof fn law_winners_are_complete(proposals: Seq<ProposalView>)
    requires
        proposals.len() <= ID_SPACE,
    ensures
        forall|id: ProposalId|
            winners(proposals).contains(id) <==> (id < proposals.len()
                && proposals[id as int].vote_count == max_count(proposals)),
        forall|i: int, j: int|
            0 <= i < j < winners(proposals).len() ==> winners(proposals)[i] < winners(
                proposals,
            )[j],
        forall|id: int|
            0 <= id < proposals.len() ==> (#[trigger] proposals[id]).vote_count <= max_count(
                proposals,
            ),
{
    lemma_ids_with_count(proposals, max_count(proposals), proposals.len() as int);
    assert forall|id: int| 0 <= id < proposals.len() implies
        (#[trigger] proposals[id]).vote_count <= max_count(proposals) by {
        lemma_max_count_bounds(proposals, proposals.len() as int, id);
    }
}

/// With everything else in order, a vote at the very moment of expiry is
/// taken, and one a millisecond later is refused as expired.
pub proof fn law_deadline(poll: Poll, who: AccountAddress, id: ProposalId)
    requires
        poll.status == Status::InProcess,
        id < poll.proposals.len(),
    ensures
        poll.vote_outcome(Address::Account(who), id, poll.expiry) is Ok,
        poll.expiry < Timestamp::MAX ==> poll.vote_outcome(
            Address::Account(who),
            id,
            (poll.expiry + 1) as Timestamp,
        ) == Err::<(), ContractError>(ContractError::Expired),
{
}

/// A withdrawal lowers the count of the proposal the account stood behind by
/// the weight of its record and moves no other count; a vote after it raises
/// the count of the new proposal by one and moves no other count; and each
/// count is still the sum of the weights behind it, so that nothing is
/// counted twice.
pub proof fn law_cancel_then_revote(
    poll: Poll,
    who: AccountAddress,
    id: ProposalId,
    first: Timestamp,
    second: Timestamp,
)
    requires
        poll.wf(),
        poll.cancel_outcome(Address::Account(who), first) is Ok,
        poll.after_cancel(Address::Account(who), first).vote_outcome(
            Address::Account(who),
            id,
            second,
        ) is Ok,
    ensures
        ({
            let before = poll.record_of(who);
            let cancelled = poll.after_cancel(Address::Account(who), first);
            let voted = cancelled.after_vote(Address::Account(who), id, second);
            &&& before.vote < poll.proposals.len()
            &&& cancelled.proposals.len() == poll.proposals.len()
            &&& cancelled.proposals[before.vote as int].vote_count + before.weight
                == poll.proposals[before.vote as int].vote_count
            &&& forall|other: int|
                0 <= other < poll.proposals.len() && other != before.vote
                    ==> (#[trigger] cancelled.proposals[other]) == poll.proposals[other]
            &&& !cancelled.record_of(who).voted
            &&& voted.proposals.len() == poll.proposals.len()
            &&& voted.proposals[id as int].vote_count == cancelled.proposals[id as int].vote_count
                + 1
            &&& forall|other: int|
                0 <= other < poll.proposals.len() && other != id
                    ==> (#[trigger] voted.proposals[other]) == cancelled.proposals[other]
            &&& voted.conserved()
        }),
{
    let cancelled = poll.withdrawn(who);
    let record = VoterState { weight: poll.record_of(who).weight, voted: false, vote: 0 };
    lemma_standing_vote_is_counted(poll, who);
    lemma_without_vote_of(poll, who);
    lemma_withdrawn_wf(poll, who);
    lemma_with_record_one_line_each(poll.voters, who, record);
    lemma_line_of(cancelled.voters, who, line_of(poll.voters, who));
    lemma_cast_wf(cancelled, who, id);
}

/// A withdrawal sent by a contract is refused as such, whatever the state of
/// the agenda, and changes nothing.
pub proof fn law_contract_cannot_cancel(poll: Poll, sender: ContractAddress, now: Timestamp)
    ensures
        poll.cancel_outcome(Address::Contract(sender), now) == Err::<(), ContractError>(
            ContractError::ContractSender,
        ),
        poll.after_cancel(Address::Contract(sender), now) == poll,
{
}

/// A vote sent by a contract is never taken and changes nothing, whatever
/// the state of the agenda.
pub proof fn law_contract_cannot_vote(
    poll: Poll,
    sender: ContractAddress,
    id: ProposalId,
    now: Timestamp,
)
    ensures
        poll.vote_outcome(Address::Contract(sender), id, now) is Err,
        poll.after_vote(Address::Contract(sender), id, now) == poll,
{
}

/// A vote sent by a contract is refused as such where the checks that come
/// before the one on the sender pass: the proposal exists, the agenda is in
/// process and the deadline has not passed.
pub proof fn law_contract_vote_is_refused_as_such(
    poll: Poll,
    sender: ContractAddress,
    id: ProposalId,
    now: Timestamp,
)
    requires
        id < poll.proposals.len(),
        poll.status == Status::InProcess,
        now <= poll.expiry,
    ensures
        poll.vote_outcome(Address::Contract(sender), id, now) == Err::<(), ContractError>(
            ContractError::ContractSender,
        ),
{
}

} // verus!
