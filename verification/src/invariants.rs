//! Why the three operations keep an agenda well formed.

use crate::model::{
    ids_with_count, latest_place, line_of, max_count_below, one_line_each, registered,
    votes_for, with_record, Poll, ID_SPACE,
};
use crate::types::{
    AccountAddress, ProposalId, ProposalView, Status, Timestamp, VoterState,
};
use vstd::prelude::*;

verus! {

/// A line added at the end adds its share to every sum.
pub proof fn lemma_votes_for_push(
    voters: Seq<(AccountAddress, VoterState)>,
    line: (AccountAddress, VoterState),
    id: int,
)
    ensures
        votes_for(voters.push(line), id) == votes_for(voters, id) + line.1.share(id),
{
    assert(voters.push(line).drop_last() =~= voters);
}

/// A line written in place swaps its old share for its new one in every sum.
pub proof fn lemma_votes_for_update(
    voters: Seq<(AccountAddress, VoterState)>,
    at: int,
    line: (AccountAddress, VoterState),
    id: int,
)
    requires
        0 <= at < voters.len(),
    ensures
        votes_for(voters.update(at, line), id) + voters[at].1.share(id) == votes_for(voters, id)
            + line.1.share(id),
    decreases voters.len(),
{
    let written = voters.update(at, line);
    if at == voters.len() - 1 {
        assert(written.drop_last() =~= voters.drop_last());
    } else {
        assert(written.drop_last() =~= voters.drop_last().update(at, line));
        lemma_votes_for_update(voters.drop_last(), at, line, id);
    }
}

/// No sum is smaller than the share of one of its lines.
pub proof fn lemma_votes_for_covers(
    voters: Seq<(AccountAddress, VoterState)>,
    at: int,
    id: int,
)
    requires
        0 <= at < voters.len(),
    ensures
        votes_for(voters, id) >= voters[at].1.share(id),
{
    lemma_votes_for_update(voters, at, (voters[at].0, VoterState::absent()), id);
}

/// The lines at the front of a ledger give a proposal no more votes than the
/// whole ledger does.
pub proof fn lemma_votes_for_prefix(
    voters: Seq<(AccountAddress, VoterState)>,
    upto: int,
    id: int,
)
    requires
        0 <= upto <= voters.len(),
    ensures
        votes_for(voters.take(upto), id) <= votes_for(voters, id),
    decreases voters.len() - upto,
{
    if upto == voters.len() {
        assert(voters.take(upto) =~= voters);
    } else {
        lemma_votes_for_prefix(voters, upto + 1, id);
        assert(voters.take(upto + 1).drop_last() =~= voters.take(upto));
    }
}

/// Where no account has two lines, the line of an account is the one that
/// carries its address.
pub proof fn lemma_line_of(
    voters: Seq<(AccountAddress, VoterState)>,
    who: AccountAddress,
    at: int,
)
    requires
        one_line_each(voters),
        0 <= at < voters.len(),
        voters[at].0 == who,
    ensures
        registered(voters, who),
        line_of(voters, who) == at,
{
    let found = line_of(voters, who);
    assert(voters[found].0 == voters[at].0);
}

/// Setting a record leaves every account with one line.
pub proof fn lemma_with_record_one_line_each(
    voters: Seq<(AccountAddress, VoterState)>,
    who: AccountAddress,
    record: VoterState,
)
    requires
        one_line_each(voters),
    ensures
        one_line_each(with_record(voters, who, record)),
{
    let after = with_record(voters, who, record);
    assert forall|i: int, j: int| 0 <= i < j < after.len() implies
        (#[trigger] after[i]).0 != (#[trigger] after[j]).0 by {
        if j < voters.len() {
            assert(after[i].0 == voters[i].0 && after[j].0 == voters[j].0);
        } else {
            assert(after[i] == voters[i] && after[j].0 == who);
        }
    }
}

/// Setting a record swaps the old share of that account for the new one in
/// every sum.
pub proof fn lemma_with_record_votes_for(
    poll: Poll,
    who: AccountAddress,
    record: VoterState,
    id: int,
)
    ensures
        votes_for(with_record(poll.voters, who, record), id) + poll.record_of(who).share(id)
            == votes_for(poll.voters, id) + record.share(id),
{
    if registered(poll.voters, who) {
        lemma_votes_for_update(poll.voters, line_of(poll.voters, who), (who, record), id);
    } else {
        lemma_votes_for_push(poll.voters, (who, record), id);
    }
}

/// In a well-formed agenda the standing vote of an account names a proposal
/// whose count holds at least the weight of that account.
pub proof fn lemma_standing_vote_is_counted(poll: Poll, who: AccountAddress)
    requires
        poll.wf(),
        poll.record_of(who).voted,
    ensures
        poll.record_of(who).vote < poll.proposals.len(),
        poll.proposals[poll.record_of(who).vote as int].vote_count >= poll.record_of(who).weight,
{
    let at = line_of(poll.voters, who);
    lemma_votes_for_covers(poll.voters, at, poll.record_of(who).vote as int);
}

/// Taking the standing vote of an account out of the counts lowers each
/// count by the share that the account has in it.
pub proof fn lemma_without_vote_of(poll: Poll, who: AccountAddress)
    requires
        poll.wf(),
    ensures
        poll.without_vote_of(who).len() == poll.proposals.len(),
        forall|id: int|
            0 <= id < poll.proposals.len() ==> {
                &&& (#[trigger] poll.without_vote_of(who)[id]).name == poll.proposals[id].name
                &&& poll.without_vote_of(who)[id].vote_count + poll.record_of(who).share(id)
                    == poll.proposals[id].vote_count
            },
{
    if poll.record_of(who).voted {
        lemma_standing_vote_is_counted(poll, who);
    }
}

/// A vote for a proposal of an agenda in process keeps it well formed.
pub proof fn lemma_cast_wf(poll: Poll, who: AccountAddress, id: ProposalId)
    requires
        poll.wf(),
        poll.status == Status::InProcess,
        id < poll.proposals.len(),
    ensures
        poll.cast(who, id).wf(),
{
    let record = VoterState { weight: 1, voted: true, vote: id };
    let after = poll.cast(who, id);
    lemma_with_record_one_line_each(poll.voters, who, record);
    lemma_without_vote_of(poll, who);
    assert forall|i: int| 0 <= i < after.voters.len() && (#[trigger] after.voters[i]).1.voted
        implies after.voters[i].1.vote < after.proposals.len() by {
        if after.voters[i].1 != record {
            assert(after.voters[i] == poll.voters[i]);
        }
    }
    assert forall|p: int| 0 <= p < after.proposals.len() implies
        (#[trigger] after.proposals[p]).vote_count == votes_for(after.voters, p) by {
        lemma_with_record_votes_for(poll, who, record, p);
    }
}

/// Withdrawing a standing vote from an agenda in process keeps it well
/// formed.
pub proof fn lemma_withdrawn_wf(poll: Poll, who: AccountAddress)
    requires
        poll.wf(),
        poll.status == Status::InProcess,
    ensures
        poll.withdrawn(who).wf(),
{
    let record = VoterState { weight: poll.record_of(who).weight, voted: false, vote: 0 };
    let after = poll.withdrawn(who);
    lemma_with_record_one_line_each(poll.voters, who, record);
    lemma_without_vote_of(poll, who);
    assert forall|i: int| 0 <= i < after.voters.len() && (#[trigger] after.voters[i]).1.voted
        implies after.voters[i].1.vote < after.proposals.len() by {
        if after.voters[i].1 != record {
            assert(after.voters[i] == poll.voters[i]);
        }
    }
    assert forall|p: int| 0 <= p < after.proposals.len() implies
        (#[trigger] after.proposals[p]).vote_count == votes_for(after.voters, p) by {
        lemma_with_record_votes_for(poll, who, record, p);
    }
}

/// The tally of a well-formed agenda is well formed.
pub proof fn lemma_tallied_wf(poll: Poll)
    requires
        poll.wf(),
    ensures
        poll.tallied().wf(),
{
    let after = poll.tallied();
    assert(after.votes_in_range()) by {
        assert(after.voters == poll.voters);
    }
    assert(after.conserved()) by {
        assert(after.proposals == poll.proposals);
    }
}

/// A fresh agenda is well formed.
pub proof fn lemma_created_wf(
    title: Seq<char>,
    description: Seq<char>,
    names: Seq<Seq<char>>,
    expiry: Timestamp,
)
    ensures
        Poll::created(title, description, names, expiry).wf(),
{
    let poll = Poll::created(title, description, names, expiry);
    assert(poll.conserved()) by {
        assert(votes_for(poll.voters, 0) == 0);
    }
}

/// The latest place of an identifier lies in the list, is the identifier
/// modulo the number of identifiers, and is the last such place. Where the
/// list is no longer than the identifiers reach, it is the identifier itself.
pub proof fn lemma_latest_place(len: nat, id: int)
    requires
        0 <= id < len,
        id < ID_SPACE,
    ensures
        0 <= latest_place(len, id) < len,
        latest_place(len, id) % (ID_SPACE as int) == id,
        latest_place(len, id) + ID_SPACE >= len,
        len <= ID_SPACE ==> latest_place(len, id) == id,
{
}

/// How the latest place of an identifier moves when one name joins a list of
/// `len` names: to the new name where its place is the identifier modulo the
/// number of identifiers, and not at all where it is not.
pub proof fn lemma_latest_place_step(len: nat, id: int)
    requires
        0 <= id < ID_SPACE,
        id <= len,
    ensures
        latest_place(len + 1, id) == if len % (ID_SPACE as nat) == id {
            len as int
        } else {
            latest_place(len, id)
        },
{
}

/// No proposal below `upto` has a count above the largest one there.
pub proof fn lemma_max_count_bounds(proposals: Seq<ProposalView>, upto: int, id: int)
    requires
        0 <= id < upto,
    ensures
        proposals[id].vote_count <= max_count_below(proposals, upto),
    decreases upto,
{
    if id < upto - 1 {
        lemma_max_count_bounds(proposals, upto - 1, id);
    }
}

/// A count above the largest one below `upto` belongs to no proposal there.
pub proof fn lemma_no_id_above_max(proposals: Seq<ProposalView>, count: nat, upto: int)
    requires
        count > max_count_below(proposals, upto),
    ensures
        ids_with_count(proposals, count, upto) == Seq::<ProposalId>::empty(),
    decreases upto,
{
    if upto > 0 {
        lemma_no_id_above_max(proposals, count, upto - 1);
    }
}

/// After a vote the account has a line in the ledger, and its record holds
/// that vote with weight one.
pub proof fn lemma_record_after_cast(poll: Poll, who: AccountAddress, id: ProposalId)
    requires
        poll.wf(),
    ensures
        registered(poll.cast(who, id).voters, who),
        poll.cast(who, id).record_of(who) == (VoterState { weight: 1, voted: true, vote: id }),
{
    let record = VoterState { weight: 1, voted: true, vote: id };
    let after = with_record(poll.voters, who, record);
    lemma_with_record_one_line_each(poll.voters, who, record);
    if registered(poll.voters, who) {
        lemma_line_of(after, who, line_of(poll.voters, who));
    } else {
        lemma_line_of(after, who, poll.voters.len() as int);
    }
}

/// The identifiers listed for a count are those of the proposals with that
/// count, in rising order.
pub proof fn lemma_ids_with_count(proposals: Seq<ProposalView>, count: nat, upto: int)
    requires
        0 <= upto <= proposals.len() <= ID_SPACE,
    ensures
        forall|id: ProposalId|
            ids_with_count(proposals, count, upto).contains(id) <==> (id < upto
                && proposals[id as int].vote_count == count),
        forall|i: int, j: int|
            0 <= i < j < ids_with_count(proposals, count, upto).len() ==> ids_with_count(
                proposals,
                count,
                upto,
            )[i] < ids_with_count(proposals, count, upto)[j],
        forall|i: int|
            0 <= i < ids_with_count(proposals, count, upto).len() ==> ids_with_count(
                proposals,
                count,
                upto,
            )[i] < upto,
    decreases upto,
{
    let ids = ids_with_count(proposals, count, upto);
    if upto > 0 {
        let rest = ids_with_count(proposals, count, upto - 1);
        lemma_ids_with_count(proposals, count, upto - 1);
        if proposals[upto - 1].vote_count == count {
            let last = (upto - 1) as ProposalId;
            assert forall|id: ProposalId| ids.contains(id) <==> (id < upto
                && proposals[id as int].vote_count == count) by {
                if ids.contains(id) {
                    let i = choose|i: int| 0 <= i < ids.len() && ids[i] == id;
                    if i < rest.len() {
                        assert(rest.contains(id));
                    }
                }
                if id < upto && proposals[id as int].vote_count == count {
                    if id == last {
                        assert(ids[rest.len() as int] == id);
                    } else {
                        let i = choose|i: int| 0 <= i < rest.len() && rest[i] == id;
                        assert(ids[i] == id);
                    }
                }
            }
        }
    } else {
        assert forall|id: ProposalId| !ids.contains(id) by {}
    }
}

} // verus!
