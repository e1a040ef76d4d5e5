//! The agenda as a mathematical value, and the three ways it changes.
//!
//! Everything the executable ledger promises is stated over a [`Poll`]: what
//! a vote, a withdrawal and the tally make of it, and which of them are
//! refused.

use crate::types::{
    AccountAddress, Address, ContractError, ContractResult, ProposalId, ProposalView, Status,
    Timestamp, VoteCount, VoterState,
};
use vstd::prelude::*;

verus! {

/// The number of identifiers a `ProposalId` can take.
pub const ID_SPACE: usize = 256;

/// The sum of the weights of the records in `voters` that stand behind
/// proposal `id`.
pub open spec fn votes_for(voters: Seq<(AccountAddress, VoterState)>, id: int) -> nat
    decreases voters.len(),
{
    if voters.len() == 0 {
        0
    } else {
        votes_for(voters.drop_last(), id) + voters.last().1.share(id)
    }
}

/// Whether the ledger holds a record for `who`.
pub open spec fn registered(
    voters: Seq<(AccountAddress, VoterState)>,
    who: AccountAddress,
) -> bool {
    exists|i: int| 0 <= i < voters.len() && (#[trigger] voters[i]).0 == who
}

/// A line of the ledger that belongs to `who`, if there is one.
pub open spec fn line_of(voters: Seq<(AccountAddress, VoterState)>, who: AccountAddress) -> int {
    choose|i: int| 0 <= i < voters.len() && (#[trigger] voters[i]).0 == who
}

/// No account has two lines.
pub open spec fn one_line_each(voters: Seq<(AccountAddress, VoterState)>) -> bool {
    forall|i: int, j: int|
        0 <= i < j < voters.len() ==> (#[trigger] voters[i]).0 != (#[trigger] voters[j]).0
}

/// The ledger after the record of `who` has been set to `record`: written in
/// place where `who` has a line, added at the end where not.
pub open spec fn with_record(
    voters: Seq<(AccountAddress, VoterState)>,
    who: AccountAddress,
    record: VoterState,
) -> Seq<(AccountAddress, VoterState)> {
    if registered(voters, who) {
        voters.update(line_of(voters, who), (who, record))
    } else {
        voters.push((who, record))
    }
}

/// The proposals after `amount` was added to the count of `id`.
pub open spec fn raised(proposals: Seq<ProposalView>, id: int, amount: nat) -> Seq<ProposalView> {
    proposals.update(
        id,
        ProposalView { name: proposals[id].name, vote_count: proposals[id].vote_count + amount },
    )
}

/// The proposals after `amount` was taken from the count of `id`.
pub open spec fn lowered(proposals: Seq<ProposalView>, id: int, amount: nat) -> Seq<ProposalView> {
    proposals.update(
        id,
        ProposalView {
            name: proposals[id].name,
            vote_count: (proposals[id].vote_count - amount) as nat,
        },
    )
}

/// The largest count among the proposals with an identifier below `upto`,
/// and zero where there is none.
pub open spec fn max_count_below(proposals: Seq<ProposalView>, upto: int) -> nat
    decreases upto,
{
    if upto <= 0 {
        0
    } else {
        let rest = max_count_below(proposals, upto - 1);
        if proposals[upto - 1].vote_count > rest {
            proposals[upto - 1].vote_count
        } else {
            rest
        }
    }
}

/// The identifiers below `upto` of the proposals whose count is `count`, in
/// rising order.
pub open spec fn ids_with_count(
    proposals: Seq<ProposalView>,
    count: nat,
    upto: int,
) -> Seq<ProposalId>
    decreases upto,
{
    if upto <= 0 {
        Seq::empty()
    } else {
        let rest = ids_with_count(proposals, count, upto - 1);
        if proposals[upto - 1].vote_count == count {
            rest.push((upto - 1) as ProposalId)
        } else {
            rest
        }
    }
}

/// The largest count of any proposal.
pub open spec fn max_count(proposals: Seq<ProposalView>) -> nat {
    max_count_below(proposals, proposals.len() as int)
}

/// The identifiers of all proposals that share the largest count, in rising
/// order. Where every count is zero these are all proposals.
pub open spec fn winners(proposals: Seq<ProposalView>) -> Seq<ProposalId> {
    ids_with_count(proposals, max_count(proposals), proposals.len() as int)
}

/// The last place in a list of `len` names that is `id` modulo the number of
/// identifiers. In a list no longer than the identifiers reach it is `id`
/// itself.
pub open spec fn latest_place(len: nat, id: int) -> int {
    id + ID_SPACE * ((len - 1 - id) / (ID_SPACE as int))
}

/// The state of one agenda.
#[verifier::ext_equal]
pub struct Poll {
    /// The voter ledger, in the order in which the accounts first voted.
    pub voters: Seq<(AccountAddress, VoterState)>,
    /// The proposals; the identifier of a proposal is its index.
    pub proposals: Seq<ProposalView>,
    pub status: Status,
    /// The winning proposals, empty until the agenda is tallied.
    pub winning: Seq<ProposalId>,
    pub title: Seq<char>,
    pub description: Seq<char>,
    /// The last moment at which votes are taken.
    pub expiry: Timestamp,
}

impl Poll {
    /// A fresh agenda. The proposals get the identifiers `0, 1, 2, ..` in the
    /// order of `names`; a list longer than the identifiers reach starts
    /// again at zero and renames the proposals it meets, so that each
    /// proposal keeps the last name that came to it.
    pub open spec fn created(
        title: Seq<char>,
        description: Seq<char>,
        names: Seq<Seq<char>>,
        expiry: Timestamp,
    ) -> Poll {
        Poll {
            voters: Seq::empty(),
            proposals: Seq::new(
                if names.len() <= ID_SPACE {
                    names.len()
                } else {
                    ID_SPACE as nat
                },
                |id: int|
                    ProposalView { name: names[latest_place(names.len(), id)], vote_count: 0 },
            ),
            status: Status::InProcess,
            winning: Seq::empty(),
            title,
            description,
            expiry,
        }
    }

    /// The record of `who`; the absent record where the ledger has no line
    /// for that account.
    pub open spec fn record_of(self, who: AccountAddress) -> VoterState {
        if registered(self.voters, who) {
            self.voters[line_of(self.voters, who)].1
        } else {
            VoterState::absent()
        }
    }

    /// The proposals once the vote that `who` has standing, if any, is taken
    /// back out of its count.
    pub open spec fn without_vote_of(self, who: AccountAddress) -> Seq<ProposalView> {
        let record = self.record_of(who);
        if record.voted {
            lowered(self.proposals, record.vote as int, record.weight as nat)
        } else {
            self.proposals
        }
    }

    /// The agenda after `who` has voted for `id`: an earlier vote of that
    /// account is undone first, then the record is set to weight one on `id`
    /// and that proposal's count goes up by one.
    pub open spec fn cast(self, who: AccountAddress, id: ProposalId) -> Poll {
        Poll {
            voters: with_record(self.voters, who, VoterState { weight: 1, voted: true, vote: id }),
            proposals: raised(self.without_vote_of(who), id as int, 1),
            ..self
        }
    }

    /// The agenda after `who` has withdrawn its vote: the count it stood
    /// behind goes down by the record's weight, and the record keeps its
    /// weight but no vote.
    pub open spec fn withdrawn(self, who: AccountAddress) -> Poll {
        Poll {
            voters: with_record(
                self.voters,
                who,
                VoterState { weight: self.record_of(who).weight, voted: false, vote: 0 },
            ),
            proposals: self.without_vote_of(who),
            ..self
        }
    }

    /// The agenda after the tally: finished, with every proposal of the
    /// largest count winning.
    pub open spec fn tallied(self) -> Poll {
        Poll { status: Status::Finished, winning: winners(self.proposals), ..self }
    }

    /// How a vote of `sender` for `id` at time `now` ends. The first check
    /// that fails decides: the proposal, the status, the deadline, the
    /// sender.
    pub open spec fn vote_outcome(
        self,
        sender: Address,
        id: ProposalId,
        now: Timestamp,
    ) -> ContractResult {
        if id >= self.proposals.len() {
            Err(ContractError::ProposalIsNotFound)
        } else if self.status == Status::Finished {
            Err(ContractError::AlreadyFinished)
        } else if now > self.expiry {
            Err(ContractError::Expired)
        } else if sender is Contract {
            Err(ContractError::ContractSender)
        } else {
            Ok(())
        }
    }

    /// How a withdrawal by `sender` at time `now` ends. The first check that
    /// fails decides: the sender, the status, the deadline, the record.
    pub open spec fn cancel_outcome(self, sender: Address, now: Timestamp) -> ContractResult {
        match sender {
            Address::Contract(_) => Err(ContractError::ContractSender),
            Address::Account(who) => {
                if self.status == Status::Finished {
                    Err(ContractError::AlreadyFinished)
                } else if now > self.expiry {
                    Err(ContractError::Expired)
                } else if !registered(self.voters, who) {
                    Err(ContractError::VoterIsNotFound)
                } else if !self.record_of(who).voted {
                    Err(ContractError::NotVoted)
                } else {
                    Ok(())
                }
            },
        }
    }

    /// How a tally ends: it is refused once the agenda is finished, and at no
    /// other time.
    pub open spec fn tally_outcome(self) -> ContractResult {
        if self.status == Status::Finished {
            Err(ContractError::AlreadyFinished)
        } else {
            Ok(())
        }
    }

    /// The agenda after a vote of `sender` for `id` at time `now`: changed
    /// where the vote is taken, the same where it is refused.
    pub open spec fn after_vote(self, sender: Address, id: ProposalId, now: Timestamp) -> Poll {
        match sender {
            Address::Account(who) if self.vote_outcome(sender, id, now) is Ok => self.cast(who, id),
            _ => self,
        }
    }

    /// The agenda after a withdrawal by `sender` at time `now`.
    pub open spec fn after_cancel(self, sender: Address, now: Timestamp) -> Poll {
        match sender {
            Address::Account(who) if self.cancel_outcome(sender, now) is Ok => self.withdrawn(who),
            _ => self,
        }
    }

    /// The agenda after a call for the tally.
    pub open spec fn after_tally(self) -> Poll {
        if self.tally_outcome() is Ok {
            self.tallied()
        } else {
            self
        }
    }

    /// Every count is within the range of `VoteCount`.
    pub open spec fn counts_fit(self) -> bool {
        forall|id: int|
            0 <= id < self.proposals.len() ==> (#[trigger] self.proposals[id]).vote_count
                <= VoteCount::MAX
    }

    /// Every count is the sum of the weights of the records that stand
    /// behind that proposal.
    pub open spec fn conserved(self) -> bool {
        forall|id: int|
            0 <= id < self.proposals.len() ==> (#[trigger] self.proposals[id]).vote_count
                == votes_for(self.voters, id)
    }

    /// Every standing vote names a proposal of the agenda.
    pub open spec fn votes_in_range(self) -> bool {
        forall|i: int|
            0 <= i < self.voters.len() && (#[trigger] self.voters[i]).1.voted
                ==> self.voters[i].1.vote < self.proposals.len()
    }

    /// The winners are empty while the agenda is in process, and those of
    /// the counts once it is finished.
    pub open spec fn settled(self) -> bool {
        match self.status {
            Status::InProcess => self.winning == Seq::<ProposalId>::empty(),
            Status::Finished => self.winning == winners(self.proposals),
        }
    }

    /// What holds of every agenda that the operations can reach.
    pub open spec fn wf(self) -> bool {
        &&& self.proposals.len() <= ID_SPACE
        &&& one_line_each(self.voters)
        &&& self.votes_in_range()
        &&& self.conserved()
        &&& self.settled()
    }
}

} // verus!
