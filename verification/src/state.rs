//! The ledger itself and the operations that change it.

use crate::invariants::{
    lemma_cast_wf, lemma_created_wf, lemma_latest_place_step, lemma_line_of,
    lemma_standing_vote_is_counted,
    lemma_tallied_wf, lemma_withdrawn_wf, lemma_without_vote_of,
};
use crate::ledger::{
    counts_to, find_voter, lines_are_distinct, proposal_views, same_ids, votes_are_in_range,
    winning_ids,
};
use crate::model::{latest_place, registered, votes_for, Poll, ID_SPACE};
use crate::types::{
    AccountAddress, Address, ContractError, ContractResult, Proposal, ProposalId, ProposalView,
    Status, Timestamp, VoteCount, VoterState,
};
use vstd::prelude::*;

verus! {

/// The names of a list as the contracts see them.
pub open spec fn name_views(names: Seq<String>) -> Seq<Seq<char>> {
    Seq::new(names.len(), |i: int| names[i]@)
}

/// One voting agenda: its proposals with their counts, the voter ledger, and
/// the outcome once it has been tallied.
pub struct State {
    voters: Vec<(AccountAddress, VoterState)>,
    proposals: Vec<Proposal>,
    status: Status,
    winning_proposal_id: Vec<ProposalId>,
    title: String,
    description: String,
    expiry: Timestamp,
}

impl View for State {
    type V = Poll;

    closed spec fn view(&self) -> Poll {
        Poll {
            voters: self.voters@,
            proposals: proposal_views(self.proposals@),
            status: self.status,
            winning: self.winning_proposal_id@,
            title: self.title@,
            description: self.description@,
            expiry: self.expiry,
        }
    }
}

impl State {
    /// The agenda is well formed and its counts are within the range of
    /// `VoteCount`.
    pub open spec fn wf(&self) -> bool {
        self@.wf() && self@.counts_fit()
    }

    /// A fresh agenda with the given proposals, no votes and no winners.
    pub fn empty(
        title: String,
        description: String,
        proposal_names: Vec<String>,
        expiry: Timestamp,
    ) -> (state: State)
        ensures
            state.wf(),
            state@ == Poll::created(title@, description@, name_views(proposal_names@), expiry),
    {
        let ghost names = name_views(proposal_names@);
        let mut proposals: Vec<Proposal> = Vec::new();
        let mut i: usize = 0;
        while i < proposal_names.len()
            invariant
                i <= proposal_names.len(),
                names == name_views(proposal_names@),
                proposals.len() == (if i <= ID_SPACE {
                    i
                } else {
                    ID_SPACE
                }),
                forall|id: int|
                    0 <= id < proposals.len() ==> (#[trigger] proposals[id])@ == (ProposalView {
                        name: names[latest_place(i as nat, id)],
                        vote_count: 0,
                    }),
            decreases proposal_names.len() - i,
        {
            let proposal = Proposal::new(proposal_names[i].clone(), 0);
            proof {
                assert forall|id: int| 0 <= id < ID_SPACE && id <= i implies
                    latest_place((i + 1) as nat, id) == if i % ID_SPACE == id {
                        i as int
                    } else {
                        latest_place(i as nat, id)
                    } by {
                    lemma_latest_place_step(i as nat, id);
                }
            }
            if i < ID_SPACE {
                proposals.push(proposal);
            } else {
                proposals.set(i % ID_SPACE, proposal);
            }
            i += 1;
        }
        let state = State {
            voters: Vec::new(),
            proposals,
            status: Status::InProcess,
            winning_proposal_id: Vec::new(),
            title,
            description,
            expiry,
        };
        proof {
            lemma_created_wf(title@, description@, names, expiry);
        }
        state
    }

    /// The agenda that a snapshot shows, where the snapshot shows one: its
    /// proposals stand in the order of their identifiers, and what it holds
    /// is a well-formed agenda. Any other snapshot is turned down.
    pub fn restore(view: ViewState) -> (state: Option<State>)
        ensures
            state is Some <==> view.ids_in_order() && view@.wf(),
            state matches Some(restored) ==> restored.wf() && restored@ == view@,
    {
        if view.proposals.len() > ID_SPACE {
            return None;
        }
        let mut proposals: Vec<Proposal> = Vec::new();
        let mut next: usize = 0;
        while next < view.proposals.len()
            invariant
                next <= view.proposals.len() <= ID_SPACE,
                proposals.len() == next,
                forall|i: int|
                    0 <= i < next ==> {
                        &&& (#[trigger] view.proposals[i]).0 == i
                        &&& view@.proposals[i].vote_count == votes_for(view@.voters, i)
                        &&& proposals[i]@ == view@.proposals[i]
                    },
            decreases view.proposals.len() - next,
        {
            let listed: &(ProposalId, Proposal) = &view.proposals[next];
            if listed.0 as usize != next {
                return None;
            }
            if !counts_to(&view.voters, listed.0, listed.1.vote_count) {
                assert(view@.proposals[next as int].vote_count == listed.1.vote_count);
                return None;
            }
            proposals.push(Proposal::new(listed.1.name.clone(), listed.1.vote_count));
            next += 1;
        }
        if !lines_are_distinct(&view.voters) {
            return None;
        }
        if !votes_are_in_range(&view.voters, view.proposals.len()) {
            return None;
        }
        assert(proposal_views(proposals@) =~= view@.proposals);
        let settled: bool = match view.status {
            Status::InProcess => view.winning_proposal_id.len() == 0,
            Status::Finished => same_ids(&view.winning_proposal_id, &winning_ids(&proposals)),
        };
        if !settled {
            return None;
        }
        assert(view.status == Status::InProcess ==> view@.winning =~= Seq::<ProposalId>::empty());
        let state = State {
            voters: view.voters,
            proposals,
            status: view.status,
            winning_proposal_id: view.winning_proposal_id,
            title: view.title,
            description: view.description,
            expiry: view.expiry,
        };
        Some(state)
    }

    /// The record that the ledger holds for `who`; the absent record where
    /// it holds none.
    pub fn voter(&self, who: &AccountAddress) -> (record: VoterState)
        requires
            self.wf(),
        ensures
            record == self@.record_of(*who),
    {
        match find_voter(&self.voters, who) {
            Some(at) => {
                proof {
                    lemma_line_of(self@.voters, *who, at as int);
                }
                self.voters[at].1
            },
            None => VoterState::default(),
        }
    }

    /// The count of the proposal `id`, where there is such a proposal.
    pub fn vote_count(&self, id: ProposalId) -> (count: Option<VoteCount>)
        ensures
            match count {
                Some(votes) => id < self@.proposals.len() && votes
                    == self@.proposals[id as int].vote_count,
                None => id >= self@.proposals.len(),
            },
    {
        if (id as usize) < self.proposals.len() {
            Some(self.proposals[id as usize].vote_count)
        } else {
            None
        }
    }

    /// Whether every count stays within the range of `VoteCount` when
    /// `sender` votes for `proposal_id` at `slot_time`. A vote that is refused
    /// always fits; one that is taken does not where the proposal's count is
    /// at its largest value and the vote adds to it.
    pub fn vote_fits(
        &self,
        sender: &Address,
        proposal_id: ProposalId,
        slot_time: Timestamp,
    ) -> (fits: bool)
        requires
            self.wf(),
        ensures
            fits == self@.after_vote(*sender, proposal_id, slot_time).counts_fit(),
    {
        if proposal_id as usize >= self.proposals.len() || self.status == Status::Finished
            || slot_time > self.expiry {
            return true;
        }
        match sender {
            Address::Contract(_) => true,
            Address::Account(who) => {
                let record: VoterState = self.voter(who);
                let count: VoteCount = self.proposals[proposal_id as usize].vote_count;
                let standing: u32 = if record.voted && record.vote == proposal_id {
                    record.weight
                } else {
                    0
                };
                proof {
                    let after = self@.cast(*who, proposal_id);
                    lemma_without_vote_of(self@, *who);
                    assert(after.proposals[proposal_id as int].vote_count == count - standing + 1);
                    if count - standing < u32::MAX {
                        assert forall|id: int| 0 <= id < after.proposals.len() implies
                            (#[trigger] after.proposals[id]).vote_count <= VoteCount::MAX by {
                            assert(self@.without_vote_of(*who)[id].vote_count
                                <= self@.proposals[id].vote_count);
                        }
                    }
                }
                count - standing < u32::MAX
            },
        }
    }

    /// Whether the agenda takes votes or has been tallied.
    pub fn status(&self) -> (status: Status)
        ensures
            status == self@.status,
    {
        self.status
    }

    /// Records the vote of `voter_address` for `proposal_id`, after undoing
    /// the vote that the account has standing.
    fn vote(
        &mut self,
        voter_address: &AccountAddress,
        proposal_id: &ProposalId,
    ) -> (result: ContractResult)
        requires
            old(self).wf(),
            old(self)@.status == Status::InProcess,
            *proposal_id < old(self)@.proposals.len() ==> old(self)@.cast(
                *voter_address,
                *proposal_id,
            ).counts_fit(),
        ensures
            final(self).wf(),
            result == if *proposal_id < old(self)@.proposals.len() {
                Ok::<(), ContractError>(())
            } else {
                Err(ContractError::ProposalIsNotFound)
            },
            final(self)@ == if result is Ok {
                old(self)@.cast(*voter_address, *proposal_id)
            } else {
                old(self)@
            },
    {
        let id: usize = *proposal_id as usize;
        if id >= self.proposals.len() {
            return Err(ContractError::ProposalIsNotFound);
        }
        let ghost before = self@;
        let ghost after = before.cast(*voter_address, *proposal_id);
        let record = VoterState { weight: 1, voted: true, vote: *proposal_id };
        match find_voter(&self.voters, voter_address) {
            Some(at) => {
                proof {
                    lemma_line_of(before.voters, *voter_address, at as int);
                }
                let voter_state: VoterState = self.voters[at].1;
                if voter_state.voted {
                    proof {
                        lemma_standing_vote_is_counted(before, *voter_address);
                    }
                    let standing: usize = voter_state.vote as usize;
                    self.proposals[standing].vote_count -= voter_state.weight;
                }
                self.voters.set(at, (*voter_address, record));
            },
            None => {
                self.voters.push((*voter_address, record));
            },
        }
        proof {
            assert(after.proposals[id as int].vote_count <= u32::MAX);
        }
        self.proposals[id].vote_count += record.weight;
        proof {
            assert(self@ =~= after);
            lemma_cast_wf(before, *voter_address, *proposal_id);
        }
        Ok(())
    }

    /// Takes back the vote that `voter_address` has standing.
    fn cancel_vote(&mut self, voter_address: &AccountAddress) -> (result: ContractResult)
        requires
            old(self).wf(),
            old(self)@.status == Status::InProcess,
        ensures
            final(self).wf(),
            result == if !registered(old(self)@.voters, *voter_address) {
                Err::<(), ContractError>(ContractError::VoterIsNotFound)
            } else if !old(self)@.record_of(*voter_address).voted {
                Err(ContractError::NotVoted)
            } else {
                Ok(())
            },
            final(self)@ == if result is Ok {
                old(self)@.withdrawn(*voter_address)
            } else {
                old(self)@
            },
    {
        let ghost before = self@;
        let ghost after = before.withdrawn(*voter_address);
        let at: usize = match find_voter(&self.voters, voter_address) {
            Some(at) => at,
            None => {
                return Err(ContractError::VoterIsNotFound);
            },
        };
        proof {
            lemma_line_of(before.voters, *voter_address, at as int);
        }
        let voter_state: VoterState = self.voters[at].1;
        if !voter_state.voted {
            return Err(ContractError::NotVoted);
        }
        proof {
            lemma_standing_vote_is_counted(before, *voter_address);
        }
        let standing: usize = voter_state.vote as usize;
        self.proposals[standing].vote_count -= voter_state.weight;
        self.voters.set(
            at,
            (*voter_address, VoterState { weight: voter_state.weight, voted: false, vote: 0 }),
        );
        proof {
            assert(self@ =~= after);
            lemma_withdrawn_wf(before, *voter_address);
        }
        Ok(())
    }
}

/// Everything there is to see of an agenda, as plain values.
#[derive(Clone, Debug, PartialEq, Eq)]
pub struct ViewState {
    /// The voter ledger, in the order in which the accounts first voted.
    pub voters: Vec<(AccountAddress, VoterState)>,
    /// The proposals, each with its identifier.
    pub proposals: Vec<(ProposalId, Proposal)>,
    pub status: Status,
    pub winning_proposal_id: Vec<ProposalId>,
    pub title: String,
    pub description: String,
    pub expiry: Timestamp,
}

impl View for ViewState {
    type V = Poll;

    open spec fn view(&self) -> Poll {
        Poll {
            voters: self.voters@,
            proposals: Seq::new(self.proposals.len() as nat, |i: int| self.proposals[i].1@),
            status: self.status,
            winning: self.winning_proposal_id@,
            title: self.title@,
            description: self.description@,
            expiry: self.expiry,
        }
    }
}

impl ViewState {
    /// Each proposal is listed at the place of its identifier.
    pub open spec fn ids_in_order(&self) -> bool {
        forall|i: int| 0 <= i < self.proposals.len() ==> (#[trigger] self.proposals[i]).0 == i
    }
}

/// A vote of `sender` for `proposal_id`, sent at `slot_time`.
///
/// The vote is refused, and nothing changes, where the proposal does not
/// exist, the agenda is finished, the deadline has passed or the sender is a
/// contract, in this order. Otherwise the account's earlier vote, if it has
/// one standing, is undone and its weight of one is added to the proposal.
pub fn contract_vote(
    state: &mut State,
    sender: &Address,
    proposal_id: ProposalId,
    slot_time: Timestamp,
) -> (result: ContractResult)
    requires
        old(state).wf(),
        old(state)@.after_vote(*sender, proposal_id, slot_time).counts_fit(),
    ensures
        final(state).wf(),
        result == old(state)@.vote_outcome(*sender, proposal_id, slot_time),
        final(state)@ == old(state)@.after_vote(*sender, proposal_id, slot_time),
{
    if proposal_id as usize >= state.proposals.len() {
        return Err(ContractError::ProposalIsNotFound);
    }
    if state.status == Status::Finished {
        return Err(ContractError::AlreadyFinished);
    }
    if slot_time > state.expiry {
        return Err(ContractError::Expired);
    }
    let sender_address: AccountAddress = match sender {
        Address::Contract(_) => {
            return Err(ContractError::ContractSender);
        },
        Address::Account(account_address) => *account_address,
    };
    state.vote(&sender_address, &proposal_id)
}

/// The withdrawal of the vote of `sender`, sent at `slot_time`.
///
/// It is refused, and nothing changes, where the sender is a contract, the
/// agenda is finished, the deadline has passed, the account has no record or
/// its record holds no vote, in this order. Otherwise the vote is taken out
/// of its proposal's count.
pub fn cancel_vote(
    state: &mut State,
    sender: &Address,
    slot_time: Timestamp,
) -> (result: ContractResult)
    requires
        old(state).wf(),
    ensures
        final(state).wf(),
        result == old(state)@.cancel_outcome(*sender, slot_time),
        final(state)@ == old(state)@.after_cancel(*sender, slot_time),
{
    let sender_address: AccountAddress = match sender {
        Address::Contract(_) => {
            return Err(ContractError::ContractSender);
        },
        Address::Account(account_address) => *account_address,
    };
    if state.status == Status::Finished {
        return Err(ContractError::AlreadyFinished);
    }
    if slot_time > state.expiry {
        return Err(ContractError::Expired);
    }
    state.cancel_vote(&sender_address)
}

/// The tally: finds every proposal that shares the largest count and closes
/// the agenda. It is refused once the agenda is finished; the deadline plays
/// no part.
pub fn contract_winning_proposal(state: &mut State) -> (result: ContractResult)
    requires
        old(state).wf(),
    ensures
        final(state).wf(),
        result == old(state)@.tally_outcome(),
        final(state)@ == old(state)@.after_tally(),
{
    if state.status == Status::Finished {
        return Err(ContractError::AlreadyFinished);
    }
    let winning = winning_ids(&state.proposals);
    state.winning_proposal_id = winning;
    state.status = Status::Finished;
    proof {
        lemma_tallied_wf(old(state)@);
    }
    Ok(())
}

/// A snapshot of the agenda: the voter ledger, the proposals with their
/// identifiers and counts, the status, the winners and the agenda's own
/// data. The agenda itself is left as it is.
pub fn contract_view(state: &State) -> (view: ViewState)
    requires
        state.wf(),
    ensures
        view@ == state@,
        view.ids_in_order(),
{
    let mut voters: Vec<(AccountAddress, VoterState)> = Vec::new();
    let mut i: usize = 0;
    while i < state.voters.len()
        invariant
            i <= state.voters.len(),
            voters@ == state.voters@.take(i as int),
        decreases state.voters.len() - i,
    {
        let voter: VoterState = state.voters[i].1;
        voters.push((state.voters[i].0, VoterState::new(voter.weight, voter.voted, voter.vote)));
        i += 1;
    }

    let mut proposals: Vec<(ProposalId, Proposal)> = Vec::new();
    let mut k: usize = 0;
    while k < state.proposals.len()
        invariant
            k <= state.proposals.len() <= ID_SPACE,
            proposals.len() == k,
            forall|j: int|
                0 <= j < k ==> (#[trigger] proposals[j]).0 == j && proposals[j].1@
                    == state.proposals[j]@,
        decreases state.proposals.len() - k,
    {
        let proposal: &Proposal = &state.proposals[k];
        let listed = Proposal::new(proposal.name.clone(), proposal.vote_count);
        proposals.push((k as ProposalId, listed));
        k += 1;
    }

    let mut winning_proposal_id: Vec<ProposalId> = Vec::new();
    let mut w: usize = 0;
    while w < state.winning_proposal_id.len()
        invariant
            w <= state.winning_proposal_id.len(),
            winning_proposal_id@ == state.winning_proposal_id@.take(w as int),
        decreases state.winning_proposal_id.len() - w,
    {
        winning_proposal_id.push(state.winning_proposal_id[w]);
        w += 1;
    }

    let view = ViewState {
        voters,
        proposals,
        status: state.status,
        winning_proposal_id,
        title: state.title.clone(),
        description: state.description.clone(),
        expiry: state.expiry,
    };
    view
}

} // verus!
