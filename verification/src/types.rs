//! The plain data of the ledger: identities, voter records, proposals, the
//! agenda status and the errors an operation can end in.

use vstd::prelude::*;

verus! {

/// A proposal is identified by its position in the list the agenda was
/// created from.
pub type ProposalId = u8;

/// The number of votes (sum of weights) a proposal has collected.
pub type VoteCount = u32;

/// A point in time, in milliseconds since the Unix epoch.
pub type Timestamp = u64;

/// The address of an account, as raw bytes.
#[derive(Clone, Copy, Debug)]
pub struct AccountAddress(pub [u8; 32]);

impl PartialEq for AccountAddress {
    fn eq(&self, other: &Self) -> (r: bool) {
        let mut i: usize = 0;
        while i < 32
            invariant
                i <= 32,
                forall|j: int| 0 <= j < i ==> self.0[j] == other.0[j],
            decreases 32 - i,
        {
            if self.0[i] != other.0[i] {
                return false;
            }
            i += 1;
        }
        proof {
            assert(self.0 =~= other.0);
        }
        true
    }
}

impl Eq for AccountAddress {

}

impl vstd::std_specs::cmp::PartialEqSpecImpl for AccountAddress {
    open spec fn obeys_eq_spec() -> bool {
        true
    }

    open spec fn eq_spec(&self, other: &Self) -> bool {
        *self == *other
    }
}

/// The address of a contract instance.
#[derive(Clone, Copy, Debug, PartialEq, Eq, Structural)]
pub struct ContractAddress {
    pub index: u64,
    pub subindex: u64,
}

/// Who an operation is attributed to: an account or a contract instance.
#[derive(Clone, Copy, Debug, PartialEq, Eq)]
pub enum Address {
    Account(AccountAddress),
    Contract(ContractAddress),
}

/// What the ledger knows about one account.
///
/// A record that was never written is the same as the default one: weight
/// zero, not voted, vote zero. While `voted` is false the fields `weight`
/// and `vote` have no effect on any count.
#[derive(Clone, Copy, Debug, PartialEq, Eq, Structural)]
pub struct VoterState {
    pub weight: u32,
    pub voted: bool,
    pub vote: ProposalId,
}

impl VoterState {
    pub fn new(weight: u32, voted: bool, vote: ProposalId) -> (r: Self)
        ensures
            r == (VoterState { weight, voted, vote }),
    {
        VoterState { weight, voted, vote }
    }

    /// The record of an account that the ledger has never seen.
    pub open spec fn absent() -> VoterState {
        VoterState { weight: 0, voted: false, vote: 0 }
    }

    /// The weight this record adds to the count of proposal `id`.
    pub open spec fn share(self, id: int) -> nat {
        if self.voted && self.vote == id {
            self.weight as nat
        } else {
            0
        }
    }
}

impl Default for VoterState {
    fn default() -> (r: Self)
        ensures
            r == VoterState::absent(),
    {
        VoterState { weight: 0, voted: false, vote: 0 }
    }
}

/// A named option together with the votes it has collected.
#[derive(Clone, Debug, PartialEq, Eq)]
pub struct Proposal {
    pub name: String,
    pub vote_count: VoteCount,
}

/// A proposal as the contracts see it.
pub struct ProposalView {
    pub name: Seq<char>,
    pub vote_count: nat,
}

impl View for Proposal {
    type V = ProposalView;

    open spec fn view(&self) -> ProposalView {
        ProposalView { name: self.name@, vote_count: self.vote_count as nat }
    }
}

impl Proposal {
    pub fn new(name: String, vote_count: VoteCount) -> (r: Self)
        ensures
            r.name == name,
            r.vote_count == vote_count,
    {
        Proposal { name, vote_count }
    }
}

impl Default for Proposal {
    fn default() -> (r: Self)
        ensures
            r.name@ == Seq::<char>::empty(),
            r.vote_count == 0,
    {
        Proposal { name: String::new(), vote_count: 0 }
    }
}

/// Whether the agenda still takes votes or has been tallied.
#[derive(Clone, Copy, Debug, PartialEq, Eq, Structural)]
pub enum Status {
    InProcess,
    Finished,
}

/// The ways an operation on the agenda can fail.
#[derive(Clone, Copy, Debug, PartialEq, Eq, Structural)]
pub enum ContractError {
    /// The parameter of the operation could not be decoded.
    ParseParams,
    /// The event log is full.
    LogFull,
    /// An event could not be logged.
    LogMalformed,
    /// The agenda has been tallied.
    AlreadyFinished,
    /// The deadline for voting has passed.
    Expired,
    /// The account has no voter record.
    VoterIsNotFound,
    /// The account has no vote to withdraw.
    NotVoted,
    /// No proposal has the given identifier.
    ProposalIsNotFound,
    /// The operation was sent by a contract, not by an account.
    ContractSender,
}

pub type ContractResult = Result<(), ContractError>;

} // verus!
