//! A voting ledger for one agenda: a fixed list of proposals, one weighted
//! vote per account that can be cast, moved and withdrawn while the agenda is
//! in process, and a single tally that fixes the set of winning proposals.

pub mod invariants;
pub mod laws;
pub mod ledger;
pub mod model;
pub mod state;
pub mod types;

pub use crate::state::{
    cancel_vote, contract_view, contract_vote, contract_winning_proposal, State, ViewState,
};
pub use crate::types::{
    AccountAddress, Address, ContractAddress, ContractError, ContractResult, Proposal, ProposalId,
    Status, Timestamp, VoteCount, VoterState,
};
