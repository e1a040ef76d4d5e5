use govote_voting::ledger::winning_ids;
use govote_voting::{
    cancel_vote, contract_view, contract_vote, contract_winning_proposal, AccountAddress, Address,
    ContractAddress, ContractError, Proposal, ProposalId, State, Status, Timestamp, ViewState,
    VoterState,
};

const EXPIRY: Timestamp = 1_000;

fn account(tag: u8) -> AccountAddress {
    AccountAddress([tag; 32])
}

fn from_account(tag: u8) -> Address {
    Address::Account(account(tag))
}

fn from_contract() -> Address {
    Address::Contract(ContractAddress { index: 7, subindex: 0 })
}

fn agenda(names: &[&str]) -> State {
    State::empty(
        "Budget".to_string(),
        "How to spend it".to_string(),
        names.iter().map(|name| name.to_string()).collect(),
        EXPIRY,
    )
}

fn counts(state: &State) -> Vec<u32> {
    contract_view(state).proposals.iter().map(|(_, proposal)| proposal.vote_count).collect()
}

/// An agenda whose proposals hold the given counts, each vote from its own
/// account.
fn agenda_with_counts(wanted: &[u32]) -> State {
    let names: Vec<String> = (0..wanted.len()).map(|i| format!("option {}", i)).collect();
    let mut state =
        State::empty("Budget".to_string(), "How to spend it".to_string(), names, EXPIRY);
    let mut tag: u8 = 0;
    for (id, votes) in wanted.iter().enumerate() {
        for _ in 0..*votes {
            assert_eq!(contract_vote(&mut state, &from_account(tag), id as ProposalId, 0), Ok(()));
            tag += 1;
        }
    }
    assert_eq!(counts(&state), wanted.to_vec());
    state
}

/// The sum of the weights of the records that hold a vote for `id`.
fn weight_behind(view: &ViewState, id: ProposalId) -> u32 {
    view.voters
        .iter()
        .filter(|(_, record)| record.voted && record.vote == id)
        .map(|(_, record)| record.weight)
        .sum()
}

fn assert_conserved(state: &State) {
    let view = contract_view(state);
    for (id, proposal) in view.proposals.iter() {
        assert_eq!(proposal.vote_count, weight_behind(&view, *id));
    }
}

#[test]
fn voter_state_new_keeps_its_fields() {
    let record = VoterState::new(3, true, 9);
    assert_eq!(record, VoterState { weight: 3, voted: true, vote: 9 });
}

#[test]
fn voter_state_default_is_the_absent_record() {
    assert_eq!(VoterState::default(), VoterState { weight: 0, voted: false, vote: 0 });
}

#[test]
fn proposal_new_keeps_its_fields() {
    let proposal = Proposal::new("parks".to_string(), 4);
    assert_eq!(proposal.name, "parks");
    assert_eq!(proposal.vote_count, 4);
    assert_eq!(Proposal::default(), Proposal::new(String::new(), 0));
}

#[test]
fn account_addresses_compare_by_their_bytes() {
    let mut bytes = [0u8; 32];
    bytes[31] = 1;
    assert_eq!(account(5), AccountAddress([5; 32]));
    assert_ne!(AccountAddress([0; 32]), AccountAddress(bytes));
}

#[test]
fn fresh_agenda_lists_its_proposals_in_order() {
    let state = agenda(&["parks", "roads", "schools"]);
    let view = contract_view(&state);
    assert_eq!(
        view,
        ViewState {
            voters: vec![],
            proposals: vec![
                (0, Proposal::new("parks".to_string(), 0)),
                (1, Proposal::new("roads".to_string(), 0)),
                (2, Proposal::new("schools".to_string(), 0)),
            ],
            status: Status::InProcess,
            winning_proposal_id: vec![],
            title: "Budget".to_string(),
            description: "How to spend it".to_string(),
            expiry: EXPIRY,
        }
    );
    assert_eq!(state.status(), Status::InProcess);
}

#[test]
fn fresh_agenda_without_proposals() {
    let state = agenda(&[]);
    let view = contract_view(&state);
    assert!(view.proposals.is_empty());
    assert!(view.voters.is_empty());
    assert_eq!(state.vote_count(0), None);
}

#[test]
fn fresh_agenda_holds_all_256_identifiers() {
    let names: Vec<String> = (0..256).map(|i| format!("option {}", i)).collect();
    let state = State::empty(String::new(), String::new(), names, EXPIRY);
    let view = contract_view(&state);
    assert_eq!(view.proposals.len(), 256);
    assert_eq!(view.proposals[255], (255, Proposal::new("option 255".to_string(), 0)));
    assert_eq!(view.proposals[0], (0, Proposal::new("option 0".to_string(), 0)));
}

#[test]
fn names_beyond_the_identifiers_rename_the_first_proposals() {
    let names: Vec<String> = (0..258).map(|i| format!("option {}", i)).collect();
    let state = State::empty(String::new(), String::new(), names, EXPIRY);
    let view = contract_view(&state);
    assert_eq!(view.proposals.len(), 256);
    assert_eq!(view.proposals[0], (0, Proposal::new("option 256".to_string(), 0)));
    assert_eq!(view.proposals[1], (1, Proposal::new("option 257".to_string(), 0)));
    assert_eq!(view.proposals[2], (2, Proposal::new("option 2".to_string(), 0)));
    assert_eq!(view.proposals[255], (255, Proposal::new("option 255".to_string(), 0)));
}

#[test]
fn first_vote_writes_the_record_and_counts_one() {
    let mut state = agenda(&["parks", "roads"]);
    assert_eq!(state.voter(&account(1)), VoterState::default());
    assert_eq!(contract_vote(&mut state, &from_account(1), 1, 10), Ok(()));
    assert_eq!(counts(&state), vec![0, 1]);
    assert_eq!(state.voter(&account(1)), VoterState { weight: 1, voted: true, vote: 1 });
    assert_eq!(state.vote_count(1), Some(1));
    assert_eq!(state.vote_count(2), None);
    let view = contract_view(&state);
    assert_eq!(view.voters, vec![(account(1), VoterState { weight: 1, voted: true, vote: 1 })]);
    assert_eq!(view.status, Status::InProcess);
    assert!(view.winning_proposal_id.is_empty());
}

#[test]
fn voters_are_listed_in_the_order_of_their_first_vote() {
    let mut state = agenda(&["parks", "roads"]);
    assert_eq!(contract_vote(&mut state, &from_account(9), 0, 0), Ok(()));
    assert_eq!(contract_vote(&mut state, &from_account(3), 1, 0), Ok(()));
    assert_eq!(contract_vote(&mut state, &from_account(9), 1, 0), Ok(()));
    let view = contract_view(&state);
    assert_eq!(
        view.voters,
        vec![
            (account(9), VoterState { weight: 1, voted: true, vote: 1 }),
            (account(3), VoterState { weight: 1, voted: true, vote: 1 }),
        ]
    );
}

#[test]
fn counts_are_the_weights_behind_them_after_every_step() {
    let mut state = agenda(&["parks", "roads", "schools"]);
    assert_conserved(&state);
    let steps: [(u8, Option<ProposalId>); 9] = [
        (1, Some(0)),
        (2, Some(0)),
        (3, Some(2)),
        (1, Some(2)),
        (2, None),
        (4, Some(1)),
        (2, Some(1)),
        (3, None),
        (1, Some(2)),
    ];
    for (tag, step) in steps {
        match step {
            Some(id) => assert_eq!(contract_vote(&mut state, &from_account(tag), id, 5), Ok(())),
            None => assert_eq!(cancel_vote(&mut state, &from_account(tag), 5), Ok(())),
        }
        assert_conserved(&state);
    }
    assert_eq!(counts(&state), vec![0, 2, 1]);
    assert_eq!(contract_winning_proposal(&mut state), Ok(()));
    assert_conserved(&state);
}

#[test]
fn all_counts_together_are_the_weights_of_the_standing_votes() {
    let mut state = agenda(&["parks", "roads", "schools"]);
    for (tag, id) in [(1, 0), (2, 1), (3, 1), (1, 2), (4, 2), (2, 2)] {
        assert_eq!(contract_vote(&mut state, &from_account(tag), id, 5), Ok(()));
    }
    assert_eq!(cancel_vote(&mut state, &from_account(3), 5), Ok(()));
    let view = contract_view(&state);
    let total: u32 = view.proposals.iter().map(|(_, proposal)| proposal.vote_count).sum();
    let standing: u32 = view
        .voters
        .iter()
        .filter(|(_, record)| record.voted)
        .map(|(_, record)| record.weight)
        .sum();
    assert_eq!(total, 3);
    assert_eq!(standing, 3);
    assert_eq!(counts(&state), vec![0, 0, 3]);
}

#[test]
fn voting_twice_for_one_proposal_changes_nothing() {
    let mut state = agenda(&["parks", "roads"]);
    assert_eq!(contract_vote(&mut state, &from_account(1), 0, 1), Ok(()));
    assert_eq!(contract_vote(&mut state, &from_account(2), 1, 1), Ok(()));
    let once = contract_view(&state);
    assert_eq!(contract_vote(&mut state, &from_account(1), 0, 2), Ok(()));
    assert_eq!(contract_view(&state), once);
    assert_eq!(counts(&state), vec![1, 1]);
}

#[test]
fn switching_moves_one_vote_from_the_old_proposal_to_the_new() {
    let mut state = agenda(&["parks", "roads", "schools"]);
    assert_eq!(contract_vote(&mut state, &from_account(1), 0, 1), Ok(()));
    assert_eq!(contract_vote(&mut state, &from_account(2), 0, 1), Ok(()));
    assert_eq!(contract_vote(&mut state, &from_account(3), 2, 1), Ok(()));
    assert_eq!(counts(&state), vec![2, 0, 1]);
    assert_eq!(contract_vote(&mut state, &from_account(1), 1, 1), Ok(()));
    assert_eq!(counts(&state), vec![1, 1, 1]);
    assert_eq!(state.voter(&account(1)), VoterState { weight: 1, voted: true, vote: 1 });
}

#[test]
fn vote_for_a_missing_proposal_is_refused() {
    let mut state = agenda(&["parks", "roads"]);
    let before = contract_view(&state);
    assert_eq!(
        contract_vote(&mut state, &from_account(1), 2, 1),
        Err(ContractError::ProposalIsNotFound)
    );
    assert_eq!(
        contract_vote(&mut state, &from_account(1), 255, 1),
        Err(ContractError::ProposalIsNotFound)
    );
    assert_eq!(contract_view(&state), before);
}

#[test]
fn vote_at_the_deadline_is_taken_and_after_it_refused() {
    let mut state = agenda(&["parks", "roads"]);
    assert_eq!(contract_vote(&mut state, &from_account(1), 0, EXPIRY), Ok(()));
    let before = contract_view(&state);
    assert_eq!(
        contract_vote(&mut state, &from_account(2), 0, EXPIRY + 1),
        Err(ContractError::Expired)
    );
    assert_eq!(contract_view(&state), before);
    assert_eq!(counts(&state), vec![1, 0]);
}

#[test]
fn vote_after_the_tally_is_refused() {
    let mut state = agenda(&["parks", "roads"]);
    assert_eq!(contract_winning_proposal(&mut state), Ok(()));
    let before = contract_view(&state);
    assert_eq!(
        contract_vote(&mut state, &from_account(1), 0, 1),
        Err(ContractError::AlreadyFinished)
    );
    assert_eq!(contract_view(&state), before);
}

#[test]
fn vote_sent_by_a_contract_is_refused() {
    let mut state = agenda(&["parks", "roads"]);
    let before = contract_view(&state);
    assert_eq!(
        contract_vote(&mut state, &from_contract(), 0, 1),
        Err(ContractError::ContractSender)
    );
    assert_eq!(contract_view(&state), before);
}

#[test]
fn the_first_failing_check_of_a_vote_decides() {
    let mut state = agenda(&["parks", "roads"]);
    assert_eq!(
        contract_vote(&mut state, &from_contract(), 1, EXPIRY + 1),
        Err(ContractError::Expired)
    );
    assert_eq!(contract_winning_proposal(&mut state), Ok(()));
    assert_eq!(
        contract_vote(&mut state, &from_contract(), 1, EXPIRY + 1),
        Err(ContractError::AlreadyFinished)
    );
    assert_eq!(
        contract_vote(&mut state, &from_contract(), 2, EXPIRY + 1),
        Err(ContractError::ProposalIsNotFound)
    );
}

#[test]
fn cancel_takes_the_vote_out_and_keeps_the_weight() {
    let mut state = agenda(&["parks", "roads"]);
    assert_eq!(contract_vote(&mut state, &from_account(1), 1, 1), Ok(()));
    assert_eq!(contract_vote(&mut state, &from_account(2), 1, 1), Ok(()));
    assert_eq!(cancel_vote(&mut state, &from_account(1), EXPIRY), Ok(()));
    assert_eq!(counts(&state), vec![0, 1]);
    assert_eq!(state.voter(&account(1)), VoterState { weight: 1, voted: false, vote: 0 });
    assert_eq!(state.voter(&account(2)), VoterState { weight: 1, voted: true, vote: 1 });
}

#[test]
fn cancel_then_vote_again_counts_once() {
    let mut state = agenda(&["parks", "roads"]);
    assert_eq!(contract_vote(&mut state, &from_account(1), 0, 1), Ok(()));
    assert_eq!(cancel_vote(&mut state, &from_account(1), 2), Ok(()));
    assert_eq!(counts(&state), vec![0, 0]);
    assert_eq!(contract_vote(&mut state, &from_account(1), 1, 3), Ok(()));
    assert_eq!(counts(&state), vec![0, 1]);
    assert_eq!(contract_view(&state).voters.len(), 1);
    assert_eq!(contract_vote(&mut state, &from_account(1), 0, 4), Ok(()));
    assert_eq!(counts(&state), vec![1, 0]);
    assert_conserved(&state);
}

#[test]
fn cancel_without_a_record_is_refused() {
    let mut state = agenda(&["parks"]);
    assert_eq!(contract_vote(&mut state, &from_account(1), 0, 1), Ok(()));
    let before = contract_view(&state);
    assert_eq!(cancel_vote(&mut state, &from_account(2), 1), Err(ContractError::VoterIsNotFound));
    assert_eq!(contract_view(&state), before);
}

#[test]
fn cancel_twice_is_refused_the_second_time() {
    let mut state = agenda(&["parks"]);
    assert_eq!(contract_vote(&mut state, &from_account(1), 0, 1), Ok(()));
    assert_eq!(cancel_vote(&mut state, &from_account(1), 1), Ok(()));
    let before = contract_view(&state);
    assert_eq!(cancel_vote(&mut state, &from_account(1), 1), Err(ContractError::NotVoted));
    assert_eq!(contract_view(&state), before);
    assert_eq!(counts(&state), vec![0]);
}

#[test]
fn cancel_after_the_deadline_is_refused() {
    let mut state = agenda(&["parks"]);
    assert_eq!(contract_vote(&mut state, &from_account(1), 0, 1), Ok(()));
    assert_eq!(cancel_vote(&mut state, &from_account(1), EXPIRY + 1), Err(ContractError::Expired));
    assert_eq!(counts(&state), vec![1]);
}

#[test]
fn cancel_after_the_tally_is_refused() {
    let mut state = agenda(&["parks"]);
    assert_eq!(contract_vote(&mut state, &from_account(1), 0, 1), Ok(()));
    assert_eq!(contract_winning_proposal(&mut state), Ok(()));
    assert_eq!(
        cancel_vote(&mut state, &from_account(1), 1),
        Err(ContractError::AlreadyFinished)
    );
    assert_eq!(counts(&state), vec![1]);
}

#[test]
fn cancel_sent_by_a_contract_is_refused_in_every_state() {
    let mut state = agenda(&["parks"]);
    assert_eq!(cancel_vote(&mut state, &from_contract(), 1), Err(ContractError::ContractSender));
    assert_eq!(
        cancel_vote(&mut state, &from_contract(), EXPIRY + 1),
        Err(ContractError::ContractSender)
    );
    assert_eq!(contract_winning_proposal(&mut state), Ok(()));
    assert_eq!(
        cancel_vote(&mut state, &from_contract(), EXPIRY + 1),
        Err(ContractError::ContractSender)
    );
}

#[test]
fn the_first_failing_check_of_a_cancel_decides() {
    let mut state = agenda(&["parks"]);
    assert_eq!(cancel_vote(&mut state, &from_account(1), EXPIRY + 1), Err(ContractError::Expired));
    assert_eq!(contract_winning_proposal(&mut state), Ok(()));
    assert_eq!(
        cancel_vote(&mut state, &from_account(1), EXPIRY + 1),
        Err(ContractError::AlreadyFinished)
    );
}

#[test]
fn tally_finds_both_proposals_of_a_tie() {
    let mut state = agenda_with_counts(&[3, 5, 5, 2]);
    assert_eq!(contract_winning_proposal(&mut state), Ok(()));
    let view = contract_view(&state);
    assert_eq!(view.winning_proposal_id, vec![1, 2]);
    assert_eq!(view.status, Status::Finished);
    assert_eq!(state.status(), Status::Finished);
    assert_eq!(counts(&state), vec![3, 5, 5, 2]);
}

#[test]
fn tally_without_votes_lets_every_proposal_win() {
    let mut state = agenda(&["parks", "roads", "schools"]);
    assert_eq!(contract_winning_proposal(&mut state), Ok(()));
    assert_eq!(contract_view(&state).winning_proposal_id, vec![0, 1, 2]);
}

#[test]
fn tally_finds_a_single_winner() {
    let mut state = agenda_with_counts(&[1, 0, 4, 2]);
    assert_eq!(contract_winning_proposal(&mut state), Ok(()));
    assert_eq!(contract_view(&state).winning_proposal_id, vec![2]);
}

#[test]
fn tally_without_proposals_has_no_winner() {
    let mut state = agenda(&[]);
    assert_eq!(contract_winning_proposal(&mut state), Ok(()));
    let view = contract_view(&state);
    assert!(view.winning_proposal_id.is_empty());
    assert_eq!(view.status, Status::Finished);
}

#[test]
fn second_tally_is_refused_and_keeps_the_winners() {
    let mut state = agenda_with_counts(&[2, 1]);
    assert_eq!(contract_winning_proposal(&mut state), Ok(()));
    let first = contract_view(&state);
    assert_eq!(first.winning_proposal_id, vec![0]);
    assert_eq!(contract_winning_proposal(&mut state), Err(ContractError::AlreadyFinished));
    assert_eq!(contract_winning_proposal(&mut state), Err(ContractError::AlreadyFinished));
    assert_eq!(contract_view(&state), first);
}

#[test]
fn winning_ids_of_plain_counts() {
    let proposals = |wanted: &[u32]| -> Vec<Proposal> {
        wanted.iter().map(|votes| Proposal::new(String::new(), *votes)).collect()
    };
    assert_eq!(winning_ids(&proposals(&[3, 5, 5, 2])), vec![1, 2]);
    assert_eq!(winning_ids(&proposals(&[0, 0, 0])), vec![0, 1, 2]);
    assert_eq!(winning_ids(&proposals(&[7])), vec![0]);
    assert_eq!(winning_ids(&proposals(&[1, 2, 3, 4])), vec![3]);
    assert_eq!(winning_ids(&proposals(&[4, 3, 4, 1, 4])), vec![0, 2, 4]);
    assert_eq!(winning_ids(&proposals(&[u32::MAX, 0, u32::MAX])), vec![0, 2]);
    assert_eq!(winning_ids(&proposals(&[])), Vec::<ProposalId>::new());
}

#[test]
fn view_leaves_the_agenda_as_it_is() {
    let mut state = agenda(&["parks", "roads"]);
    assert_eq!(contract_vote(&mut state, &from_account(1), 1, 1), Ok(()));
    let first = contract_view(&state);
    let second = contract_view(&state);
    assert_eq!(first, second);
    assert_eq!(first.title, "Budget");
    assert_eq!(first.description, "How to spend it");
    assert_eq!(first.expiry, EXPIRY);
}
