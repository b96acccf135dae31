use e_voting::addressing::{derive_proposal_address, derive_vote_address, Address};
use e_voting::ledger::{try_create, vote_no, vote_yes, Ledger};
use e_voting::state::{AddVote, CreateProposal, EVotingError, VoteType};

fn addr(tag: u8) -> Address {
    Address([tag; 32])
}

fn program_id() -> Address {
    addr(7)
}

fn new_ledger() -> Ledger {
    Ledger::new(program_id())
}

fn create_ok(ledger: &mut Ledger, creator: Address, discriminator: u64, text: &str) -> Address {
    try_create(
        ledger,
        CreateProposal { user: creator, discriminator },
        text.to_string(),
    )
    .expect("a proposal key derives for these seeds")
    .expect("creation succeeds")
}

#[test]
fn create_within_cap_round_trips() {
    let mut ledger = new_ledger();
    let creator = addr(1);
    let proposal = create_ok(&mut ledger, creator, 0, "Upgrade v2");
    let stored = ledger.get_proposal(&proposal).expect("the record exists");
    assert_eq!(stored.description, "Upgrade v2");
    assert_eq!(stored.yes_votes, 0);
    assert_eq!(stored.no_votes, 0);
    assert!(stored.ongoing);
    assert_eq!(stored.owner, creator);
    assert_eq!(ledger.proposal_count(), 1);
}

#[test]
fn create_at_exact_cap_succeeds() {
    let mut ledger = new_ledger();
    let text: String = "x".repeat(50);
    assert_eq!(text.len(), 50);
    let proposal = create_ok(&mut ledger, addr(1), 0, &text);
    let stored = ledger.get_proposal(&proposal).expect("the record exists");
    assert_eq!(stored.description, text);
}

#[test]
fn create_with_empty_description_succeeds() {
    let mut ledger = new_ledger();
    let proposal = create_ok(&mut ledger, addr(1), 0, "");
    let stored = ledger.get_proposal(&proposal).expect("the record exists");
    assert_eq!(stored.description, "");
}

#[test]
fn create_over_cap_fails_and_persists_nothing() {
    let mut ledger = new_ledger();
    let creator = addr(1);
    let text: String = "y".repeat(51);
    assert_eq!(text.as_bytes().len(), 51);
    let r = try_create(
        &mut ledger,
        CreateProposal { user: creator, discriminator: 0 },
        text,
    )
    .expect("a proposal key derives for these seeds");
    assert_eq!(r, Err(EVotingError::DescriptionTooLong));
    // no record exists at the key the proposal would have been stored under
    let (would_be, _bump) = derive_proposal_address(&program_id(), &creator, 0)
        .expect("a proposal key derives for these seeds");
    assert!(ledger.get_proposal(&would_be).is_none());
    assert_eq!(ledger.proposal_count(), 0);
}

#[test]
fn create_twice_at_same_key_fails() {
    let mut ledger = new_ledger();
    let creator = addr(1);
    create_ok(&mut ledger, creator, 3, "first");
    let r = try_create(
        &mut ledger,
        CreateProposal { user: creator, discriminator: 3 },
        "second".to_string(),
    )
    .expect("a proposal key derives for these seeds");
    assert_eq!(r, Err(EVotingError::AlreadyExists));
    assert_eq!(ledger.proposal_count(), 1);
    // the stored record still holds the first description
    let (key, _bump) = derive_proposal_address(&program_id(), &creator, 3)
        .expect("a proposal key derives for these seeds");
    let stored = ledger.get_proposal(&key).expect("the record exists");
    assert_eq!(stored.description, "first");
}

#[test]
fn fresh_discriminator_reuses_title() {
    let mut ledger = new_ledger();
    let creator = addr(1);
    let first = create_ok(&mut ledger, creator, 0, "same title");
    let second = create_ok(&mut ledger, creator, 1, "same title");
    assert_ne!(first, second);
    assert_eq!(ledger.proposal_count(), 2);
}

#[test]
fn derivation_is_deterministic_and_tagged() {
    let creator = addr(1);
    let again = derive_proposal_address(&program_id(), &creator, 9)
        .expect("a proposal key derives for these seeds");
    let once = derive_proposal_address(&program_id(), &creator, 9)
        .expect("a proposal key derives for these seeds");
    assert_eq!(once, again);
    // the derived address is a digest, not any of the inputs handed in
    assert_ne!(once.0, creator);
    assert_ne!(once.0, program_id());
    // a different discriminator lands elsewhere
    let other = derive_proposal_address(&program_id(), &creator, 10)
        .expect("a proposal key derives for these seeds");
    assert_ne!(once.0, other.0);
    // vote keys live in their own namespace: same parts, different tag
    let vote_slot = derive_vote_address(&program_id(), &creator, &once.0)
        .expect("a vote key derives for these seeds");
    assert_ne!(vote_slot.0, once.0);
}

#[test]
fn yes_vote_increments_only_yes() {
    let mut ledger = new_ledger();
    let proposal = create_ok(&mut ledger, addr(1), 0, "Upgrade v2");
    let voter = addr(2);
    let vote_addr = vote_yes(
        &mut ledger,
        AddVote { user: voter, proposal },
        "sounds good".to_string(),
    )
    .expect("a vote key derives for this pair")
    .expect("the vote succeeds");
    let stored = ledger.get_proposal(&proposal).expect("the record exists");
    assert_eq!(stored.yes_votes, 1);
    assert_eq!(stored.no_votes, 0);
    let record = ledger.get_vote(&vote_addr).expect("the vote record exists");
    assert_eq!(record.user, voter);
    assert_eq!(record.proposal, proposal);
    assert_eq!(record.vote, VoteType::YesVote);
    assert_eq!(record.description, "sounds good");
}

#[test]
fn no_vote_increments_only_no() {
    let mut ledger = new_ledger();
    let proposal = create_ok(&mut ledger, addr(1), 0, "Upgrade v2");
    let vote_addr = vote_no(
        &mut ledger,
        AddVote { user: addr(2), proposal },
        String::new(),
    )
    .expect("a vote key derives for this pair")
    .expect("the vote succeeds");
    let stored = ledger.get_proposal(&proposal).expect("the record exists");
    assert_eq!(stored.yes_votes, 0);
    assert_eq!(stored.no_votes, 1);
    let record = ledger.get_vote(&vote_addr).expect("the vote record exists");
    assert_eq!(record.vote, VoteType::NoVote);
}

#[test]
fn voting_scenario_one_vote_per_voter() {
    let mut ledger = new_ledger();
    let a = addr(1);
    let b = addr(2);
    let c = addr(3);
    let proposal = create_ok(&mut ledger, a, 0, "Upgrade v2");

    let yes_by_b = vote_yes(
        &mut ledger,
        AddVote { user: b, proposal },
        String::new(),
    )
    .expect("a vote key derives for this pair");
    assert!(yes_by_b.is_ok());

    let no_by_c = vote_no(
        &mut ledger,
        AddVote { user: c, proposal },
        String::new(),
    )
    .expect("a vote key derives for this pair");
    assert!(no_by_c.is_ok());

    // b already voted: the second attempt collides at the derived key
    let again_by_b = vote_yes(
        &mut ledger,
        AddVote { user: b, proposal },
        String::new(),
    )
    .expect("a vote key derives for this pair");
    assert_eq!(again_by_b, Err(EVotingError::DuplicatedVoteNotAllowed));

    let stored = ledger.get_proposal(&proposal).expect("the record exists");
    assert_eq!(stored.yes_votes, 1);
    assert_eq!(stored.no_votes, 1);
    assert_eq!(ledger.vote_count(), 2);
}

#[test]
fn duplicate_vote_changes_neither_counter() {
    let mut ledger = new_ledger();
    let proposal = create_ok(&mut ledger, addr(1), 0, "Upgrade v2");
    let voter = addr(2);
    vote_yes(&mut ledger, AddVote { user: voter, proposal }, String::new())
        .expect("a vote key derives for this pair")
        .expect("the first vote succeeds");
    // a second attempt with the other choice fails all the same
    let r = vote_no(&mut ledger, AddVote { user: voter, proposal }, String::new())
        .expect("a vote key derives for this pair");
    assert_eq!(r, Err(EVotingError::DuplicatedVoteNotAllowed));
    let stored = ledger.get_proposal(&proposal).expect("the record exists");
    assert_eq!(stored.yes_votes, 1);
    assert_eq!(stored.no_votes, 0);
    assert_eq!(ledger.vote_count(), 1);
}

#[test]
fn closed_session_rejects_every_vote() {
    let mut ledger = new_ledger();
    let proposal = create_ok(&mut ledger, addr(1), 0, "Upgrade v2");
    // no operation closes a session, so inject the state directly
    ledger.proposals[0].1.ongoing = false;
    let yes = vote_yes(
        &mut ledger,
        AddVote { user: addr(2), proposal },
        String::new(),
    )
    .expect("a vote key derives for this pair");
    assert_eq!(yes, Err(EVotingError::VotingSessionIsClosed));
    let no = vote_no(
        &mut ledger,
        AddVote { user: addr(3), proposal },
        String::new(),
    )
    .expect("a vote key derives for this pair");
    assert_eq!(no, Err(EVotingError::VotingSessionIsClosed));
    let stored = ledger.get_proposal(&proposal).expect("the record exists");
    assert_eq!(stored.yes_votes, 0);
    assert_eq!(stored.no_votes, 0);
    assert_eq!(ledger.vote_count(), 0);
}

#[test]
fn yes_counter_at_max_rejects_yes_vote() {
    let mut ledger = new_ledger();
    let proposal = create_ok(&mut ledger, addr(1), 0, "Upgrade v2");
    // the counter cannot be driven there through the surface; inject it
    ledger.proposals[0].1.yes_votes = u32::MAX;
    let r = vote_yes(
        &mut ledger,
        AddVote { user: addr(2), proposal },
        String::new(),
    )
    .expect("a vote key derives for this pair");
    assert_eq!(r, Err(EVotingError::MaxYesVotesReached));
    assert_eq!(ledger.vote_count(), 0);
    // the other counter still accepts votes
    let no = vote_no(
        &mut ledger,
        AddVote { user: addr(2), proposal },
        String::new(),
    )
    .expect("a vote key derives for this pair");
    assert!(no.is_ok());
    let stored = ledger.get_proposal(&proposal).expect("the record exists");
    assert_eq!(stored.yes_votes, u32::MAX);
    assert_eq!(stored.no_votes, 1);
}

#[test]
fn no_counter_at_max_rejects_no_vote() {
    let mut ledger = new_ledger();
    let proposal = create_ok(&mut ledger, addr(1), 0, "Upgrade v2");
    ledger.proposals[0].1.no_votes = u32::MAX;
    let r = vote_no(
        &mut ledger,
        AddVote { user: addr(2), proposal },
        String::new(),
    )
    .expect("a vote key derives for this pair");
    assert_eq!(r, Err(EVotingError::MaxNoVotesReached));
    assert_eq!(ledger.vote_count(), 0);
}

#[test]
fn votes_on_distinct_proposals_are_independent() {
    let mut ledger = new_ledger();
    let first = create_ok(&mut ledger, addr(1), 0, "first");
    let second = create_ok(&mut ledger, addr(1), 1, "second");
    let voter = addr(2);
    // one voter may vote once on each proposal
    vote_yes(&mut ledger, AddVote { user: voter, proposal: first }, String::new())
        .expect("a vote key derives for this pair")
        .expect("the vote succeeds");
    vote_no(&mut ledger, AddVote { user: voter, proposal: second }, String::new())
        .expect("a vote key derives for this pair")
        .expect("the vote succeeds");
    assert_eq!(ledger.get_proposal(&first).unwrap().yes_votes, 1);
    assert_eq!(ledger.get_proposal(&second).unwrap().no_votes, 1);
    assert_eq!(ledger.vote_count(), 2);
}
