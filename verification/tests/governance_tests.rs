use learn_protocol::governance::{cast_ballot, conclude};
use learn_protocol::{Address, BadgeNFT, Governance, GovernanceError, Proposal};

fn addr(tag: u8) -> Address {
    Address::new(vec![b'G', b'C', tag])
}

fn setup() -> (Governance, BadgeNFT, Address) {
    let governance = Governance::new();
    let badges = BadgeNFT::new();
    let badge_contract = Address::new(vec![b'C', b'B']);
    (governance, badges, badge_contract)
}

fn dummy_hash() -> [u8; 32] {
    [7u8; 32]
}

fn seed_proposal(governance: &mut Governance, proposal_id: u32, proposer: &Address) {
    governance.store_proposal(Proposal {
        id: proposal_id,
        proposer: proposer.clone(),
        metadata_hash: dummy_hash(),
        votes_for: 0,
        votes_against: 0,
        end_time: 1_000,
        executed: false,
    });
}

fn or_panic<T>(r: Result<T, GovernanceError>) -> T {
    match r {
        Ok(v) => v,
        Err(e) => panic!("{}", e.message()),
    }
}

fn mint(badges: &mut BadgeNFT, admin: &Address, learner: &Address, course_id: u32) {
    assert!(badges.mint_badge(admin, learner.clone(), course_id, 0).is_ok());
}

fn vote(governance: &mut Governance, badges: &BadgeNFT, voter: &Address, proposal_id: u32, support: bool) {
    let weight = badges.get_badge_count(voter);
    or_panic(governance.cast_vote(voter, proposal_id, support, weight));
}

#[test]
fn test_cast_vote_uses_badge_count_as_weight() {
    let (mut governance, mut badges, badge_contract) = setup();
    let badge_admin = addr(1);
    let proposer = addr(2);
    let voter = addr(3);

    governance.initialize(badge_contract).unwrap();
    badges.initialize(badge_admin.clone()).unwrap();
    seed_proposal(&mut governance, 1, &proposer);

    mint(&mut badges, &badge_admin, &voter, 101);
    mint(&mut badges, &badge_admin, &voter, 102);
    mint(&mut badges, &badge_admin, &voter, 103);

    vote(&mut governance, &badges, &voter, 1, true);

    let proposal = or_panic(governance.get_proposal(1));
    assert_eq!(proposal.votes_for, 3);
    assert_eq!(proposal.votes_against, 0);

    let recorded = governance.has_voted(&voter, 1);
    assert!(recorded, "vote should be recorded");
}

#[test]
#[should_panic(expected = "Already voted")]
fn test_cast_vote_prevents_double_voting() {
    let (mut governance, mut badges, badge_contract) = setup();
    let badge_admin = addr(1);
    let proposer = addr(2);
    let voter = addr(3);

    governance.initialize(badge_contract).unwrap();
    badges.initialize(badge_admin.clone()).unwrap();
    seed_proposal(&mut governance, 1, &proposer);

    mint(&mut badges, &badge_admin, &voter, 999);

    vote(&mut governance, &badges, &voter, 1, true);
    vote(&mut governance, &badges, &voter, 1, false);
}

#[test]
fn test_execute_proposal_success() {
    let (mut governance, mut badges, badge_contract) = setup();
    let badge_admin = addr(1);
    let proposer = addr(2);
    let voter = addr(3);

    governance.initialize(badge_contract).unwrap();
    badges.initialize(badge_admin.clone()).unwrap();
    seed_proposal(&mut governance, 1, &proposer);

    // Cast votes in favor
    mint(&mut badges, &badge_admin, &voter, 101);
    mint(&mut badges, &badge_admin, &voter, 102);
    vote(&mut governance, &badges, &voter, 1, true);

    // Move time past end_time
    or_panic(governance.execute_proposal(1, 1_001));

    let proposal = or_panic(governance.get_proposal(1));
    assert!(proposal.executed);
    assert_eq!(proposal.votes_for, 2);
    assert_eq!(proposal.votes_against, 0);
}

#[test]
#[should_panic(expected = "Voting still active")]
fn test_execute_proposal_voting_still_active() {
    let (mut governance, mut badges, badge_contract) = setup();
    let badge_admin = addr(1);
    let proposer = addr(2);
    let voter = addr(3);

    governance.initialize(badge_contract).unwrap();
    badges.initialize(badge_admin.clone()).unwrap();
    seed_proposal(&mut governance, 1, &proposer);

    // Cast votes in favor
    mint(&mut badges, &badge_admin, &voter, 101);
    vote(&mut governance, &badges, &voter, 1, true);

    // Time is still before end_time (1_000)
    or_panic(governance.execute_proposal(1, 999));
}

#[test]
#[should_panic(expected = "Proposal rejected")]
fn test_execute_proposal_rejected() {
    let (mut governance, mut badges, badge_contract) = setup();
    let badge_admin = addr(1);
    let proposer = addr(2);
    let voter_for = addr(3);
    let voter_against = addr(4);

    governance.initialize(badge_contract).unwrap();
    badges.initialize(badge_admin.clone()).unwrap();
    seed_proposal(&mut governance, 1, &proposer);

    // Cast votes: 1 for, 2 against
    mint(&mut badges, &badge_admin, &voter_for, 101);
    vote(&mut governance, &badges, &voter_for, 1, true);

    mint(&mut badges, &badge_admin, &voter_against, 201);
    mint(&mut badges, &badge_admin, &voter_against, 202);
    vote(&mut governance, &badges, &voter_against, 1, false);

    // Move time past end_time
    or_panic(governance.execute_proposal(1, 1_001));
}

#[test]
#[should_panic(expected = "Proposal rejected")]
fn test_execute_proposal_tied_vote() {
    let (mut governance, mut badges, badge_contract) = setup();
    let badge_admin = addr(1);
    let proposer = addr(2);
    let voter_for = addr(3);
    let voter_against = addr(4);

    governance.initialize(badge_contract).unwrap();
    badges.initialize(badge_admin.clone()).unwrap();
    seed_proposal(&mut governance, 1, &proposer);

    // Cast votes: 2 for, 2 against (tie)
    mint(&mut badges, &badge_admin, &voter_for, 101);
    mint(&mut badges, &badge_admin, &voter_for, 102);
    vote(&mut governance, &badges, &voter_for, 1, true);

    mint(&mut badges, &badge_admin, &voter_against, 201);
    mint(&mut badges, &badge_admin, &voter_against, 202);
    vote(&mut governance, &badges, &voter_against, 1, false);

    // Move time past end_time
    or_panic(governance.execute_proposal(1, 1_001));
}

#[test]
#[should_panic(expected = "Already executed")]
fn test_execute_proposal_already_executed() {
    let (mut governance, mut badges, badge_contract) = setup();
    let badge_admin = addr(1);
    let proposer = addr(2);
    let voter = addr(3);

    governance.initialize(badge_contract).unwrap();
    badges.initialize(badge_admin.clone()).unwrap();
    seed_proposal(&mut governance, 1, &proposer);

    // Cast votes in favor
    mint(&mut badges, &badge_admin, &voter, 101);
    vote(&mut governance, &badges, &voter, 1, true);

    // Move time past end_time
    or_panic(governance.execute_proposal(1, 1_001));
    or_panic(governance.execute_proposal(1, 1_001)); // Try to execute again
}

#[test]
fn test_execute_proposal_emits_event() {
    let (mut governance, mut badges, badge_contract) = setup();
    let badge_admin = addr(1);
    let proposer = addr(2);
    let voter = addr(3);

    governance.initialize(badge_contract).unwrap();
    badges.initialize(badge_admin.clone()).unwrap();
    seed_proposal(&mut governance, 1, &proposer);

    // Cast votes in favor
    mint(&mut badges, &badge_admin, &voter, 101);
    vote(&mut governance, &badges, &voter, 1, true);

    // Move time past end_time
    let mut events = Vec::new();
    events.push(or_panic(governance.execute_proposal(1, 1_001)));

    // Verify event was emitted
    assert_eq!(events.len(), 1);
    assert_eq!(events[0].proposal_id, 1);
}

#[test]
#[should_panic(expected = "Proposal not found")]
fn test_execute_proposal_nonexistent() {
    let (mut governance, _badges, badge_contract) = setup();

    governance.initialize(badge_contract).unwrap();

    // Move time past end_time
    or_panic(governance.execute_proposal(999, 1_001));
}

#[test]
fn vote_requires_initialization_and_proposal() {
    let (mut governance, _badges, badge_contract) = setup();
    let voter = addr(3);
    assert_eq!(governance.cast_vote(&voter, 1, true, 1), Err(GovernanceError::NotInitialized));
    assert_eq!(GovernanceError::NotInitialized.message(), "Not initialized");
    governance.initialize(badge_contract.clone()).unwrap();
    assert_eq!(governance.initialize(badge_contract), Err(GovernanceError::AlreadyInitialized));
    assert_eq!(governance.cast_vote(&voter, 1, true, 1), Err(GovernanceError::ProposalNotFound));
    assert!(!governance.has_voted(&voter, 1));
    assert!(governance.get_proposal(1).is_err());
}

#[test]
fn votes_are_per_proposal_and_voter() {
    let (mut governance, _badges, badge_contract) = setup();
    governance.initialize(badge_contract).unwrap();
    seed_proposal(&mut governance, 1, &addr(2));
    seed_proposal(&mut governance, 2, &addr(2));
    assert_eq!(governance.cast_vote(&addr(3), 1, true, 4), Ok(()));
    assert_eq!(governance.cast_vote(&addr(3), 2, false, 5), Ok(()));
    assert_eq!(governance.cast_vote(&addr(4), 1, false, 1), Ok(()));
    assert_eq!(governance.cast_vote(&addr(3), 1, false, 9), Err(GovernanceError::AlreadyVoted));
    let p1 = or_panic(governance.get_proposal(1));
    let p2 = or_panic(governance.get_proposal(2));
    assert_eq!((p1.votes_for, p1.votes_against), (4, 1));
    assert_eq!((p2.votes_for, p2.votes_against), (0, 5));
    assert!(governance.has_voted(&addr(3), 2));
    assert!(!governance.has_voted(&addr(4), 2));
}

#[test]
fn voting_period_boundary() {
    let (mut governance, _badges, badge_contract) = setup();
    governance.initialize(badge_contract).unwrap();
    seed_proposal(&mut governance, 1, &addr(2));
    governance.cast_vote(&addr(3), 1, true, 1).unwrap();
    assert_eq!(governance.execute_proposal(1, 1_000).err(), Some(GovernanceError::VotingStillActive));
    assert!(!or_panic(governance.get_proposal(1)).executed);
    assert!(governance.execute_proposal(1, 1_001).is_ok());
}

#[test]
fn ballot_and_conclusion_on_a_proposal() {
    let mut p = Proposal {
        id: 5,
        proposer: addr(1),
        metadata_hash: dummy_hash(),
        votes_for: 1,
        votes_against: 1,
        end_time: 10,
        executed: false,
    };
    assert_eq!(cast_ballot(&mut p, true, true, 3), Err(GovernanceError::AlreadyVoted));
    assert_eq!(p.votes_for, 1);
    assert_eq!(conclude(&mut p, 11).err(), Some(GovernanceError::ProposalRejected));
    assert_eq!(cast_ballot(&mut p, false, true, 3), Ok(()));
    assert_eq!((p.votes_for, p.votes_against), (4, 1));
    assert_eq!(conclude(&mut p, 10).err(), Some(GovernanceError::VotingStillActive));
    let ev = conclude(&mut p, 11).ok().unwrap();
    assert_eq!(ev.proposal_id, 5);
    assert!(p.executed);
    assert_eq!(conclude(&mut p, 12).err(), Some(GovernanceError::AlreadyExecuted));
    assert_eq!(GovernanceError::AlreadyExecuted.message(), "Already executed");
    assert_eq!(GovernanceError::ProposalRejected.message(), "Proposal rejected");
}
