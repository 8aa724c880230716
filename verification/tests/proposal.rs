use aleph_core::proposal::{
    BlockHash, BlockHashNum, UnvalidatedAlephProposal, MAX_DATA_BRANCH_LEN,
};
use aleph_core::session::{SessionBoundaries, SessionId, SessionPeriod};

#[test]
fn too_long_proposal_is_invalid() {
    let session_boundaries = SessionBoundaries::new(SessionId(1), SessionPeriod(20));
    let session_end = session_boundaries.last_block();
    let branch = vec![BlockHash::default(); MAX_DATA_BRANCH_LEN + 1];
    let proposal = UnvalidatedAlephProposal::new(branch, session_end);
    assert_eq!(proposal.validate_bounds(&session_boundaries), None);
}

#[test]
fn proposal_not_within_session_is_invalid() {
    let session_boundaries = SessionBoundaries::new(SessionId(1), SessionPeriod(20));
    let session_start = session_boundaries.first_block();
    let session_end = session_boundaries.last_block();
    let branch = vec![BlockHash::default(); 2];

    let proposal = UnvalidatedAlephProposal::new(branch.clone(), session_start);
    assert_eq!(proposal.validate_bounds(&session_boundaries), None);

    let proposal = UnvalidatedAlephProposal::new(branch, session_end + 1);
    assert_eq!(proposal.validate_bounds(&session_boundaries), None);
}

#[test]
fn proposal_starting_at_zero_block_is_invalid() {
    let session_boundaries = SessionBoundaries::new(SessionId(0), SessionPeriod(20));
    let branch = vec![BlockHash::default(); 2];

    let proposal = UnvalidatedAlephProposal::new(branch, 1);
    assert_eq!(proposal.validate_bounds(&session_boundaries), None);
}

#[test]
fn valid_proposal_is_validated_positively() {
    let session_boundaries = SessionBoundaries::new(SessionId(0), SessionPeriod(20));

    let branch = vec![BlockHash::default(); MAX_DATA_BRANCH_LEN];
    let proposal = UnvalidatedAlephProposal::new(branch, (MAX_DATA_BRANCH_LEN + 1) as u64);
    assert!(proposal.validate_bounds(&session_boundaries).is_some());

    let branch = vec![BlockHash::default(); 1];
    let proposal = UnvalidatedAlephProposal::new(branch, (MAX_DATA_BRANCH_LEN + 1) as u64);
    assert!(proposal.validate_bounds(&session_boundaries).is_some());
}

#[test]
fn session_one_boundaries_and_branch_of_five() {
    let session_boundaries = SessionBoundaries::new(SessionId(1), SessionPeriod(20));
    assert_eq!(session_boundaries.first_block(), 20);
    assert_eq!(session_boundaries.last_block(), 39);

    let branch = vec![BlockHash::default(); 5];
    let proposal = UnvalidatedAlephProposal::new(branch.clone(), 39);
    let validated = proposal
        .validate_bounds(&session_boundaries)
        .expect("a branch of five ending at the session end validates");
    assert_eq!(validated.bottom_block().num, 35);
    assert_eq!(validated.top_block().num, 39);
    assert_eq!(validated.number_below_branch(), 34);
    assert_eq!(validated.len(), 5);

    let proposal = UnvalidatedAlephProposal::new(branch, 40);
    assert_eq!(proposal.validate_bounds(&session_boundaries), None);
}

#[test]
fn longest_branch_is_accepted_at_session_top_and_rejected_above() {
    let session_boundaries = SessionBoundaries::new(SessionId(1), SessionPeriod(20));
    let session_end = session_boundaries.last_block();

    let branch = vec![BlockHash::default(); MAX_DATA_BRANCH_LEN];
    let proposal = UnvalidatedAlephProposal::new(branch, session_end);
    assert!(proposal.validate_bounds(&session_boundaries).is_some());

    for number in [0u64, 1, 20, 39, 40, 1000] {
        let branch = vec![BlockHash::default(); MAX_DATA_BRANCH_LEN + 1];
        let proposal = UnvalidatedAlephProposal::new(branch, number);
        assert_eq!(proposal.validate_bounds(&session_boundaries), None);
    }
}

#[test]
fn empty_branch_is_invalid() {
    let session_boundaries = SessionBoundaries::new(SessionId(1), SessionPeriod(20));
    let proposal = UnvalidatedAlephProposal::new(Vec::new(), 25);
    assert_eq!(proposal.validate_bounds(&session_boundaries), None);
}

#[test]
fn validate_bounds_is_idempotent() {
    let session_boundaries = SessionBoundaries::new(SessionId(1), SessionPeriod(20));
    let branch = vec![BlockHash::default(); 3];
    let proposal = UnvalidatedAlephProposal::new(branch, 30);
    let first = proposal.validate_bounds(&session_boundaries);
    let second = proposal.validate_bounds(&session_boundaries);
    assert!(first.is_some());
    assert_eq!(first, second);

    let rejected = UnvalidatedAlephProposal::new(Vec::new(), 30);
    assert_eq!(
        rejected.validate_bounds(&session_boundaries),
        rejected.validate_bounds(&session_boundaries)
    );
}

#[test]
fn block_at_num_walks_the_branch() {
    let session_boundaries = SessionBoundaries::new(SessionId(1), SessionPeriod(20));
    let mut branch = Vec::new();
    for b in 0..3u8 {
        branch.push(BlockHash([b; 32]));
    }
    let proposal = UnvalidatedAlephProposal::new(branch, 30);
    let validated = proposal
        .validate_bounds(&session_boundaries)
        .expect("a branch of three inside the session validates");
    assert_eq!(validated.number_bottom_block(), 28);
    assert_eq!(validated.number_top_block(), 30);
    assert_eq!(
        validated.block_at_num(28),
        Some(BlockHashNum { hash: BlockHash([0; 32]), num: 28 })
    );
    assert_eq!(
        validated.block_at_num(29),
        Some(BlockHashNum { hash: BlockHash([1; 32]), num: 29 })
    );
    assert_eq!(
        validated.block_at_num(30),
        Some(BlockHashNum { hash: BlockHash([2; 32]), num: 30 })
    );
    assert_eq!(validated.block_at_num(27), None);
    assert_eq!(validated.block_at_num(31), None);
}

#[test]
fn zero_period_session_accepts_nothing() {
    let session_boundaries = SessionBoundaries::new(SessionId(3), SessionPeriod(0));
    assert_eq!(session_boundaries.first_block(), 0);
    assert_eq!(session_boundaries.last_block(), 0);
    let branch = vec![BlockHash::default(); 1];
    let proposal = UnvalidatedAlephProposal::new(branch, 1);
    assert_eq!(proposal.validate_bounds(&session_boundaries), None);
}
