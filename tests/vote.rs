use anchor_lang::prelude::Pubkey;
use ballot_box::{vote, Address, CandidateAccount, Vote, VoteError, VoterAccount};

fn new_key() -> Address {
    Address::new(Pubkey::new_unique().to_bytes())
}

fn ballot_context(authority: Address, key1: Address, votes1: u64, key2: Address, votes2: u64) -> Vote {
    Vote {
        voter: VoterAccount { authority, voted: false, votes: [Address::null(), Address::null()], bump: 255 },
        candidate1: CandidateAccount { name: String::from("Alice"), votes: votes1, bump: 254 },
        candidate1_key: key1,
        candidate2: CandidateAccount { name: String::from("Bob"), votes: votes2, bump: 253 },
        candidate2_key: key2,
        authority,
    }
}

#[test]
fn test_checked_add_vote_overflow() {
    let max_votes = u64::MAX;
    let result = max_votes.checked_add(1);
    assert!(result.is_none(), "Should return None on overflow");
}

#[test]
fn test_checked_add_normal_increment() {
    let votes = 0u64;
    let result = votes.checked_add(1);
    assert_eq!(result, Some(1));

    let votes = 999u64;
    let result = votes.checked_add(1);
    assert_eq!(result, Some(1000));
}

#[test]
fn test_candidate_keys_uniqueness() {
    let key1 = new_key();
    let key2 = new_key();
    assert_ne!(key1, key2);
}

#[test]
fn test_candidate_keys_equality() {
    let key1 = new_key();
    let key2 = key1;
    assert_eq!(key1, key2);
}

#[test]
fn test_voter_state_transitions() {
    let authority = new_key();
    let mut voter = VoterAccount { authority, voted: false, votes: [Address::null(), Address::null()], bump: 255 };

    assert!(!voter.voted);
    assert_eq!(voter.votes[0], Address::null());
    assert_eq!(voter.votes[1], Address::null());

    let candidate1 = new_key();
    let candidate2 = new_key();
    voter.voted = true;
    voter.votes = [candidate1, candidate2];

    assert!(voter.voted);
    assert_eq!(voter.votes[0], candidate1);
    assert_eq!(voter.votes[1], candidate2);
}

#[test]
fn test_multiple_vote_increments() {
    let mut candidate = CandidateAccount { name: String::from("Alice"), votes: 0, bump: 255 };

    for i in 1..=10 {
        candidate.votes = candidate.votes.checked_add(1).unwrap();
        assert_eq!(candidate.votes, i);
    }

    assert_eq!(candidate.votes, 10);
}

#[test]
fn test_candidate_vote_count_persistence() {
    let mut candidate1 = CandidateAccount { name: String::from("Alice"), votes: 5, bump: 255 };
    let mut candidate2 = CandidateAccount { name: String::from("Bob"), votes: 3, bump: 254 };

    candidate1.votes = candidate1.votes.checked_add(1).unwrap();
    candidate2.votes = candidate2.votes.checked_add(1).unwrap();

    assert_eq!(candidate1.votes, 6);
    assert_eq!(candidate2.votes, 4);
}

#[test]
fn vote_records_ballot_and_credits_both() {
    let (v, a, b) = (new_key(), new_key(), new_key());
    let mut ctx = ballot_context(v, a, 5, b, 3);
    let event = vote(&mut ctx, [a, b]).unwrap();
    assert_eq!(event.voter, v);
    assert_eq!(event.candidates, [a, b]);
    assert!(ctx.voter.voted);
    assert_eq!(ctx.voter.votes, [a, b]);
    assert_eq!(ctx.candidate1.votes, 6);
    assert_eq!(ctx.candidate2.votes, 4);
    assert_eq!(ctx.candidate1.name, "Alice");
}

#[test]
fn vote_by_voted_voter_fails_already_voted() {
    let (v, a, b) = (new_key(), new_key(), new_key());
    let mut ctx = ballot_context(v, a, 1, b, 1);
    ctx.voter.voted = true;
    ctx.voter.votes = [a, b];
    // even with a duplicate ballot and a foreign signer
    ctx.authority = new_key();
    assert_eq!(vote(&mut ctx, [a, a]).unwrap_err(), VoteError::AlreadyVoted);
    assert_eq!(ctx.candidate1.votes, 1);
    assert_eq!(ctx.candidate2.votes, 1);
}

#[test]
fn vote_by_foreign_signer_fails_unauthorized_before_candidate_checks() {
    let (v, a, b) = (new_key(), new_key(), new_key());
    let mut ctx = ballot_context(v, a, 0, b, 0);
    ctx.authority = new_key();
    // ballot entries that name none of the supplied records
    let (x, y) = (new_key(), new_key());
    assert_eq!(vote(&mut ctx, [x, y]).unwrap_err(), VoteError::UnauthorizedAccess);
    assert_eq!(vote(&mut ctx, [x, x]).unwrap_err(), VoteError::UnauthorizedAccess);
    assert!(!ctx.voter.voted);
    assert_eq!(ctx.candidate1.votes, 0);
}

#[test]
fn vote_for_same_candidate_twice_fails_duplicate() {
    let (v, a, b) = (new_key(), new_key(), new_key());
    let mut ctx = ballot_context(v, a, 0, b, 0);
    assert_eq!(vote(&mut ctx, [a, a]).unwrap_err(), VoteError::DuplicateCandidates);
    assert!(!ctx.voter.voted);
    assert_eq!(ctx.voter.votes, [Address::null(), Address::null()]);
}

#[test]
fn vote_with_mismatched_records_fails_invalid_candidate() {
    let (v, a, b, c) = (new_key(), new_key(), new_key(), new_key());
    let mut ctx = ballot_context(v, a, 0, b, 0);
    assert_eq!(vote(&mut ctx, [c, b]).unwrap_err(), VoteError::InvalidCandidate);
    assert_eq!(vote(&mut ctx, [a, c]).unwrap_err(), VoteError::InvalidCandidate);
    assert_eq!(vote(&mut ctx, [b, a]).unwrap_err(), VoteError::InvalidCandidate);
    assert!(!ctx.voter.voted);
    assert_eq!(ctx.candidate1.votes, 0);
    assert_eq!(ctx.candidate2.votes, 0);
}

#[test]
fn vote_past_full_counter_fails_overflow_with_no_partial_credit() {
    let (v, a, b) = (new_key(), new_key(), new_key());
    let mut ctx = ballot_context(v, a, 4, b, u64::MAX);
    assert_eq!(vote(&mut ctx, [a, b]).unwrap_err(), VoteError::VoteOverflow);
    assert_eq!(ctx.candidate1.votes, 4);
    assert_eq!(ctx.candidate2.votes, u64::MAX);
    assert!(!ctx.voter.voted);

    let mut ctx = ballot_context(v, a, u64::MAX, b, 9);
    assert_eq!(vote(&mut ctx, [a, b]).unwrap_err(), VoteError::VoteOverflow);
    assert_eq!(ctx.candidate1.votes, u64::MAX);
    assert_eq!(ctx.candidate2.votes, 9);
}

#[test]
fn vote_reaching_counter_maximum_succeeds() {
    let (v, a, b) = (new_key(), new_key(), new_key());
    let mut ctx = ballot_context(v, a, u64::MAX - 1, b, 0);
    assert!(vote(&mut ctx, [a, b]).is_ok());
    assert_eq!(ctx.candidate1.votes, u64::MAX);
    assert_eq!(ctx.candidate2.votes, 1);
}
