use anchor_lang::prelude::Pubkey;
use ballot_box::{initialize_voter, Address, InitializeVoter, VoterAccount};

fn unique() -> Address {
    Address::new(Pubkey::new_unique().to_bytes())
}

#[test]
fn test_voter_initialization_state() {
    let authority = unique();
    let voter = VoterAccount { authority, voted: false, votes: [Address::null(), Address::null()], bump: 255 };

    assert_eq!(voter.authority, authority);
    assert!(!voter.voted);
    assert_eq!(voter.votes[0], Address::null());
    assert_eq!(voter.votes[1], Address::null());
    assert_eq!(voter.bump, 255);
}

#[test]
fn test_voter_authority_assignment() {
    let authorities = vec![unique(), unique(), unique()];

    for authority in authorities {
        let voter = VoterAccount { authority, voted: false, votes: [Address::null(), Address::null()], bump: 255 };
        assert_eq!(voter.authority, authority);
    }
}

#[test]
fn test_voter_initial_not_voted() {
    let voters = vec![
        VoterAccount { authority: unique(), voted: false, votes: [Address::null(), Address::null()], bump: 255 },
        VoterAccount { authority: unique(), voted: false, votes: [Address::null(), Address::null()], bump: 254 },
    ];

    for voter in voters {
        assert!(!voter.voted, "New voter should not have voted yet");
    }
}

#[test]
fn test_voter_votes_array_defaults() {
    let voter = VoterAccount { authority: unique(), voted: false, votes: [Address::null(), Address::null()], bump: 255 };

    assert_eq!(voter.votes[0], Address::null());
    assert_eq!(voter.votes[1], Address::null());
    assert_eq!(voter.votes.len(), 2);
}

#[test]
fn test_voter_bump_range() {
    for bump in [0u8, 127, 254, 255] {
        let voter = VoterAccount { authority: unique(), voted: false, votes: [Address::null(), Address::null()], bump };
        assert_eq!(voter.bump, bump);
    }
}

#[test]
fn test_voter_authority_uniqueness() {
    let voter1 = VoterAccount { authority: unique(), voted: false, votes: [Address::null(), Address::null()], bump: 255 };
    let voter2 = VoterAccount { authority: unique(), voted: false, votes: [Address::null(), Address::null()], bump: 254 };

    assert_ne!(voter1.authority, voter2.authority);
}

#[test]
fn test_voter_state_immutability_before_vote() {
    let authority = unique();
    let voter = VoterAccount { authority, voted: false, votes: [Address::null(), Address::null()], bump: 255 };

    assert_eq!(voter.authority, authority);
    assert_eq!(voter.voted, false);
    assert!(voter.votes.iter().all(|&v| v == Address::null()));
}

#[test]
fn initialize_voter_resets_a_dirty_record() {
    let authority = unique();
    let key = unique();
    let mut ctx = InitializeVoter {
        voter: VoterAccount { authority: unique(), voted: true, votes: [unique(), unique()], bump: 3 },
        voter_key: key,
        authority,
        bump: 251,
    };
    assert!(initialize_voter(&mut ctx).is_ok());
    assert_eq!(ctx.voter.authority, authority);
    assert!(!ctx.voter.voted);
    assert_eq!(ctx.voter.votes, [Address::null(), Address::null()]);
    assert_eq!(ctx.voter.bump, 251);
}
