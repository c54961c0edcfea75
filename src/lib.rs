//! A registry of candidates and voters with a vote-casting transition that
//! keeps each ballot single, distinct and free of counter overflow.

pub mod address;
pub mod errors;
pub mod events;
pub mod initialize_candidate;
pub mod initialize_voter;
pub mod ledger;
pub mod state;
pub mod vote;

pub use address::Address;
pub use errors::VoteError;
pub use events::{CandidateInitialized, VoteCast};
pub use initialize_candidate::{initialize_candidate, InitializeCandidate};
pub use initialize_voter::{initialize_voter, InitializeVoter};
pub use ledger::Ledger;
pub use state::{CandidateAccount, VoterAccount};
pub use vote::{vote, Vote};
