//! Notifications handed out after a successful change.

use vstd::prelude::*;
use crate::address::Address;

verus! {

/// A candidate record was created.
#[derive(Clone, Debug)]
pub struct CandidateInitialized {
    pub name: String,
    pub pubkey: Address,
}

/// A ballot was recorded for two candidates.
#[derive(Clone, Copy, Debug)]
pub struct VoteCast {
    pub voter: Address,
    pub candidates: [Address; 2],
}

} // verus!
