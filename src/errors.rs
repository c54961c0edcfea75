//! The failure kinds of the registry and the vote transition.

use vstd::prelude::*;

verus! {

/// Every failure of an operation is terminal: nothing it would have written
/// is written.
#[derive(Clone, Copy, Debug, PartialEq, Eq, Structural)]
pub enum VoteError {
    /// The voter record already holds a ballot.
    AlreadyVoted,
    /// Both ballot entries name the same candidate.
    DuplicateCandidates,
    /// A ballot entry does not name the candidate record supplied for it.
    InvalidCandidate,
    /// The caller is not the identity the voter record belongs to.
    UnauthorizedAccess,
    /// A record already exists at the derived address.
    AccountAlreadyInitialized,
    /// Crediting a candidate would overflow its counter.
    VoteOverflow,
    /// A candidate name longer than the record can hold.
    NameTooLong,
    /// The address search found no valid address for the seeds.
    NoValidAddress,
}

} // verus!
