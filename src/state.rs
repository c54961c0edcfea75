//! The two kinds of records: candidates and voters.

use vstd::prelude::*;
use crate::address::{Address, null_address};

verus! {

/// A candidate: its name, its vote counter and the bump fixing its address.
#[derive(Clone, Debug)]
pub struct CandidateAccount {
    pub name: String,
    pub votes: u64,
    pub bump: u8,
}

impl CandidateAccount {
    /// The longest name, in encoded bytes, that a candidate record holds.
    pub const MAX_NAME_LEN: usize = 32;
    /// Type tag, length-prefixed name, counter and bump.
    pub const SPACE: usize = 8 + 36 + 8 + 1;
}

/// A voter: its authority, whether it has voted, the two candidates it voted
/// for and the bump fixing its address.
#[derive(Clone, Copy, Debug)]
pub struct VoterAccount {
    pub authority: Address,
    pub voted: bool,
    pub votes: [Address; 2],
    pub bump: u8,
}

impl VoterAccount {
    /// Type tag, authority, voted flag, two addresses and bump.
    pub const SPACE: usize = 8 + 32 + 1 + 64 + 1;

    /// A voter that has not voted holds two null ballot entries; one that has
    /// voted holds two distinct candidates.
    pub open spec fn wf(&self) -> bool {
        &&& !self.voted ==> self.votes[0]@ == null_address() && self.votes[1]@ == null_address()
        &&& self.voted ==> self.votes[0]@ != self.votes[1]@
    }
}

} // verus!

verus! {

/// A name as the bytes of its encoded form.
pub open spec fn name_bytes(name: Seq<char>) -> Seq<u8> {
    vstd::utf8::encode_utf8(name)
}

/// A name whose encoded form fits a candidate record.
pub open spec fn name_fits(name: Seq<char>) -> bool {
    name_bytes(name).len() <= 32
}

} // verus!
