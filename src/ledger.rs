//! A keyed store of candidate and voter records, and the three entry points
//! that derive addresses, load records and apply the transitions to them.

use vstd::prelude::*;
use crate::address::{Address, find_program_address, null_address, program_address};
use crate::errors::VoteError;
use crate::events::{CandidateInitialized, VoteCast};
use crate::initialize_candidate::{initialize_candidate, InitializeCandidate};
use crate::initialize_voter::{initialize_voter, InitializeVoter};
use crate::state::{CandidateAccount, VoterAccount, name_bytes, name_fits};
use crate::vote::{ballot_failure, check_ballot, credited, vote, voted_record, Vote};

verus! {

/// The namespace tag of candidate addresses: the bytes of "candidate".
pub open spec fn candidate_tag() -> Seq<u8> {
    seq![99u8, 97u8, 110u8, 100u8, 105u8, 100u8, 97u8, 116u8, 101u8]
}

/// The namespace tag of voter addresses: the bytes of "voter".
pub open spec fn voter_tag() -> Seq<u8> {
    seq![118u8, 111u8, 116u8, 101u8, 114u8]
}

fn candidate_namespace() -> (r: [u8; 9])
    ensures
        r@ == candidate_tag(),
{
    let r: [u8; 9] = [99, 97, 110, 100, 105, 100, 97, 116, 101];
    assert(r@ =~= candidate_tag());
    r
}

fn voter_namespace() -> (r: [u8; 5])
    ensures
        r@ == voter_tag(),
{
    let r: [u8; 5] = [118, 111, 116, 101, 114];
    assert(r@ =~= voter_tag());
    r
}

/// The records of one program, each stored under its address.
pub struct Ledger {
    pub program_id: Address,
    pub candidates: Vec<(Address, CandidateAccount)>,
    pub voters: Vec<(Address, VoterAccount)>,
}

impl Ledger {
    pub open spec fn has_candidate(self, key: Seq<u8>) -> bool {
        exists|i: int| 0 <= i < self.candidates@.len() && self.candidates@[i].0@ == key
    }

    /// Where the candidate record at `key` is stored.
    pub open spec fn candidate_index(self, key: Seq<u8>) -> int {
        choose|i: int| 0 <= i < self.candidates@.len() && self.candidates@[i].0@ == key
    }

    pub open spec fn has_voter(self, key: Seq<u8>) -> bool {
        exists|i: int| 0 <= i < self.voters@.len() && self.voters@[i].0@ == key
    }

    /// Where the voter record at `key` is stored.
    pub open spec fn voter_index(self, key: Seq<u8>) -> int {
        choose|i: int| 0 <= i < self.voters@.len() && self.voters@[i].0@ == key
    }

    /// At most one record per address, and every voter record consistent.
    pub open spec fn wf(self) -> bool {
        &&& forall|i: int, j: int|
            0 <= i < j < self.candidates@.len() ==> self.candidates@[i].0@ != self.candidates@[j].0@
        &&& forall|i: int, j: int|
            0 <= i < j < self.voters@.len() ==> self.voters@[i].0@ != self.voters@[j].0@
        &&& forall|i: int| 0 <= i < self.voters@.len() ==> (#[trigger] self.voters@[i]).1.wf()
    }

    /// The address and bump derived for a candidate name.
    pub open spec fn candidate_address(self, name: Seq<char>) -> Option<(Seq<u8>, u8)> {
        program_address(candidate_tag(), name_bytes(name), self.program_id@)
    }

    /// The address and bump derived for a voter identity.
    pub open spec fn voter_address(self, authority: Seq<u8>) -> Option<(Seq<u8>, u8)> {
        program_address(voter_tag(), authority, self.program_id@)
    }

    /// What registering a candidate named `name` comes to: the address and
    /// bump of the new record, or the failure.
    pub open spec fn candidate_outcome(self, name: Seq<char>) -> Result<(Seq<u8>, u8), VoteError> {
        if !name_fits(name) {
            Err(VoteError::NameTooLong)
        } else {
            match self.candidate_address(name) {
                None => Err(VoteError::NoValidAddress),
                Some((k, b)) => if self.has_candidate(k) {
                    Err(VoteError::AccountAlreadyInitialized)
                } else {
                    Ok((k, b))
                },
            }
        }
    }

    /// What registering a voter for `authority` comes to.
    pub open spec fn voter_outcome(self, authority: Seq<u8>) -> Result<(Seq<u8>, u8), VoteError> {
        match self.voter_address(authority) {
            None => Err(VoteError::NoValidAddress),
            Some((k, b)) => if self.has_voter(k) {
                Err(VoteError::AccountAlreadyInitialized)
            } else {
                Ok((k, b))
            },
        }
    }

    /// `after` is `self` with one more candidate record, named `name`, with
    /// no votes, stored at `key` with `bump`.
    pub open spec fn candidate_added(self, after: Ledger, name: Seq<char>, key: Seq<u8>, bump: u8) -> bool {
        &&& after.program_id == self.program_id
        &&& after.voters@ == self.voters@
        &&& after.candidates@.len() == self.candidates@.len() + 1
        &&& after.candidates@.drop_last() == self.candidates@
        &&& after.candidates@.last().0@ == key
        &&& after.candidates@.last().1.name@ == name
        &&& after.candidates@.last().1.votes == 0
        &&& after.candidates@.last().1.bump == bump
    }

    /// `after` is `self` with one more voter record, for `authority`, that has
    /// not voted, stored at `key` with `bump`.
    pub open spec fn voter_added(self, after: Ledger, authority: Address, key: Seq<u8>, bump: u8) -> bool {
        &&& after.program_id == self.program_id
        &&& after.candidates@ == self.candidates@
        &&& after.voters@.len() == self.voters@.len() + 1
        &&& after.voters@.drop_last() == self.voters@
        &&& after.voters@.last().0@ == key
        &&& after.voters@.last().1.authority == authority
        &&& !after.voters@.last().1.voted
        &&& after.voters@.last().1.votes[0]@ == null_address()
        &&& after.voters@.last().1.votes[1]@ == null_address()
        &&& after.voters@.last().1.bump == bump
    }

    /// The first failing check of a ballot by `signer` for `keys`: the signer
    /// must have a voter record, then the voter-side checks, then both keys
    /// must name candidate records, then neither counter may be full.
    pub open spec fn cast_failure(self, signer: Address, keys: [Address; 2]) -> Option<VoteError> {
        match self.voter_address(signer@) {
            None => Some(VoteError::UnauthorizedAccess),
            Some((vk, _)) => if !self.has_voter(vk) {
                Some(VoteError::UnauthorizedAccess)
            } else {
                let voter = self.voters@[self.voter_index(vk)].1;
                if ballot_failure(voter, signer, keys) is Some {
                    ballot_failure(voter, signer, keys)
                } else if !self.has_candidate(keys[0]@) || !self.has_candidate(keys[1]@) {
                    Some(VoteError::InvalidCandidate)
                } else if self.candidates@[self.candidate_index(keys[0]@)].1.votes == u64::MAX
                    || self.candidates@[self.candidate_index(keys[1]@)].1.votes == u64::MAX {
                    Some(VoteError::VoteOverflow)
                } else {
                    None
                }
            },
        }
    }

    /// `after` is `self` once the ballot of the voter at `vk` for `keys` is
    /// recorded: the voter is marked, both candidates are credited, nothing
    /// else changes.
    pub open spec fn ballot_applied(self, after: Ledger, vk: Seq<u8>, keys: [Address; 2]) -> bool {
        let vi = self.voter_index(vk);
        let c1 = self.candidate_index(keys[0]@);
        let c2 = self.candidate_index(keys[1]@);
        &&& after.program_id == self.program_id
        &&& after.voters@ == self.voters@.update(vi, (self.voters@[vi].0, voted_record(self.voters@[vi].1, keys)))
        &&& after.candidates@ == self.candidates@
            .update(c1, (self.candidates@[c1].0, credited(self.candidates@[c1].1)))
            .update(c2, (self.candidates@[c2].0, credited(self.candidates@[c2].1)))
    }

    /// An empty store for the records of `program_id`.
    pub fn new(program_id: Address) -> (r: Ledger)
        ensures
            r.program_id == program_id,
            r.candidates@.len() == 0,
            r.voters@.len() == 0,
            r.wf(),
    {
        Ledger { program_id, candidates: Vec::new(), voters: Vec::new() }
    }

    /// Where the candidate record at `key` is stored, if there is one.
    pub fn find_candidate(&self, key: &Address) -> (r: Option<usize>)
        requires
            self.wf(),
        ensures
            r is None <==> !self.has_candidate(key@),
            r matches Some(i) ==> i == self.candidate_index(key@) && i < self.candidates@.len(),
    {
        let mut i: usize = 0;
        while i < self.candidates.len()
            invariant
                self.wf(),
                0 <= i <= self.candidates@.len(),
                forall|j: int| 0 <= j < i ==> self.candidates@[j].0@ != key@,
            decreases self.candidates@.len() - i,
        {
            if self.candidates[i].0.same(key) {
                proof {
                    let c = self.candidate_index(key@);
                    assert(self.has_candidate(key@));
                    assert(self.candidates@[c].0@ == key@);
                    if c != i as int {
                        if c < i as int {
                        } else {
                            assert(self.candidates@[i as int].0@ != self.candidates@[c].0@);
                        }
                    }
                }
                return Some(i);
            }
            i = i + 1;
        }
        None
    }

    /// Where the voter record at `key` is stored, if there is one.
    pub fn find_voter(&self, key: &Address) -> (r: Option<usize>)
        requires
            self.wf(),
        ensures
            r is None <==> !self.has_voter(key@),
            r matches Some(i) ==> i == self.voter_index(key@) && i < self.voters@.len(),
    {
        let mut i: usize = 0;
        while i < self.voters.len()
            invariant
                self.wf(),
                0 <= i <= self.voters@.len(),
                forall|j: int| 0 <= j < i ==> self.voters@[j].0@ != key@,
            decreases self.voters@.len() - i,
        {
            if self.voters[i].0.same(key) {
                proof {
                    let c = self.voter_index(key@);
                    assert(self.has_voter(key@));
                    assert(self.voters@[c].0@ == key@);
                    if c != i as int {
                        if c < i as int {
                        } else {
                            assert(self.voters@[i as int].0@ != self.voters@[c].0@);
                        }
                    }
                }
                return Some(i);
            }
            i = i + 1;
        }
        None
    }

    /// Registers a candidate named `name`: derives its address from the
    /// "candidate" tag and the name's bytes, refuses an address that already
    /// holds a record, and stores a fresh record with no votes. Returns the
    /// `CandidateInitialized` notification; on failure nothing changes.
    pub fn register_candidate(&mut self, name: String) -> (r: Result<CandidateInitialized, VoteError>)
        requires
            old(self).wf(),
        ensures
            final(self).wf(),
            match old(self).candidate_outcome(name@) {
                Err(e) => r == Err::<CandidateInitialized, VoteError>(e) && *final(self) == *old(self),
                Ok((k, b)) => {
                    &&& r matches Ok(ev) && ev.name@ == name@ && ev.pubkey@ == k
                    &&& old(self).candidate_added(*final(self), name@, k, b)
                },
            },
    {
        let bytes = name.as_str().as_bytes();
        if bytes.len() > CandidateAccount::MAX_NAME_LEN {
            return Err(VoteError::NameTooLong);
        }
        let tag = candidate_namespace();
        let (key, bump) = match find_program_address(&tag, bytes, &self.program_id) {
            None => return Err(VoteError::NoValidAddress),
            Some(found) => found,
        };
        if self.find_candidate(&key).is_some() {
            return Err(VoteError::AccountAlreadyInitialized);
        }
        let mut ctx = InitializeCandidate {
            candidate: CandidateAccount { name: String::new(), votes: 0, bump: 0 },
            candidate_key: key,
            bump,
        };
        let event = match initialize_candidate(&mut ctx, name) {
            Err(e) => return Err(e),
            Ok(event) => event,
        };
        let ghost before = self.candidates@;
        self.candidates.push((key, ctx.candidate));
        proof {
            assert(self.candidates@.drop_last() =~= before);
            assert forall|i: int, j: int|
                0 <= i < j < self.candidates@.len() implies self.candidates@[i].0@ != self.candidates@[j].0@ by {
                if j == before.len() {
                    assert(self.candidates@[i] == before[i]);
                }
            }
        }
        Ok(event)
    }

    /// Registers a voter for `authority`: derives its address from the "voter"
    /// tag and the authority, refuses an address that already holds a record,
    /// and stores a record that has not voted. Returns the record's address;
    /// on failure nothing changes.
    pub fn register_voter(&mut self, authority: Address) -> (r: Result<Address, VoteError>)
        requires
            old(self).wf(),
        ensures
            final(self).wf(),
            match old(self).voter_outcome(authority@) {
                Err(e) => r == Err::<Address, VoteError>(e) && *final(self) == *old(self),
                Ok((k, b)) => {
                    &&& r matches Ok(a) && a@ == k
                    &&& old(self).voter_added(*final(self), authority, k, b)
                },
            },
    {
        let tag = voter_namespace();
        let (key, bump) = match find_program_address(&tag, &authority.bytes, &self.program_id) {
            None => return Err(VoteError::NoValidAddress),
            Some(found) => found,
        };
        if self.find_voter(&key).is_some() {
            return Err(VoteError::AccountAlreadyInitialized);
        }
        let mut ctx = InitializeVoter {
            voter: VoterAccount { authority, voted: false, votes: [Address::null(), Address::null()], bump: 0 },
            voter_key: key,
            authority,
            bump,
        };
        match initialize_voter(&mut ctx) {
            Err(e) => return Err(e),
            Ok(()) => {},
        }
        let ghost before = self.voters@;
        self.voters.push((key, ctx.voter));
        proof {
            assert(self.voters@.drop_last() =~= before);
            assert forall|i: int, j: int|
                0 <= i < j < self.voters@.len() implies self.voters@[i].0@ != self.voters@[j].0@ by {
                if j == before.len() {
                    assert(self.voters@[i] == before[i]);
                }
            }
            assert forall|i: int| 0 <= i < self.voters@.len() implies (#[trigger] self.voters@[i]).1.wf() by {
                if i < before.len() {
                    assert(self.voters@[i] == before[i]);
                }
            }
        }
        Ok(key)
    }

    /// Casts the ballot of `signer` for the candidates at `candidate_keys`.
    /// The signer's voter record is the one at the address derived from the
    /// "voter" tag and the signer; the candidate records are those stored at
    /// the two keys. On success the voter is marked, both candidates gain one
    /// vote and the `VoteCast` notification is returned; on failure nothing
    /// changes.
    pub fn cast_vote(&mut self, signer: Address, candidate_keys: [Address; 2]) -> (r: Result<VoteCast, VoteError>)
        requires
            old(self).wf(),
        ensures
            final(self).wf(),
            match old(self).cast_failure(signer, candidate_keys) {
                Some(e) => r == Err::<VoteCast, VoteError>(e) && *final(self) == *old(self),
                None => {
                    &&& r == Ok::<VoteCast, VoteError>(VoteCast { voter: signer, candidates: candidate_keys })
                    &&& old(self).voter_address(signer@) matches Some((vk, _))
                    &&& old(self).ballot_applied(*final(self), vk, candidate_keys)
                },
            },
    {
        let tag = voter_namespace();
        let voter_key = match find_program_address(&tag, &signer.bytes, &self.program_id) {
            None => return Err(VoteError::UnauthorizedAccess),
            Some((key, _)) => key,
        };
        let vi = match self.find_voter(&voter_key) {
            None => return Err(VoteError::UnauthorizedAccess),
            Some(i) => i,
        };
        let voter = self.voters[vi].1;
        match check_ballot(&voter, &signer, &candidate_keys) {
            Err(e) => return Err(e),
            Ok(()) => {},
        }
        assert(voter.authority.bytes =~= signer.bytes);
        let c1 = match self.find_candidate(&candidate_keys[0]) {
            None => return Err(VoteError::InvalidCandidate),
            Some(i) => i,
        };
        let c2 = match self.find_candidate(&candidate_keys[1]) {
            None => return Err(VoteError::InvalidCandidate),
            Some(i) => i,
        };
        let key1 = self.candidates[c1].0;
        let key2 = self.candidates[c2].0;
        let record1 = &self.candidates[c1].1;
        let record2 = &self.candidates[c2].1;
        let mut ctx = Vote {
            voter,
            candidate1: CandidateAccount { name: record1.name.clone(), votes: record1.votes, bump: record1.bump },
            candidate1_key: key1,
            candidate2: CandidateAccount { name: record2.name.clone(), votes: record2.votes, bump: record2.bump },
            candidate2_key: key2,
            authority: signer,
        };
        let event = match vote(&mut ctx, candidate_keys) {
            Err(e) => return Err(e),
            Ok(event) => event,
        };
        let ghost before = *self;
        self.voters.set(vi, (self.voters[vi].0, ctx.voter));
        self.candidates.set(c1, (key1, ctx.candidate1));
        self.candidates.set(c2, (key2, ctx.candidate2));
        proof {
            assert(self.voters@ =~= before.voters@.update(
                vi as int,
                (before.voters@[vi as int].0, voted_record(before.voters@[vi as int].1, candidate_keys)),
            ));
            assert(self.candidates@ =~= before.candidates@
                .update(c1 as int, (before.candidates@[c1 as int].0, credited(before.candidates@[c1 as int].1)))
                .update(c2 as int, (before.candidates@[c2 as int].0, credited(before.candidates@[c2 as int].1))));
            assert forall|i: int| 0 <= i < self.voters@.len() implies (#[trigger] self.voters@[i]).1.wf() by {
                if i != vi as int {
                    assert(self.voters@[i] == before.voters@[i]);
                }
            }
        }
        Ok(event)
    }
}

/// Registering a name a second time, right after it was registered, is
/// refused because its record exists, and that record still has no votes.
pub proof fn lemma_candidate_registered_once(before: Ledger, after: Ledger, name: Seq<char>, key: Seq<u8>, bump: u8)
    requires
        before.candidate_outcome(name) == Ok::<(Seq<u8>, u8), VoteError>((key, bump)),
        before.candidate_added(after, name, key, bump),
    ensures
        after.candidate_outcome(name) == Err::<(Seq<u8>, u8), VoteError>(VoteError::AccountAlreadyInitialized),
        after.has_candidate(key),
        after.candidates@[after.candidate_index(key)].1.votes == 0,
{
    let last = after.candidates@.len() - 1;
    assert(after.candidates@[last].0@ == key);
    assert(after.has_candidate(key));
    let c = after.candidate_index(key);
    if c != last {
        assert(after.candidates@[c] == after.candidates@.drop_last()[c]);
        assert(before.has_candidate(key));
    }
}

/// Once a voter's ballot is recorded, every later ballot of the same signer is
/// refused as already voted, whatever it names.
pub proof fn lemma_second_ballot_refused(
    before: Ledger,
    after: Ledger,
    signer: Address,
    keys: [Address; 2],
    later: [Address; 2],
)
    requires
        before.wf(),
        before.cast_failure(signer, keys) is None,
        before.voter_address(signer@) matches Some((vk, _)) && before.ballot_applied(after, vk, keys),
    ensures
        after.cast_failure(signer, later) == Some(VoteError::AlreadyVoted),
{
    let vk = before.voter_address(signer@)->Some_0.0;
    let vi = before.voter_index(vk);
    assert(after.voters@[vi].0@ == vk);
    assert(after.has_voter(vk));
    let ai = after.voter_index(vk);
    if ai != vi {
        assert(before.voters@[ai].0@ == vk);
        if ai < vi {
            assert(before.voters@[ai].0@ != before.voters@[vi].0@);
        } else {
            assert(before.voters@[vi].0@ != before.voters@[ai].0@);
        }
    }
}

/// A signer whose voter record has voted is refused as already voted.
pub proof fn lemma_voted_signer_refused(ledger: Ledger, signer: Address, keys: [Address; 2], vk: Seq<u8>, bump: u8)
    requires
        ledger.voter_address(signer@) == Some((vk, bump)),
        ledger.has_voter(vk),
        ledger.voters@[ledger.voter_index(vk)].1.voted,
    ensures
        ledger.cast_failure(signer, keys) == Some(VoteError::AlreadyVoted),
{
}

} // verus!
