//! The vote transition: validate a ballot and apply it to one voter record
//! and two candidate records, all or nothing.

use vstd::prelude::*;
use crate::address::Address;
use crate::errors::VoteError;
use crate::events::VoteCast;
use crate::state::{CandidateAccount, VoterAccount};

verus! {

/// The records a ballot touches, as loaded for one vote: the voter record,
/// the two candidate records with the addresses they were loaded from, and
/// the identity that signed the request.
#[derive(Clone, Debug)]
pub struct Vote {
    pub voter: VoterAccount,
    pub candidate1: CandidateAccount,
    pub candidate1_key: Address,
    pub candidate2: CandidateAccount,
    pub candidate2_key: Address,
    pub authority: Address,
}

/// The first failing check on the voter's side of a ballot, in order:
/// already voted, wrong signer, the same candidate twice.
pub open spec fn ballot_failure(voter: VoterAccount, signer: Address, keys: [Address; 2]) -> Option<VoteError> {
    if voter.voted {
        Some(VoteError::AlreadyVoted)
    } else if voter.authority@ != signer@ {
        Some(VoteError::UnauthorizedAccess)
    } else if keys[0]@ == keys[1]@ {
        Some(VoteError::DuplicateCandidates)
    } else {
        None
    }
}

/// The first failing check of a whole vote: the voter's side, then each
/// ballot entry against the record supplied for it, then counter overflow.
pub open spec fn vote_failure(ctx: Vote, keys: [Address; 2]) -> Option<VoteError> {
    if ballot_failure(ctx.voter, ctx.authority, keys) is Some {
        ballot_failure(ctx.voter, ctx.authority, keys)
    } else if ctx.candidate1_key@ != keys[0]@ || ctx.candidate2_key@ != keys[1]@ {
        Some(VoteError::InvalidCandidate)
    } else if ctx.candidate1.votes == u64::MAX || ctx.candidate2.votes == u64::MAX {
        Some(VoteError::VoteOverflow)
    } else {
        None
    }
}

/// The voter record once the ballot is recorded.
pub open spec fn voted_record(voter: VoterAccount, keys: [Address; 2]) -> VoterAccount {
    VoterAccount { voted: true, votes: keys, ..voter }
}

/// A candidate record credited with one more vote.
pub open spec fn credited(c: CandidateAccount) -> CandidateAccount {
    CandidateAccount { votes: (c.votes + 1) as u64, ..c }
}

/// Runs the voter-side checks of a ballot in their fixed order.
pub fn check_ballot(voter: &VoterAccount, signer: &Address, keys: &[Address; 2]) -> (r: Result<(), VoteError>)
    ensures
        r is Err <==> ballot_failure(*voter, *signer, *keys) is Some,
        r matches Err(e) ==> ballot_failure(*voter, *signer, *keys) == Some(e),
{
    if voter.voted {
        return Err(VoteError::AlreadyVoted);
    }
    if !voter.authority.same(signer) {
        return Err(VoteError::UnauthorizedAccess);
    }
    if keys[0].same(&keys[1]) {
        return Err(VoteError::DuplicateCandidates);
    }
    Ok(())
}

/// Casts a ballot for two distinct candidates. On success the voter is marked
/// as voted with the two candidates, each candidate gains one vote and the
/// `VoteCast` notification is returned; on failure nothing changes.
pub fn vote(ctx: &mut Vote, candidate_keys: [Address; 2]) -> (r: Result<VoteCast, VoteError>)
    ensures
        match vote_failure(*old(ctx), candidate_keys) {
            Some(e) => r == Err::<VoteCast, VoteError>(e) && *final(ctx) == *old(ctx),
            None => {
                &&& r == Ok::<VoteCast, VoteError>(
                    VoteCast { voter: old(ctx).voter.authority, candidates: candidate_keys },
                )
                &&& final(ctx).voter == voted_record(old(ctx).voter, candidate_keys)
                &&& final(ctx).candidate1 == credited(old(ctx).candidate1)
                &&& final(ctx).candidate2 == credited(old(ctx).candidate2)
                &&& final(ctx).candidate1_key == old(ctx).candidate1_key
                &&& final(ctx).candidate2_key == old(ctx).candidate2_key
                &&& final(ctx).authority == old(ctx).authority
            },
        },
        old(ctx).voter.wf() ==> final(ctx).voter.wf(),
{
    match check_ballot(&ctx.voter, &ctx.authority, &candidate_keys) {
        Err(e) => return Err(e),
        Ok(()) => {},
    }
    if !ctx.candidate1_key.same(&candidate_keys[0]) {
        return Err(VoteError::InvalidCandidate);
    }
    if !ctx.candidate2_key.same(&candidate_keys[1]) {
        return Err(VoteError::InvalidCandidate);
    }
    let votes1 = match ctx.candidate1.votes.checked_add(1) {
        Some(v) => v,
        None => return Err(VoteError::VoteOverflow),
    };
    let votes2 = match ctx.candidate2.votes.checked_add(1) {
        Some(v) => v,
        None => return Err(VoteError::VoteOverflow),
    };
    ctx.candidate1.votes = votes1;
    ctx.candidate2.votes = votes2;
    ctx.voter.voted = true;
    ctx.voter.votes = candidate_keys;
    Ok(VoteCast { voter: ctx.voter.authority, candidates: candidate_keys })
}

/// A voter that has already voted is refused, whatever it asks for and
/// whatever records come with it.
pub proof fn lemma_voted_voter_refused(ctx: Vote, keys: [Address; 2])
    requires
        ctx.voter.voted,
    ensures
        vote_failure(ctx, keys) == Some(VoteError::AlreadyVoted),
{
}

/// A ballot naming one candidate twice is refused as a duplicate, whatever
/// records come with it, once the voter has not voted and signs for itself.
pub proof fn lemma_duplicate_ballot_refused(ctx: Vote, keys: [Address; 2])
    requires
        !ctx.voter.voted,
        ctx.voter.authority@ == ctx.authority@,
        keys[0]@ == keys[1]@,
    ensures
        vote_failure(ctx, keys) == Some(VoteError::DuplicateCandidates),
{
}

/// A signer other than the voter's authority is refused as unauthorized
/// before any candidate is looked at: the result does not depend on the
/// ballot or on the candidate records.
pub proof fn lemma_foreign_signer_refused(ctx: Vote, keys: [Address; 2])
    requires
        !ctx.voter.voted,
        ctx.voter.authority@ != ctx.authority@,
    ensures
        vote_failure(ctx, keys) == Some(VoteError::UnauthorizedAccess),
{
}

/// A ballot that passes every other check but would take either counter past
/// its maximum is refused as an overflow (and then, by the contract of
/// `vote`, neither candidate is credited).
pub proof fn lemma_full_counter_refused(ctx: Vote, keys: [Address; 2])
    requires
        ballot_failure(ctx.voter, ctx.authority, keys) is None,
        ctx.candidate1_key@ == keys[0]@,
        ctx.candidate2_key@ == keys[1]@,
        ctx.candidate1.votes == u64::MAX || ctx.candidate2.votes == u64::MAX,
    ensures
        vote_failure(ctx, keys) == Some(VoteError::VoteOverflow),
{
}

} // verus!
