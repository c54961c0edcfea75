//! Creation of a candidate record.

use vstd::prelude::*;
use crate::address::Address;
use crate::errors::VoteError;
use crate::events::CandidateInitialized;
use crate::state::{CandidateAccount, name_fits};

verus! {

/// A freshly allocated candidate record with the address derived for it and
/// the bump that address was found with.
#[derive(Clone, Debug)]
pub struct InitializeCandidate {
    pub candidate: CandidateAccount,
    pub candidate_key: Address,
    pub bump: u8,
}

/// Fills a fresh candidate record with `name`, no votes and its bump, and
/// returns the `CandidateInitialized` notification. A name whose encoded form
/// is longer than the record holds is refused and nothing changes.
pub fn initialize_candidate(ctx: &mut InitializeCandidate, name: String) -> (r: Result<CandidateInitialized, VoteError>)
    ensures
        !name_fits(name@) ==> r == Err::<CandidateInitialized, VoteError>(VoteError::NameTooLong)
            && *final(ctx) == *old(ctx),
        name_fits(name@) ==> {
            &&& r matches Ok(ev) && ev.name@ == name@ && ev.pubkey == old(ctx).candidate_key
            &&& final(ctx).candidate.name@ == name@
            &&& final(ctx).candidate.votes == 0
            &&& final(ctx).candidate.bump == old(ctx).bump
            &&& final(ctx).candidate_key == old(ctx).candidate_key
            &&& final(ctx).bump == old(ctx).bump
        },
{
    if name.as_str().as_bytes().len() > CandidateAccount::MAX_NAME_LEN {
        return Err(VoteError::NameTooLong);
    }
    let event_name = name.clone();
    ctx.candidate.name = name;
    ctx.candidate.votes = 0;
    ctx.candidate.bump = ctx.bump;
    Ok(CandidateInitialized { name: event_name, pubkey: ctx.candidate_key })
}

} // verus!
