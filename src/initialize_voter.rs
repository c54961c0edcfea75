//! Creation of a voter record.

use vstd::prelude::*;
use crate::address::{Address, null_address};
use crate::errors::VoteError;
use crate::state::VoterAccount;

verus! {

/// A freshly allocated voter record with the address derived for it, the
/// identity it will belong to and the bump its address was found with.
#[derive(Clone, Copy, Debug)]
pub struct InitializeVoter {
    pub voter: VoterAccount,
    pub voter_key: Address,
    pub authority: Address,
    pub bump: u8,
}

/// Fills a fresh voter record: it belongs to `authority`, has not voted, and
/// holds two null ballot entries.
pub fn initialize_voter(ctx: &mut InitializeVoter) -> (r: Result<(), VoteError>)
    ensures
        r is Ok,
        final(ctx).voter.authority == old(ctx).authority,
        !final(ctx).voter.voted,
        final(ctx).voter.votes[0]@ == null_address(),
        final(ctx).voter.votes[1]@ == null_address(),
        final(ctx).voter.bump == old(ctx).bump,
        final(ctx).voter.wf(),
        final(ctx).voter_key == old(ctx).voter_key,
        final(ctx).authority == old(ctx).authority,
        final(ctx).bump == old(ctx).bump,
{
    ctx.voter.authority = ctx.authority;
    ctx.voter.voted = false;
    ctx.voter.votes = [Address::null(), Address::null()];
    ctx.voter.bump = ctx.bump;
    Ok(())
}

} // verus!
