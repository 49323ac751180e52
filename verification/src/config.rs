//! Configuration manager: creation of the record and the four owner-gated
//! configuration mutations.

use vstd::prelude::*;

verus! {

use crate::auth::check_authorized;
use crate::errors::BlogError;
use crate::state::{BlogState, Pubkey, URI_MAX_LEN, well_formed};
use crate::transition::{OpRequest, create_outcome, op_outcome};
use vstd::string::StrSliceExecFns;

/// Inputs of creation: the paying and owning identities, the two token
/// classes derived for the record, and the opaque derivation markers.
pub struct Initialize {
    pub payer: Pubkey,
    pub authority: Pubkey,
    pub bump: u8,
    pub standard_mint: Pubkey,
    pub standard_mint_bump: u8,
    pub premium_mint: Pubkey,
    pub premium_mint_bump: u8,
}

/// Inputs of pause and unpause: the caller and the record.
pub struct TogglePause {
    pub authority: Pubkey,
    pub blog_state: BlogState,
}

/// Inputs of the fee and metadata mutations: the caller and the record.
pub struct OwnerMutation {
    pub authority: Pubkey,
    pub blog_state: BlogState,
}

/// Creates the record: rejects a zero fee and an empty or over-long URI,
/// then initializes an unpaused record with both counters at zero and the
/// caller recorded as owner. A second creation for the same owner is kept
/// out by the substrate's create-new semantics (the record's address is
/// deterministically tied to the owner), not by this logic.
pub fn initialize(ctx: &Initialize, premium_fee: u64, uri: String) -> (r: Result<
    BlogState,
    BlogError,
>)
    ensures
        ({
            let o = create_outcome(*ctx, premium_fee, uri@);
            match (r, o) {
                (Ok(state), Ok(v)) => state@ == v && well_formed(state@),
                (Err(e), Err(eo)) => e == eo,
                _ => false,
            }
        }),
{
    if premium_fee == 0 {
        return Err(BlogError::InvalidNewFee);
    }
    if uri.as_str().unicode_len() == 0 {
        return Err(BlogError::EmptyUri);
    }
    if uri.as_str().as_bytes_vec().len() > URI_MAX_LEN {
        return Err(BlogError::UriTooLong);
    }
    Ok(
        BlogState {
            authority: ctx.authority,
            premium_fee,
            uri,
            paused: false,
            bump: ctx.bump,
            standard_mint: ctx.standard_mint,
            standard_mint_bump: ctx.standard_mint_bump,
            premium_mint: ctx.premium_mint,
            premium_mint_bump: ctx.premium_mint_bump,
            total_standard: 0,
            total_premium: 0,
        },
    )
}

/// Pauses issuance. Owner only; pausing an already-paused record is allowed.
pub fn pause(ctx: &mut TogglePause) -> (r: Result<(), BlogError>)
    ensures
        final(ctx).authority == old(ctx).authority,
        ({
            let o = op_outcome(
                old(ctx).blog_state@,
                (OpRequest::Pause { caller: old(ctx).authority }),
            );
            match (r, o) {
                (Ok(()), Ok(v)) => final(ctx).blog_state@ == v,
                (Err(e), Err(eo)) => e == eo && final(ctx).blog_state@ == old(ctx).blog_state@,
                _ => false,
            }
        }),
{
    match check_authorized(&ctx.authority, &ctx.blog_state) {
        Err(e) => {
            return Err(e);
        },
        Ok(()) => {},
    }
    ctx.blog_state.paused = true;
    Ok(())
}

/// Resumes issuance. Owner only; resuming an already-active record is
/// allowed.
pub fn unpause(ctx: &mut TogglePause) -> (r: Result<(), BlogError>)
    ensures
        final(ctx).authority == old(ctx).authority,
        ({
            let o = op_outcome(
                old(ctx).blog_state@,
                (OpRequest::Unpause { caller: old(ctx).authority }),
            );
            match (r, o) {
                (Ok(()), Ok(v)) => final(ctx).blog_state@ == v,
                (Err(e), Err(eo)) => e == eo && final(ctx).blog_state@ == old(ctx).blog_state@,
                _ => false,
            }
        }),
{
    match check_authorized(&ctx.authority, &ctx.blog_state) {
        Err(e) => {
            return Err(e);
        },
        Ok(()) => {},
    }
    ctx.blog_state.paused = false;
    Ok(())
}

/// Replaces the premium fee. Owner only; the new fee must be non-zero and
/// strictly different from the current one.
pub fn update_premium_fee(ctx: &mut OwnerMutation, new_fee: u64) -> (r: Result<(), BlogError>)
    ensures
        final(ctx).authority == old(ctx).authority,
        ({
            let o = op_outcome(
                old(ctx).blog_state@,
                (OpRequest::UpdatePremiumFee { caller: old(ctx).authority, new_fee }),
            );
            match (r, o) {
                (Ok(()), Ok(v)) => final(ctx).blog_state@ == v,
                (Err(e), Err(eo)) => e == eo && final(ctx).blog_state@ == old(ctx).blog_state@,
                _ => false,
            }
        }),
{
    match check_authorized(&ctx.authority, &ctx.blog_state) {
        Err(e) => {
            return Err(e);
        },
        Ok(()) => {},
    }
    if new_fee == 0 {
        return Err(BlogError::InvalidNewFee);
    }
    if new_fee == ctx.blog_state.premium_fee {
        return Err(BlogError::InvalidNewFee);
    }
    ctx.blog_state.premium_fee = new_fee;
    Ok(())
}

/// Replaces the metadata URI. Validates emptiness and length exactly as
/// creation does, then requires the owner.
pub fn modify_uri(ctx: &mut OwnerMutation, new_uri: String) -> (r: Result<(), BlogError>)
    ensures
        final(ctx).authority == old(ctx).authority,
        ({
            let o = op_outcome(
                old(ctx).blog_state@,
                (OpRequest::ModifyUri { caller: old(ctx).authority, new_uri: new_uri@ }),
            );
            match (r, o) {
                (Ok(()), Ok(v)) => final(ctx).blog_state@ == v,
                (Err(e), Err(eo)) => e == eo && final(ctx).blog_state@ == old(ctx).blog_state@,
                _ => false,
            }
        }),
{
    if new_uri.as_str().unicode_len() == 0 {
        return Err(BlogError::EmptyUri);
    }
    if new_uri.as_str().as_bytes_vec().len() > URI_MAX_LEN {
        return Err(BlogError::UriTooLong);
    }
    match check_authorized(&ctx.authority, &ctx.blog_state) {
        Err(e) => {
            return Err(e);
        },
        Ok(()) => {},
    }
    ctx.blog_state.uri = new_uri;
    Ok(())
}

} // verus!
