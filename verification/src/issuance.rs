//! Issuance engine: the two minting flows. Both require the record to be
//! active (not paused), count issues with overflow-fail-closed counters, and
//! move funds through the modelled value-transfer primitive. Premium tokens
//! are kept non-transferable by the thaw-mint-refreeze toggle: every
//! successful premium mint leaves the holding frozen.

use vstd::prelude::*;

verus! {

use crate::errors::BlogError;
use crate::events::{FundsReceived, PremiumReceived};
use crate::state::{BlogState, Pubkey, TokenHolding, URI_MAX_LEN};
use crate::transition::{OpRequest, op_outcome};
use vstd::string::StrSliceExecFns;

/// Inputs of a standard mint: the paying caller and its balance, the record
/// and its balance, and the caller's standard-token holding.
pub struct MintStandard {
    pub payer: Pubkey,
    pub payer_balance: u64,
    pub blog_state: BlogState,
    pub blog_balance: u64,
    pub user_standard_token: TokenHolding,
}

/// Inputs of a premium mint: the paying caller and its balance, the record
/// and its balance, and the caller's premium-token holding.
pub struct MintPremium {
    pub payer: Pubkey,
    pub payer_balance: u64,
    pub blog_state: BlogState,
    pub blog_balance: u64,
    pub user_premium_token: TokenHolding,
}

/// Mints one standard token to the caller. Fails `Paused` while the record
/// is paused and `SupplyOverflow` when the counter is at its maximum, in
/// that order, with no effect. On success: an optional donation moves from
/// the caller to the record (and is announced iff positive), the caller's
/// holding grows by one unit with its frozen flag untouched, and the
/// standard counter grows by one.
///
/// The three `requires` are limits of the substrate, not of this logic: a
/// transfer needs a sufficient source balance, balances are 64-bit, and a
/// holding's unit count is 64-bit.
pub fn mint_standard(ctx: &mut MintStandard, donation: u64) -> (r: Result<
    Option<FundsReceived>,
    BlogError,
>)
    requires
        donation <= old(ctx).payer_balance,
        old(ctx).blog_balance + donation <= u64::MAX,
        old(ctx).user_standard_token.amount < u64::MAX,
    ensures
        ({
            let o = op_outcome(old(ctx).blog_state@, (OpRequest::MintStandard { donation }));
            match (r, o) {
                (Ok(ev), Ok(v)) => {
                    &&& final(ctx).blog_state@ == v
                    &&& final(ctx).payer == old(ctx).payer
                    &&& final(ctx).payer_balance == old(ctx).payer_balance - donation
                    &&& final(ctx).blog_balance == old(ctx).blog_balance + donation
                    &&& final(ctx).user_standard_token.amount == old(
                        ctx,
                    ).user_standard_token.amount + 1
                    &&& final(ctx).user_standard_token.frozen == old(
                        ctx,
                    ).user_standard_token.frozen
                    &&& (if donation > 0 {
                        ev == Some(
                            (FundsReceived { sender: old(ctx).payer, amount: donation }),
                        )
                    } else {
                        ev is None
                    })
                },
                (Err(e), Err(eo)) => e == eo && *final(ctx) == *old(ctx),
                _ => false,
            }
        }),
{
    if ctx.blog_state.paused {
        return Err(BlogError::Paused);
    }
    if ctx.blog_state.total_standard == u64::MAX {
        return Err(BlogError::SupplyOverflow);
    }

    let mut event: Option<FundsReceived> = None;
    if donation > 0 {
        ctx.payer_balance = ctx.payer_balance - donation;
        ctx.blog_balance = ctx.blog_balance + donation;
        event = Some(FundsReceived { sender: ctx.payer, amount: donation });
    }

    ctx.user_standard_token.amount = ctx.user_standard_token.amount + 1;
    ctx.blog_state.total_standard = ctx.blog_state.total_standard + 1;
    Ok(event)
}

/// Mints one premium token to the caller. Fails, in this order and with no
/// effect: `Paused` while paused, `LessThanPremiumFee` when the payment is
/// below the fee, `UriTooLong` when the per-mint URI exceeds the byte bound
/// (an empty per-mint URI is allowed), and `SupplyOverflow` at the counter
/// maximum. On success: the full payment moves from the caller to the
/// record, the holding is thawed if frozen, grows by one unit, and is
/// re-frozen — it always ends frozen, which keeps premium tokens soulbound —
/// the premium counter grows by one, and the returned notification carries
/// the caller and the URI as supplied.
///
/// The three `requires` are the same substrate limits as for the standard
/// mint.
pub fn mint_premium(ctx: &mut MintPremium, payment: u64, token_uri: String) -> (r: Result<
    PremiumReceived,
    BlogError,
>)
    requires
        payment <= old(ctx).payer_balance,
        old(ctx).blog_balance + payment <= u64::MAX,
        old(ctx).user_premium_token.amount < u64::MAX,
    ensures
        ({
            let o = op_outcome(
                old(ctx).blog_state@,
                (OpRequest::MintPremium { payment, token_uri: token_uri@ }),
            );
            match (r, o) {
                (Ok(ev), Ok(v)) => {
                    &&& final(ctx).blog_state@ == v
                    &&& final(ctx).payer == old(ctx).payer
                    &&& final(ctx).payer_balance == old(ctx).payer_balance - payment
                    &&& final(ctx).blog_balance == old(ctx).blog_balance + payment
                    &&& final(ctx).user_premium_token.amount == old(
                        ctx,
                    ).user_premium_token.amount + 1
                    &&& final(ctx).user_premium_token.frozen
                    &&& ev.sender == old(ctx).payer
                    &&& ev.token_uri@ == token_uri@
                },
                (Err(e), Err(eo)) => e == eo && *final(ctx) == *old(ctx),
                _ => false,
            }
        }),
{
    if ctx.blog_state.paused {
        return Err(BlogError::Paused);
    }
    if payment < ctx.blog_state.premium_fee {
        return Err(BlogError::LessThanPremiumFee);
    }
    if token_uri.as_str().as_bytes_vec().len() > URI_MAX_LEN {
        return Err(BlogError::UriTooLong);
    }
    if ctx.blog_state.total_premium == u64::MAX {
        return Err(BlogError::SupplyOverflow);
    }

    ctx.payer_balance = ctx.payer_balance - payment;
    ctx.blog_balance = ctx.blog_balance + payment;

    if ctx.user_premium_token.frozen {
        ctx.user_premium_token.frozen = false;
    }
    ctx.user_premium_token.amount = ctx.user_premium_token.amount + 1;
    ctx.user_premium_token.frozen = true;

    ctx.blog_state.total_premium = ctx.blog_state.total_premium + 1;
    Ok(PremiumReceived { sender: ctx.payer, token_uri })
}

} // verus!
