//! Treasury manager: withdrawal of the surplus above the reserved minimum
//! balance to a caller-chosen recipient.

use vstd::prelude::*;

verus! {

use crate::auth::check_authorized;
use crate::errors::BlogError;
use crate::events::FundsWithdrawn;
use crate::state::{BlogState, Pubkey};
use crate::transition::{OpRequest, op_outcome};

/// Inputs of a withdrawal: the caller, the record and its current balance,
/// the recipient and its balance, and the substrate's reserved minimum for
/// an account of the record's size (`rent_exempt`), read at call time.
pub struct Withdraw {
    pub authority: Pubkey,
    pub blog_state: BlogState,
    pub blog_balance: u64,
    pub recipient: Pubkey,
    pub recipient_balance: u64,
    pub rent_exempt: u64,
}

/// Moves the surplus above the reserved minimum to the recipient. Owner
/// only; fails `EmptyBalance` unless the current balance strictly exceeds
/// the reserved minimum, so the withdrawable amount is always positive. On
/// success the record keeps exactly its reserved minimum — the balance is
/// never taken below it — the recipient gains the surplus, the record
/// itself is unchanged, and the returned notification carries the recipient
/// and the amount. The `requires` is a substrate limit: balances are 64-bit,
/// so the recipient's balance must be able to take the whole transfer.
pub fn withdraw(ctx: &mut Withdraw) -> (r: Result<FundsWithdrawn, BlogError>)
    requires
        old(ctx).recipient_balance + old(ctx).blog_balance <= u64::MAX,
    ensures
        ({
            let o = op_outcome(
                old(ctx).blog_state@,
                (OpRequest::Withdraw {
                    caller: old(ctx).authority,
                    balance: old(ctx).blog_balance,
                    reserved: old(ctx).rent_exempt,
                }),
            );
            match (r, o) {
                (Ok(ev), Ok(v)) => {
                    &&& final(ctx).blog_state@ == v
                    &&& final(ctx).blog_state == old(ctx).blog_state
                    &&& final(ctx).authority == old(ctx).authority
                    &&& final(ctx).recipient == old(ctx).recipient
                    &&& final(ctx).rent_exempt == old(ctx).rent_exempt
                    &&& final(ctx).blog_balance == old(ctx).rent_exempt
                    &&& final(ctx).recipient_balance == old(ctx).recipient_balance + (old(
                        ctx,
                    ).blog_balance - old(ctx).rent_exempt)
                    &&& ev == (FundsWithdrawn {
                        recipient: old(ctx).recipient,
                        amount: (old(ctx).blog_balance - old(ctx).rent_exempt) as u64,
                    })
                },
                (Err(e), Err(eo)) => e == eo && *final(ctx) == *old(ctx),
                _ => false,
            }
        }),
        r is Ok ==> final(ctx).blog_balance >= old(ctx).rent_exempt,
        r is Err ==> final(ctx).blog_balance == old(ctx).blog_balance,
{
    match check_authorized(&ctx.authority, &ctx.blog_state) {
        Err(e) => {
            return Err(e);
        },
        Ok(()) => {},
    }
    if ctx.blog_balance <= ctx.rent_exempt {
        return Err(BlogError::EmptyBalance);
    }

    let amount: u64 = ctx.blog_balance - ctx.rent_exempt;
    ctx.blog_balance = ctx.blog_balance - amount;
    ctx.recipient_balance = ctx.recipient_balance + amount;

    Ok(FundsWithdrawn { recipient: ctx.recipient, amount })
}

} // verus!
