//! The specification-level transition system: one datatype of operation
//! requests and one function giving each request's outcome on a record view.
//! Every executable operation is proved to implement this function, and the
//! laws of the system are proved about it.

use vstd::prelude::*;

verus! {

use crate::errors::BlogError;
use crate::state::{BlogStateView, Pubkey, URI_MAX_LEN, uri_byte_len};

/// One mutating request against an existing record, with the inputs that
/// decide its outcome. Creation is separate (`create_outcome`): it makes the
/// record rather than transforming one. For `Withdraw`, `balance` and
/// `reserved` are the record's current balance and the substrate's reserved
/// minimum, both read at call time.
pub enum OpRequest {
    Pause { caller: Pubkey },
    Unpause { caller: Pubkey },
    UpdatePremiumFee { caller: Pubkey, new_fee: u64 },
    ModifyUri { caller: Pubkey, new_uri: Seq<char> },
    MintStandard { donation: u64 },
    MintPremium { payment: u64, token_uri: Seq<char> },
    Withdraw { caller: Pubkey, balance: u64, reserved: u64 },
}

/// The authorization guard: a caller may mutate configuration or withdraw
/// funds iff it is the stored owner identity.
pub open spec fn authorized(caller: Pubkey, s: BlogStateView) -> bool {
    caller == s.authority
}

/// Outcome of one request on one record view: the new view on success, or
/// the exact error otherwise. Checks run in the order the operation performs
/// them, which fixes which error is reported when several would apply.
pub open spec fn op_outcome(s: BlogStateView, op: OpRequest) -> Result<BlogStateView, BlogError> {
    match op {
        OpRequest::Pause { caller } => {
            if !authorized(caller, s) {
                Err(BlogError::Unauthorized)
            } else {
                Ok(BlogStateView { paused: true, ..s })
            }
        },
        OpRequest::Unpause { caller } => {
            if !authorized(caller, s) {
                Err(BlogError::Unauthorized)
            } else {
                Ok(BlogStateView { paused: false, ..s })
            }
        },
        OpRequest::UpdatePremiumFee { caller, new_fee } => {
            if !authorized(caller, s) {
                Err(BlogError::Unauthorized)
            } else if new_fee == 0 || new_fee == s.premium_fee {
                Err(BlogError::InvalidNewFee)
            } else {
                Ok(BlogStateView { premium_fee: new_fee, ..s })
            }
        },
        OpRequest::ModifyUri { caller, new_uri } => {
            if new_uri.len() == 0 {
                Err(BlogError::EmptyUri)
            } else if uri_byte_len(new_uri) > URI_MAX_LEN {
                Err(BlogError::UriTooLong)
            } else if !authorized(caller, s) {
                Err(BlogError::Unauthorized)
            } else {
                Ok(BlogStateView { uri: new_uri, ..s })
            }
        },
        OpRequest::MintStandard { donation: _ } => {
            if s.paused {
                Err(BlogError::Paused)
            } else if s.total_standard == u64::MAX {
                Err(BlogError::SupplyOverflow)
            } else {
                Ok(BlogStateView { total_standard: (s.total_standard + 1) as u64, ..s })
            }
        },
        OpRequest::MintPremium { payment, token_uri } => {
            if s.paused {
                Err(BlogError::Paused)
            } else if payment < s.premium_fee {
                Err(BlogError::LessThanPremiumFee)
            } else if uri_byte_len(token_uri) > URI_MAX_LEN {
                Err(BlogError::UriTooLong)
            } else if s.total_premium == u64::MAX {
                Err(BlogError::SupplyOverflow)
            } else {
                Ok(BlogStateView { total_premium: (s.total_premium + 1) as u64, ..s })
            }
        },
        OpRequest::Withdraw { caller, balance, reserved } => {
            if !authorized(caller, s) {
                Err(BlogError::Unauthorized)
            } else if balance <= reserved {
                Err(BlogError::EmptyBalance)
            } else {
                Ok(s)
            }
        },
    }
}

/// Outcome of creation: the fresh record view, or the exact error. `ctx`
/// carries the caller's identity and the derivation markers of the record
/// and its two token classes.
pub open spec fn create_outcome(
    ctx: crate::config::Initialize,
    fee: u64,
    uri: Seq<char>,
) -> Result<BlogStateView, BlogError> {
    if fee == 0 {
        Err(BlogError::InvalidNewFee)
    } else if uri.len() == 0 {
        Err(BlogError::EmptyUri)
    } else if uri_byte_len(uri) > URI_MAX_LEN {
        Err(BlogError::UriTooLong)
    } else {
        Ok(
            BlogStateView {
                authority: ctx.authority,
                premium_fee: fee,
                uri,
                paused: false,
                bump: ctx.bump,
                standard_mint: ctx.standard_mint,
                standard_mint_bump: ctx.standard_mint_bump,
                premium_mint: ctx.premium_mint,
                premium_mint_bump: ctx.premium_mint_bump,
                total_standard: 0,
                total_premium: 0,
            },
        )
    }
}

/// The record after one request: the outcome's value on success, the record
/// unchanged on failure (an error has no observable effect).
pub open spec fn state_after(s: BlogStateView, op: OpRequest) -> BlogStateView {
    match op_outcome(s, op) {
        Ok(v) => v,
        Err(_) => s,
    }
}

/// The record after a whole sequence of requests, applied first to last.
pub open spec fn run_ops(s: BlogStateView, ops: Seq<OpRequest>) -> BlogStateView
    decreases ops.len(),
{
    if ops.len() == 0 {
        s
    } else {
        run_ops(state_after(s, ops[0]), ops.drop_first())
    }
}

} // verus!
