//! State-transition logic of a single-tenant publishing/membership service.
//!
//! One configuration-and-ledger record per owner is created once and then
//! mutated only through seven operations: pause, unpause, fee update, metadata
//! update, two issuance flows (standard and premium tokens), and a treasury
//! withdrawal. Every operation validates its inputs, enforces the single
//! owner's authority where required, and either commits completely or fails
//! with one error and no observable effect.
//!
//! The hosting ledger substrate (account derivation, value transfer, token
//! mint/freeze/thaw) is modelled at its interface boundary: balances and token
//! holdings are plain values inside each operation's context, and the
//! operation's contract states exactly how they move.

use vstd::prelude::*;

pub mod auth;
pub mod config;
pub mod errors;
pub mod events;
pub mod issuance;
pub mod laws;
pub mod state;
pub mod transition;
pub mod treasury;

verus! {

pub const CONTRACT_VERSION: &'static str = "1.0.0";

pub const CONTRACT_NAME: &'static str = "Blog";

} // verus!
