//! Notification records emitted on successful operations, for external
//! observers; never read back by this logic.

use vstd::prelude::*;

verus! {

use crate::state::Pubkey;

/// Emitted when a standard-issuance donation moves funds into the record.
#[derive(Clone, Copy, PartialEq, Eq, Structural, Debug)]
pub struct FundsReceived {
    pub sender: Pubkey,
    pub amount: u64,
}

/// Emitted when a withdrawal moves surplus funds out of the record.
#[derive(Clone, Copy, PartialEq, Eq, Structural, Debug)]
pub struct FundsWithdrawn {
    pub recipient: Pubkey,
    pub amount: u64,
}

/// Emitted on every successful premium issuance, carrying the caller-supplied
/// per-mint metadata URI (accepted as given, not checked against prior mints).
#[derive(Clone, PartialEq, Debug)]
pub struct PremiumReceived {
    pub sender: Pubkey,
    pub token_uri: String,
}

} // verus!
