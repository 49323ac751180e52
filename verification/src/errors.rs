//! The flat error taxonomy. Every failure is terminal for its call and is
//! surfaced to the caller verbatim; an error aborts the whole operation with
//! no partial effect.

use vstd::prelude::*;

verus! {

/// One variant per failure mode of the seven operations.
#[derive(Clone, Copy, PartialEq, Eq, Structural, Debug)]
pub enum BlogError {
    /// The caller is not the stored owner identity.
    Unauthorized,
    /// A premium fee is zero, or a fee update does not change the value.
    InvalidNewFee,
    /// Issuance was attempted while the record is paused.
    Paused,
    /// A premium payment is below the configured premium fee.
    LessThanPremiumFee,
    /// No withdrawable surplus above the reserved minimum balance.
    EmptyBalance,
    /// A metadata URI is empty.
    EmptyUri,
    /// A URI exceeds the maximum supported byte length.
    UriTooLong,
    /// An issuance counter is at its maximum and may not wrap.
    SupplyOverflow,
}

impl BlogError {
    /// The static message of each error, as surfaced to callers.
    pub fn message(&self) -> (r: &'static str)
        ensures
            r@.len() > 0,
    {
        let m: &'static str = match self {
            BlogError::Unauthorized => "Caller is not authorized to perform this action.",
            BlogError::InvalidNewFee => "Premium minting fee must be greater than zero and different from current value.",
            BlogError::Paused => "Contract is currently paused.",
            BlogError::LessThanPremiumFee => "Premium minting fee payment is below the required amount.",
            BlogError::EmptyBalance => "No withdrawable balance is available.",
            BlogError::EmptyUri => "URI cannot be empty.",
            BlogError::UriTooLong => "URI exceeds maximum supported length.",
            BlogError::SupplyOverflow => "Token supply overflow.",
        };
        proof {
            reveal_strlit("Caller is not authorized to perform this action.");
            reveal_strlit("Premium minting fee must be greater than zero and different from current value.");
            reveal_strlit("Contract is currently paused.");
            reveal_strlit("Premium minting fee payment is below the required amount.");
            reveal_strlit("No withdrawable balance is available.");
            reveal_strlit("URI cannot be empty.");
            reveal_strlit("URI exceeds maximum supported length.");
            reveal_strlit("Token supply overflow.");
        }
        m
    }
}

} // verus!
