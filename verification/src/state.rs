//! The configuration-and-ledger record, its mathematical view, and its
//! well-formedness invariant.

use vstd::prelude::*;

verus! {

use vstd::utf8::encode_utf8;

/// Upper bound, in bytes, on the stored metadata URI and on any per-mint URI.
pub const URI_MAX_LEN: usize = 1024;

/// An identity handle on the hosting ledger: an address of an account, a
/// token class, or a caller. Opaque to the business logic, which only ever
/// compares two handles for equality.
#[derive(Clone, Copy, PartialEq, Eq, Structural, Debug)]
pub struct Pubkey {
    pub id: u64,
}

/// A caller's holding of one token class: how many units it holds and whether
/// the holding is frozen (non-transferable-locked) on the ledger.
#[derive(Clone, Copy, PartialEq, Eq, Structural, Debug)]
pub struct TokenHolding {
    pub amount: u64,
    pub frozen: bool,
}

/// The single mutable record of the system: owner identity, pricing,
/// metadata, pause flag, the two token classes, issuance counters, and the
/// opaque derivation markers used to reconstruct the record's address.
#[derive(Debug)]
pub struct BlogState {
    pub authority: Pubkey,
    pub premium_fee: u64,
    pub uri: String,
    pub paused: bool,
    pub bump: u8,
    pub standard_mint: Pubkey,
    pub standard_mint_bump: u8,
    pub premium_mint: Pubkey,
    pub premium_mint_bump: u8,
    pub total_standard: u64,
    pub total_premium: u64,
}

/// Mathematical view of a `BlogState`: the same fields, with the URI as its
/// character sequence.
#[verifier::ext_equal]
pub struct BlogStateView {
    pub authority: Pubkey,
    pub premium_fee: u64,
    pub uri: Seq<char>,
    pub paused: bool,
    pub bump: u8,
    pub standard_mint: Pubkey,
    pub standard_mint_bump: u8,
    pub premium_mint: Pubkey,
    pub premium_mint_bump: u8,
    pub total_standard: u64,
    pub total_premium: u64,
}

impl View for BlogState {
    type V = BlogStateView;

    open spec fn view(&self) -> BlogStateView {
        BlogStateView {
            authority: self.authority,
            premium_fee: self.premium_fee,
            uri: self.uri@,
            paused: self.paused,
            bump: self.bump,
            standard_mint: self.standard_mint,
            standard_mint_bump: self.standard_mint_bump,
            premium_mint: self.premium_mint,
            premium_mint_bump: self.premium_mint_bump,
            total_standard: self.total_standard,
            total_premium: self.total_premium,
        }
    }
}

/// Length, in bytes, of the UTF-8 encoding of a character sequence; the
/// measure against which every URI bound is stated.
pub open spec fn uri_byte_len(s: Seq<char>) -> nat {
    encode_utf8(s).len()
}

/// Record invariant: the premium fee is strictly positive and the stored
/// metadata URI is non-empty and within the byte bound. Established by
/// creation and preserved by every operation.
pub open spec fn well_formed(s: BlogStateView) -> bool {
    &&& s.premium_fee > 0
    &&& s.uri.len() > 0
    &&& uri_byte_len(s.uri) <= URI_MAX_LEN
}

impl BlogState {
    /// Serialized size, in bytes, of the record on the hosting substrate;
    /// the reserved-minimum-balance query is a function of this size.
    pub fn space() -> (r: usize)
        ensures
            r == 1160,
    {
        8  // discriminator
        + 32  // authority
        + 8  // premium fee
        + 4 + URI_MAX_LEN  // uri string
        + 1  // paused
        + 1  // bump
        + 32  // standard mint
        + 1  // standard bump
        + 32  // premium mint
        + 1  // premium bump
        + 8 + 8  // supplies
    }
}

} // verus!
