//! Failure kinds surfaced by the marketplace.
//!
//! Every operation either completes in full or reports exactly one of these
//! kinds; no failure is recovered from silently, so a caller can always tell
//! a funding problem from an authorization problem.

use vstd::prelude::*;

verus! {

/// Failure kinds of the listing registry and the settlement engine.
#[derive(Clone, Copy, PartialEq, Eq, Structural, Debug)]
pub enum MarketplaceError {
    /// No active listing exists for the asset.
    ListingInactive,
    /// The caller is not the identity the operation demands.
    Unauthorized,
    /// The supplied platform-fee destination is not the configured wallet.
    InvalidPlatformWallet,
    /// The buyer's balance does not cover the listed price.
    InsufficientFunds,
    /// The traded asset is not a single indivisible unit.
    InvalidAsset,
    /// The asset's metadata names no verified creator.
    NoVerifiedCreator,
    /// The supplied royalty destination is not the verified creator.
    InvalidCreatorAccount,
    /// A fee or royalty computation left 64-bit range.
    NumericalOverflow,
    /// The escrow holding does not match the listing.
    InvalidEscrowAccount,
    /// The buyer's receiving account is not the canonical derived account.
    InvalidBuyerTokenAccount,
    /// The listing was already settled.
    AlreadySold,
}

/// The description each failure kind carries.
pub open spec fn spec_message(e: MarketplaceError) -> Seq<char> {
    match e {
        MarketplaceError::ListingInactive => "This listing is no longer active."@,
        MarketplaceError::Unauthorized => "You are not authorized to sell this NFT."@,
        MarketplaceError::InvalidPlatformWallet => "Invalid platform wallet"@,
        MarketplaceError::InsufficientFunds => "Insufficient funds"@,
        MarketplaceError::InvalidAsset => "NFT is invalid"@,
        MarketplaceError::NoVerifiedCreator => "No verified creator found in metadata."@,
        MarketplaceError::InvalidCreatorAccount => "Invalid creator account"@,
        MarketplaceError::NumericalOverflow => "Numerical overflow"@,
        MarketplaceError::InvalidEscrowAccount => "Invalid escrow account"@,
        MarketplaceError::InvalidBuyerTokenAccount => "Invalid buyer token account"@,
        MarketplaceError::AlreadySold => "NFT already sold"@,
    }
}

impl MarketplaceError {
    /// A short human-readable description of the failure kind.
    pub fn message(&self) -> (r: &'static str)
        ensures
            r@ == spec_message(*self),
    {
        match self {
            MarketplaceError::ListingInactive => "This listing is no longer active.",
            MarketplaceError::Unauthorized => "You are not authorized to sell this NFT.",
            MarketplaceError::InvalidPlatformWallet => "Invalid platform wallet",
            MarketplaceError::InsufficientFunds => "Insufficient funds",
            MarketplaceError::InvalidAsset => "NFT is invalid",
            MarketplaceError::NoVerifiedCreator => "No verified creator found in metadata.",
            MarketplaceError::InvalidCreatorAccount => "Invalid creator account",
            MarketplaceError::NumericalOverflow => "Numerical overflow",
            MarketplaceError::InvalidEscrowAccount => "Invalid escrow account",
            MarketplaceError::InvalidBuyerTokenAccount => "Invalid buyer token account",
            MarketplaceError::AlreadySold => "NFT already sold",
        }
    }
}

/// Failure kind of the listing registry's caller-facing guard.
#[derive(Clone, Copy, PartialEq, Eq, Structural, Debug)]
pub enum CustomError {
    /// The listing record is not active.
    ListingNotActive,
}

impl CustomError {
    /// A short human-readable description of the failure kind.
    pub fn message(&self) -> (r: &'static str)
        ensures
            r@ == "The listing is not active."@,
    {
        match self {
            CustomError::ListingNotActive => "The listing is not active.",
        }
    }
}

} // verus!
