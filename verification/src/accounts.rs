//! The account model the engine decides over.
//!
//! Identities and asset ids are plain integers. Derived addresses are not
//! opaque strings but explicit records: the canonical holding account of a
//! wallet for an asset carries the pair it is derived from, and the escrow
//! authority of a listing carries the asset id and discriminant it is scoped
//! to. Validating a supplied address is therefore an equality check against
//! the expected derivation, and a derived authority can never be mistaken
//! for one scoped to a different asset.

use vstd::prelude::*;

verus! {

/// An address on the ledger, either a wallet or an address derived
/// deterministically from stable inputs.
#[derive(Clone, Copy, PartialEq, Eq, Structural, Debug, Hash)]
pub enum Address {
    /// An independently held wallet, named by its identity.
    Wallet(u64),
    /// The canonical holding account of a wallet for one asset, derived from
    /// the owning wallet's identity and the asset id.
    TokenAccount(u64, u64),
    /// The escrow capability of one listing, derived from the listed asset's
    /// id and the listing's discriminant byte. It authorizes custody
    /// transfers for that listing alone.
    ListingAuthority(u64, u8),
}

/// The observed state of an asset's mint: how many units exist and with what
/// fractional precision. A tradable asset has exactly one unit and no
/// fractional precision.
#[derive(Clone, Copy, PartialEq, Eq, Structural, Debug)]
pub struct MintAccount {
    /// The asset id.
    pub address: u64,
    /// How many units of the asset exist.
    pub supply: u64,
    /// The fractional precision of a unit.
    pub decimals: u8,
}

/// The observed state of the escrow holding offered for a sale or a
/// withdrawal.
#[derive(Clone, Copy, PartialEq, Eq, Structural, Debug)]
pub struct EscrowAccount {
    /// The authority controlling the holding.
    pub owner: Address,
    /// The asset the holding contains.
    pub mint: u64,
    /// How many units the holding contains.
    pub amount: u64,
}

} // verus!
