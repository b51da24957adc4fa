//! The authorization validator: the identity and account-shape checks shared
//! by the registry and the settlement engine.
//!
//! Each check compares one supplied value against the one value the
//! operation expects and yields its own failure kind, so that a failed
//! operation always attributes the refusal precisely.

use vstd::prelude::*;

verus! {

use crate::accounts::{Address, EscrowAccount, MintAccount};
use crate::errors::MarketplaceError;

/// Passes exactly when the caller is the recorded seller.
pub fn check_seller(caller: Address, recorded_seller: Address) -> (r: Result<
    (),
    MarketplaceError,
>)
    ensures
        r is Ok <==> caller == recorded_seller,
        r is Err ==> r == Err::<(), MarketplaceError>(MarketplaceError::Unauthorized),
{
    if caller == recorded_seller {
        Ok(())
    } else {
        Err(MarketplaceError::Unauthorized)
    }
}

/// Passes exactly when the asset is a single indivisible unit: one unit in
/// existence, no fractional precision.
pub fn check_asset(mint: MintAccount) -> (r: Result<(), MarketplaceError>)
    ensures
        r is Ok <==> mint.supply == 1 && mint.decimals == 0,
        r is Err ==> r == Err::<(), MarketplaceError>(MarketplaceError::InvalidAsset),
{
    if mint.supply == 1 && mint.decimals == 0 {
        Ok(())
    } else {
        Err(MarketplaceError::InvalidAsset)
    }
}

/// Passes exactly when the supplied fee destination is the configured
/// platform wallet.
pub fn check_platform_wallet(supplied: Address, configured: Address) -> (r: Result<
    (),
    MarketplaceError,
>)
    ensures
        r is Ok <==> supplied == configured,
        r is Err ==> r == Err::<(), MarketplaceError>(MarketplaceError::InvalidPlatformWallet),
{
    if supplied == configured {
        Ok(())
    } else {
        Err(MarketplaceError::InvalidPlatformWallet)
    }
}

/// Passes exactly when the supplied royalty destination is the verified
/// creator's address.
pub fn check_creator(supplied: Address, verified_creator: Address) -> (r: Result<
    (),
    MarketplaceError,
>)
    ensures
        r is Ok <==> supplied == verified_creator,
        r is Err ==> r == Err::<(), MarketplaceError>(MarketplaceError::InvalidCreatorAccount),
{
    if supplied == verified_creator {
        Ok(())
    } else {
        Err(MarketplaceError::InvalidCreatorAccount)
    }
}

/// Passes exactly when the supplied receiving account is the canonical
/// holding account derived from the buyer's identity and the asset id.
pub fn check_buyer_token_account(supplied: Address, buyer: u64, nft_mint: u64) -> (r: Result<
    (),
    MarketplaceError,
>)
    ensures
        r is Ok <==> supplied == Address::TokenAccount(buyer, nft_mint),
        r is Err ==> r == Err::<(), MarketplaceError>(MarketplaceError::InvalidBuyerTokenAccount),
{
    if supplied == Address::TokenAccount(buyer, nft_mint) {
        Ok(())
    } else {
        Err(MarketplaceError::InvalidBuyerTokenAccount)
    }
}

/// Passes exactly when the escrow holding is controlled by the listing's
/// derived authority, contains exactly one unit, and holds the listed asset.
pub fn check_escrow(escrow: EscrowAccount, nft_mint: u64, bump: u8) -> (r: Result<
    (),
    MarketplaceError,
>)
    ensures
        r is Ok <==> escrow.owner == Address::ListingAuthority(nft_mint, bump) && escrow.amount
            == 1 && escrow.mint == nft_mint,
        r is Err ==> r == Err::<(), MarketplaceError>(MarketplaceError::InvalidEscrowAccount),
{
    if escrow.owner == Address::ListingAuthority(nft_mint, bump) && escrow.amount == 1
        && escrow.mint == nft_mint {
        Ok(())
    } else {
        Err(MarketplaceError::InvalidEscrowAccount)
    }
}

} // verus!
