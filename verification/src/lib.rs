//! An escrow-based marketplace settlement engine for unique, indivisible
//! digital assets.
//!
//! The marketplace lists an asset for sale, holds it in escrow until sold or
//! withdrawn, and on purchase splits the proceeds between the platform, the
//! seller and the asset's verified creator while releasing custody to the
//! buyer. Every operation is all-or-nothing: it either completes in full or
//! fails with one precise error kind and leaves the marketplace unchanged.
//!
//! The engine works on plain account values. Moving lamports and token units
//! on the underlying ledger, as well as creating assets, is the business of
//! the surrounding runtime; the engine decides what may happen and states the
//! exact amounts and destinations of every transfer it orders.

use vstd::prelude::*;

pub mod accounts;
pub mod auth;
pub mod errors;
pub mod fees;
pub mod listing;
pub mod meta;
pub mod mint;

verus! {

use crate::errors::MarketplaceError;
use crate::listing::{sale_outcome, Marketplace, SaleContext, Settlement};
use crate::meta::Metadata;

/// Buys a listed asset: transfers the price from the buyer — split exactly
/// into platform fee, creator royalty and seller proceeds — and releases
/// the escrowed unit to the buyer. Any failure leaves the marketplace
/// unchanged and moves nothing.
pub fn buy(m: &mut Marketplace, ctx: &SaleContext, metadata: &Metadata) -> (r: Result<
    Settlement,
    MarketplaceError,
>)
    requires
        old(m).wf(),
    ensures
        final(m).wf(),
        final(m).platform_fee_wallet == old(m).platform_fee_wallet,
        (final(m).listings@, r) == sale_outcome(
            old(m).listings@,
            old(m).platform_fee_wallet,
            *ctx,
            *metadata,
        ),
        r matches Ok(settlement) ==> settlement.platform_fee + settlement.royalty
            + settlement.seller_amount == settlement.price,
{
    crate::listing::sell(m, ctx, metadata)
}

} // verus!
