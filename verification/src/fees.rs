//! Settlement arithmetic: the exact split of a sale price into platform fee,
//! creator royalty and seller proceeds.
//!
//! The platform keeps two percent of the price, rounded down. The creator
//! receives their royalty rate, in basis points, of what then remains, again
//! rounded down; the seller receives the rest. The three shares always add
//! up to the price exactly, and every computation is overflow-checked.

use vstd::prelude::*;

verus! {

use crate::errors::MarketplaceError;
use vstd::arithmetic::div_mod::{lemma_div_pos_is_pos, lemma_multiply_divide_le};
use vstd::arithmetic::mul::{lemma_mul_inequality, lemma_mul_is_commutative, lemma_mul_nonnegative};

/// Platform commission: two percent of the sale price, rounded down.
pub open spec fn spec_platform_fee(price: int) -> int {
    price * 2 / 100
}

/// What remains of the price once the platform commission is taken.
pub open spec fn spec_remaining(price: int) -> int {
    price - spec_platform_fee(price)
}

/// Creator royalty: the given rate, in basis points, of the remaining
/// proceeds, rounded down; a zero rate pays nothing.
pub open spec fn spec_royalty(remaining: int, royalty_bps: int) -> int {
    if royalty_bps > 0 {
        remaining * royalty_bps / 10000
    } else {
        0
    }
}

/// Seller proceeds: the remaining amount less the creator royalty.
pub open spec fn spec_seller_amount(remaining: int, royalty_bps: int) -> int {
    remaining - spec_royalty(remaining, royalty_bps)
}

/// The platform fee of a non-negative price is non-negative and never
/// exceeds the price itself.
pub proof fn lemma_platform_fee_bounds(price: int)
    requires
        0 <= price,
    ensures
        0 <= spec_platform_fee(price) <= price,
{
    lemma_div_pos_is_pos(price * 2, 100);
    lemma_multiply_divide_le(price * 2, 100, price);
}

/// A royalty at a rate of at most 10000 basis points is non-negative and
/// never exceeds the remaining proceeds it is taken from.
pub proof fn lemma_royalty_bounds(remaining: int, royalty_bps: int)
    requires
        0 <= remaining,
        0 <= royalty_bps <= 10000,
    ensures
        0 <= spec_royalty(remaining, royalty_bps) <= remaining,
{
    if royalty_bps > 0 {
        lemma_mul_nonnegative(remaining, royalty_bps);
        lemma_div_pos_is_pos(remaining * royalty_bps, 10000);
        lemma_mul_inequality(royalty_bps, 10000, remaining);
        lemma_mul_is_commutative(remaining, royalty_bps);
        lemma_multiply_divide_le(remaining * royalty_bps, 10000, remaining);
    }
}

/// Conservation law: for every valid price and royalty rate, the platform
/// fee, the creator royalty and the seller proceeds split the price exactly,
/// and none of the three shares is negative.
pub proof fn lemma_split_conservation(price: int, royalty_bps: int)
    requires
        0 <= price,
        0 <= royalty_bps <= 10000,
    ensures
        ({
            let fee = spec_platform_fee(price);
            let remaining = spec_remaining(price);
            let royalty = spec_royalty(remaining, royalty_bps);
            let seller = spec_seller_amount(remaining, royalty_bps);
            fee + seller + royalty == price && 0 <= fee && 0 <= royalty && 0 <= seller
        }),
{
    lemma_platform_fee_bounds(price);
    lemma_royalty_bounds(spec_remaining(price), royalty_bps);
}

/// A zero royalty rate pays the creator nothing and leaves the seller the
/// whole remaining amount.
pub proof fn lemma_zero_royalty(remaining: int)
    ensures
        spec_royalty(remaining, 0) == 0,
        spec_seller_amount(remaining, 0) == remaining,
{
}

/// The full split of a sale price.
#[derive(Clone, Copy, PartialEq, Eq, Structural, Debug)]
pub struct Split {
    /// The platform's commission.
    pub platform_fee: u64,
    /// The price less the platform commission.
    pub remaining: u64,
    /// The creator's royalty, taken from the remaining amount.
    pub royalty: u64,
    /// The seller's proceeds, the remaining amount less the royalty.
    pub seller_amount: u64,
}

/// Whether the whole split of `price` at `royalty_bps` is computable in
/// checked 64-bit arithmetic.
pub open spec fn split_ok(price: int, royalty_bps: int) -> bool {
    &&& price * 2 <= u64::MAX
    &&& (royalty_bps > 0 ==> spec_remaining(price) * royalty_bps <= u64::MAX)
    &&& spec_royalty(spec_remaining(price), royalty_bps) <= spec_remaining(price)
}

/// Computes the platform fee and the remaining proceeds of a sale price.
pub fn compute_platform_fee(price: u64) -> (r: Result<(u64, u64), MarketplaceError>)
    ensures
        r is Ok <==> price * 2 <= u64::MAX,
        r matches Ok(fr) ==> fr.0 == spec_platform_fee(price as int)
            && fr.1 == spec_remaining(price as int)
            && fr.0 + fr.1 == price,
        r is Err ==> r == Err::<(u64, u64), MarketplaceError>(MarketplaceError::NumericalOverflow),
{
    let doubled: u64 = match price.checked_mul(2) {
        Some(d) => d,
        None => {
            return Err(MarketplaceError::NumericalOverflow);
        },
    };
    let platform_fee: u64 = doubled / 100;
    proof {
        lemma_platform_fee_bounds(price as int);
    }
    let remaining: u64 = price - platform_fee;
    Ok((platform_fee, remaining))
}

/// Computes the creator royalty and the seller proceeds from the remaining
/// amount of a sale.
pub fn compute_royalty_split(remaining: u64, royalty_bps: u16) -> (r: Result<(u64, u64), MarketplaceError>)
    ensures
        r is Ok <==> ((royalty_bps > 0 ==> remaining * royalty_bps <= u64::MAX)
            && spec_royalty(remaining as int, royalty_bps as int) <= remaining),
        r matches Ok(rs) ==> rs.0 == spec_royalty(remaining as int, royalty_bps as int)
            && rs.1 == spec_seller_amount(remaining as int, royalty_bps as int)
            && rs.0 + rs.1 == remaining,
        r is Err ==> r == Err::<(u64, u64), MarketplaceError>(MarketplaceError::NumericalOverflow),
{
    let royalty: u64 = if royalty_bps > 0 {
        let product: u64 = match remaining.checked_mul(royalty_bps as u64) {
            Some(p) => p,
            None => {
                return Err(MarketplaceError::NumericalOverflow);
            },
        };
        product / 10000
    } else {
        0
    };
    let seller_amount: u64 = match remaining.checked_sub(royalty) {
        Some(s) => s,
        None => {
            return Err(MarketplaceError::NumericalOverflow);
        },
    };
    Ok((royalty, seller_amount))
}

/// Splits a sale price into platform fee, remaining proceeds, creator
/// royalty and seller proceeds, or reports that the split leaves 64-bit
/// range.
pub fn compute_split(price: u64, royalty_bps: u16) -> (r: Result<Split, MarketplaceError>)
    ensures
        r is Ok <==> split_ok(price as int, royalty_bps as int),
        r matches Ok(s) ==> s.platform_fee == spec_platform_fee(price as int)
            && s.remaining == spec_remaining(price as int)
            && s.royalty == spec_royalty(s.remaining as int, royalty_bps as int)
            && s.seller_amount == spec_seller_amount(s.remaining as int, royalty_bps as int)
            && s.platform_fee + s.royalty + s.seller_amount == price,
        r is Err ==> r == Err::<Split, MarketplaceError>(MarketplaceError::NumericalOverflow),
{
    let fee_part: (u64, u64) = match compute_platform_fee(price) {
        Ok(p) => p,
        Err(e) => {
            return Err(e);
        },
    };
    let platform_fee: u64 = fee_part.0;
    let remaining: u64 = fee_part.1;
    let royalty_part: (u64, u64) = match compute_royalty_split(remaining, royalty_bps) {
        Ok(p) => p,
        Err(e) => {
            return Err(e);
        },
    };
    let royalty: u64 = royalty_part.0;
    let seller_amount: u64 = royalty_part.1;
    Ok(Split { platform_fee, remaining, royalty, seller_amount })
}

} // verus!
