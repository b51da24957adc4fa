use nft_marketplace::errors::MarketplaceError;
use nft_marketplace::fees::{compute_platform_fee, compute_royalty_split, compute_split, Split};

#[test]
fn worked_example_split() {
    // price = 1000 at 500 basis points: fee 20, remaining 980, royalty 49,
    // seller 931, and the three shares add up to the price exactly.
    let split = compute_split(1000, 500).unwrap();
    assert_eq!(
        split,
        Split { platform_fee: 20, remaining: 980, royalty: 49, seller_amount: 931 }
    );
    assert_eq!(split.platform_fee + split.royalty + split.seller_amount, 1000);
}

#[test]
fn zero_royalty_pays_seller_everything() {
    let split = compute_split(1000, 0).unwrap();
    assert_eq!(split.platform_fee, 20);
    assert_eq!(split.royalty, 0);
    assert_eq!(split.seller_amount, split.remaining);
    assert_eq!(split.seller_amount, 980);
}

#[test]
fn zero_price_splits_to_nothing() {
    let split = compute_split(0, 500).unwrap();
    assert_eq!(split, Split { platform_fee: 0, remaining: 0, royalty: 0, seller_amount: 0 });
}

#[test]
fn full_royalty_rate_takes_all_remaining() {
    let split = compute_split(1000, 10000).unwrap();
    assert_eq!(split.platform_fee, 20);
    assert_eq!(split.royalty, 980);
    assert_eq!(split.seller_amount, 0);
}

#[test]
fn rounding_is_downward() {
    // 2% of 99 is 1.98, so the fee rounds down to 1; 500 bps of 98 is 4.9,
    // so the royalty rounds down to 4.
    let split = compute_split(99, 500).unwrap();
    assert_eq!(split.platform_fee, 1);
    assert_eq!(split.remaining, 98);
    assert_eq!(split.royalty, 4);
    assert_eq!(split.seller_amount, 94);
}

#[test]
fn doubling_overflow_is_reported() {
    assert_eq!(compute_split(u64::MAX, 0), Err(MarketplaceError::NumericalOverflow));
    assert_eq!(compute_platform_fee(u64::MAX), Err(MarketplaceError::NumericalOverflow));
}

#[test]
fn largest_price_that_doubles() {
    // The largest price whose doubling still fits in 64 bits splits cleanly.
    let price = u64::MAX / 2;
    let split = compute_split(price, 0).unwrap();
    assert_eq!(split.platform_fee, (price * 2 / 100) as u64);
    assert_eq!(split.platform_fee + split.seller_amount, price);
}

#[test]
fn royalty_product_overflow_is_reported() {
    // The remaining amount is large enough that multiplying by the rate
    // leaves 64-bit range.
    let price = u64::MAX / 2;
    assert_eq!(compute_split(price, 10000), Err(MarketplaceError::NumericalOverflow));
}

#[test]
fn royalty_rate_above_ten_thousand_overflows_the_seller_share() {
    // 65535 bps of 980 is 6422, more than the remaining 980: the subtraction
    // is reported as an overflow rather than wrapped.
    assert_eq!(compute_split(1000, 65535), Err(MarketplaceError::NumericalOverflow));
    assert_eq!(compute_royalty_split(980, 65535), Err(MarketplaceError::NumericalOverflow));
}

#[test]
fn conservation_on_samples() {
    for price in [0u64, 1, 37, 99, 100, 101, 12345, 1_000_000_007, u64::MAX / 2] {
        for bps in [0u16, 1, 250, 500, 9999, 10000] {
            if let Ok(split) = compute_split(price, bps) {
                assert_eq!(split.platform_fee + split.royalty + split.seller_amount, price);
                assert_eq!(split.platform_fee + split.remaining, price);
                assert!(split.royalty <= split.remaining);
            }
        }
    }
}
