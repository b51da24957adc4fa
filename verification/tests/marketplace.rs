use nft_marketplace::accounts::{Address, EscrowAccount, MintAccount};
use nft_marketplace::buy;
use nft_marketplace::errors::{CustomError, MarketplaceError};
use nft_marketplace::listing::{delist_nft, list_nft, sell, EscrowRelease, Marketplace, SaleContext};
use nft_marketplace::meta::{Creator, Metadata};
use nft_marketplace::mint::mint_nft;

const PLATFORM: Address = Address::Wallet(900);
const SELLER: Address = Address::Wallet(1);
const CREATOR: Address = Address::Wallet(5);
const BUYER: u64 = 2;
const NFT: u64 = 7;
const BUMP: u8 = 3;
const PRICE: u64 = 1000;

fn listed_marketplace() -> Marketplace {
    let mut m = Marketplace::new(PLATFORM);
    list_nft(&mut m, SELLER, NFT, PRICE, BUMP);
    m
}

fn metadata_with(creators: Option<Vec<Creator>>, bps: u16) -> Metadata {
    Metadata {
        name: String::from("Piece"),
        symbol: String::from("PC"),
        uri: String::from("ipfs://piece"),
        seller_fee_basis_points: bps,
        creators,
    }
}

fn good_metadata() -> Metadata {
    metadata_with(
        Some(vec![Creator { address: CREATOR, verified: true, share: 100 }]),
        500,
    )
}

fn good_ctx() -> SaleContext {
    SaleContext {
        buyer_authority: BUYER,
        buyer_lamports: 5000,
        mint: MintAccount { address: NFT, supply: 1, decimals: 0 },
        platform_fee_wallet: PLATFORM,
        creator_account: CREATOR,
        buyer_token_account: Address::TokenAccount(BUYER, NFT),
        escrow_nft_account: EscrowAccount {
            owner: Address::ListingAuthority(NFT, BUMP),
            mint: NFT,
            amount: 1,
        },
    }
}

#[test]
fn list_records_the_offer() {
    let mut m = Marketplace::new(PLATFORM);
    let listing = list_nft(&mut m, SELLER, NFT, PRICE, BUMP);
    assert_eq!(listing.seller, SELLER);
    assert_eq!(listing.nft_mint, NFT);
    assert_eq!(listing.price, PRICE);
    assert_eq!(listing.bump, BUMP);
    assert_eq!(m.listings.len(), 1);
    assert_eq!(m.listings[0], listing);
}

#[test]
fn registry_reports_active_listings() {
    let mut m = Marketplace::new(PLATFORM);
    assert!(!m.has_active_listing(NFT));
    assert_eq!(m.get_listing(NFT), None);
    let listing = list_nft(&mut m, SELLER, NFT, PRICE, BUMP);
    assert!(m.has_active_listing(NFT));
    assert_eq!(m.get_listing(NFT), Some(listing));
}

#[test]
fn list_then_delist_round_trip() {
    // Listing and immediately delisting as the original seller returns
    // exactly one unit of the original asset to that seller and removes the
    // listing; no settlement is produced, so no funds move.
    let mut m = listed_marketplace();
    let release = delist_nft(&mut m, SELLER, NFT).unwrap();
    assert_eq!(
        release,
        EscrowRelease {
            authority: Address::ListingAuthority(NFT, BUMP),
            to: SELLER,
            nft_mint: NFT,
            amount: 1,
        }
    );
    assert!(m.listings.is_empty());
    assert_eq!(m.platform_fee_wallet, PLATFORM);
}

#[test]
fn delist_by_other_identity_is_unauthorized() {
    // Any caller but the recorded seller is refused and the listing stays.
    let mut m = listed_marketplace();
    let r = delist_nft(&mut m, Address::Wallet(2), NFT);
    assert_eq!(r, Err(MarketplaceError::Unauthorized));
    assert_eq!(m.listings.len(), 1);
    assert_eq!(m.listings[0].seller, SELLER);
}

#[test]
fn delist_without_listing_is_inactive() {
    let mut m = Marketplace::new(PLATFORM);
    let r = delist_nft(&mut m, SELLER, NFT);
    assert_eq!(r, Err(MarketplaceError::ListingInactive));
}

#[test]
fn sale_settles_the_worked_example() {
    let mut m = listed_marketplace();
    let settlement = sell(&mut m, &good_ctx(), &good_metadata()).unwrap();
    assert_eq!(settlement.nft_mint, NFT);
    assert_eq!(settlement.price, PRICE);
    assert_eq!(settlement.platform_fee, 20);
    assert_eq!(settlement.royalty, 49);
    assert_eq!(settlement.seller_amount, 931);
    assert_eq!(settlement.platform_fee + settlement.royalty + settlement.seller_amount, PRICE);
    assert_eq!(settlement.buyer, BUYER);
    assert_eq!(settlement.platform_wallet, PLATFORM);
    assert_eq!(settlement.seller, SELLER);
    assert_eq!(settlement.creator, CREATOR);
    assert_eq!(settlement.buyer_token_account, Address::TokenAccount(BUYER, NFT));
    assert_eq!(settlement.escrow_authority, Address::ListingAuthority(NFT, BUMP));
    assert!(m.listings.is_empty());
}

#[test]
fn sale_with_zero_royalty_rate_pays_no_royalty() {
    let mut m = listed_marketplace();
    let metadata = metadata_with(
        Some(vec![Creator { address: CREATOR, verified: true, share: 100 }]),
        0,
    );
    let settlement = sell(&mut m, &good_ctx(), &metadata).unwrap();
    assert_eq!(settlement.platform_fee, 20);
    assert_eq!(settlement.royalty, 0);
    assert_eq!(settlement.seller_amount, PRICE - settlement.platform_fee);
}

#[test]
fn sale_at_zero_price_moves_no_funds() {
    let mut m = Marketplace::new(PLATFORM);
    list_nft(&mut m, SELLER, NFT, 0, BUMP);
    let mut ctx = good_ctx();
    ctx.buyer_lamports = 0;
    let settlement = sell(&mut m, &ctx, &good_metadata()).unwrap();
    assert_eq!(settlement.platform_fee, 0);
    assert_eq!(settlement.royalty, 0);
    assert_eq!(settlement.seller_amount, 0);
    assert!(m.listings.is_empty());
}

#[test]
fn buy_is_the_sale_entry_point() {
    let mut m = listed_marketplace();
    let settlement = buy(&mut m, &good_ctx(), &good_metadata()).unwrap();
    assert_eq!(settlement.seller_amount, 931);
    assert!(m.listings.is_empty());
}

#[test]
fn sale_without_listing_is_inactive() {
    let mut m = Marketplace::new(PLATFORM);
    let r = sell(&mut m, &good_ctx(), &good_metadata());
    assert_eq!(r, Err(MarketplaceError::ListingInactive));
}

#[test]
fn sale_with_poor_buyer_is_refused() {
    let mut m = listed_marketplace();
    let mut ctx = good_ctx();
    ctx.buyer_lamports = PRICE - 1;
    let r = sell(&mut m, &ctx, &good_metadata());
    assert_eq!(r, Err(MarketplaceError::InsufficientFunds));
    assert_eq!(m.listings.len(), 1);
}

#[test]
fn sale_of_divisible_asset_fails_before_any_transfer() {
    // An asset with more than one unit, or with fractional precision, is
    // refused as invalid and the marketplace is left fully unchanged.
    let mut m = listed_marketplace();
    let mut ctx = good_ctx();
    ctx.mint.supply = 2;
    assert_eq!(sell(&mut m, &ctx, &good_metadata()), Err(MarketplaceError::InvalidAsset));
    assert_eq!(m.listings.len(), 1);
    assert_eq!(m.listings[0].seller, SELLER);

    let mut ctx = good_ctx();
    ctx.mint.decimals = 1;
    assert_eq!(sell(&mut m, &ctx, &good_metadata()), Err(MarketplaceError::InvalidAsset));
    assert_eq!(m.listings.len(), 1);
}

#[test]
fn sale_with_wrong_platform_wallet_is_refused() {
    let mut m = listed_marketplace();
    let mut ctx = good_ctx();
    ctx.platform_fee_wallet = Address::Wallet(901);
    let r = sell(&mut m, &ctx, &good_metadata());
    assert_eq!(r, Err(MarketplaceError::InvalidPlatformWallet));
    assert_eq!(m.listings.len(), 1);
}

#[test]
fn sale_without_creators_finds_no_verified_creator() {
    let mut m = listed_marketplace();
    let r = sell(&mut m, &good_ctx(), &metadata_with(None, 500));
    assert_eq!(r, Err(MarketplaceError::NoVerifiedCreator));
    assert_eq!(m.listings.len(), 1);
}

#[test]
fn sale_with_only_unverified_creators_finds_no_verified_creator() {
    let mut m = listed_marketplace();
    let creators = vec![
        Creator { address: CREATOR, verified: false, share: 60 },
        Creator { address: Address::Wallet(6), verified: false, share: 40 },
    ];
    let r = sell(&mut m, &good_ctx(), &metadata_with(Some(creators), 500));
    assert_eq!(r, Err(MarketplaceError::NoVerifiedCreator));
    assert_eq!(m.listings.len(), 1);
}

#[test]
fn royalty_goes_to_the_first_verified_creator() {
    let mut m = listed_marketplace();
    let creators = vec![
        Creator { address: Address::Wallet(6), verified: false, share: 0 },
        Creator { address: CREATOR, verified: true, share: 80 },
        Creator { address: Address::Wallet(8), verified: true, share: 20 },
    ];
    let settlement = sell(&mut m, &good_ctx(), &metadata_with(Some(creators), 500)).unwrap();
    assert_eq!(settlement.creator, CREATOR);
    assert_eq!(settlement.royalty, 49);
}

#[test]
fn sale_with_wrong_creator_account_is_refused() {
    let mut m = listed_marketplace();
    let mut ctx = good_ctx();
    ctx.creator_account = Address::Wallet(6);
    let r = sell(&mut m, &ctx, &good_metadata());
    assert_eq!(r, Err(MarketplaceError::InvalidCreatorAccount));
    assert_eq!(m.listings.len(), 1);
}

#[test]
fn sale_with_wrong_buyer_token_account_is_refused() {
    let mut m = listed_marketplace();
    let mut ctx = good_ctx();
    ctx.buyer_token_account = Address::TokenAccount(BUYER, NFT + 1);
    let r = sell(&mut m, &ctx, &good_metadata());
    assert_eq!(r, Err(MarketplaceError::InvalidBuyerTokenAccount));
    assert_eq!(m.listings.len(), 1);
}

#[test]
fn sale_with_bad_escrow_is_refused() {
    // Wrong authority, wrong unit count and wrong asset are each refused.
    let mut m = listed_marketplace();

    let mut ctx = good_ctx();
    ctx.escrow_nft_account.owner = Address::ListingAuthority(NFT, BUMP + 1);
    assert_eq!(sell(&mut m, &ctx, &good_metadata()), Err(MarketplaceError::InvalidEscrowAccount));

    let mut ctx = good_ctx();
    ctx.escrow_nft_account.amount = 0;
    assert_eq!(sell(&mut m, &ctx, &good_metadata()), Err(MarketplaceError::InvalidEscrowAccount));

    let mut ctx = good_ctx();
    ctx.escrow_nft_account.mint = NFT + 1;
    assert_eq!(sell(&mut m, &ctx, &good_metadata()), Err(MarketplaceError::InvalidEscrowAccount));

    assert_eq!(m.listings.len(), 1);
}

#[test]
fn sale_with_overflowing_price_is_refused() {
    let mut m = Marketplace::new(PLATFORM);
    list_nft(&mut m, SELLER, NFT, u64::MAX, BUMP);
    let mut ctx = good_ctx();
    ctx.buyer_lamports = u64::MAX;
    let r = sell(&mut m, &ctx, &good_metadata());
    assert_eq!(r, Err(MarketplaceError::NumericalOverflow));
    assert_eq!(m.listings.len(), 1);
}

#[test]
fn sale_checks_funds_before_the_asset() {
    // A poor buyer of a divisible asset is reported as underfunded: the
    // funding guard comes first.
    let mut m = listed_marketplace();
    let mut ctx = good_ctx();
    ctx.buyer_lamports = 0;
    ctx.mint.supply = 2;
    assert_eq!(sell(&mut m, &ctx, &good_metadata()), Err(MarketplaceError::InsufficientFunds));
}

#[test]
fn second_listing_settles_independently() {
    let mut m = listed_marketplace();
    let other_seller = Address::Wallet(11);
    list_nft(&mut m, other_seller, NFT + 1, 400, 9);
    let release = delist_nft(&mut m, other_seller, NFT + 1).unwrap();
    assert_eq!(release.to, other_seller);
    assert_eq!(m.listings.len(), 1);
    assert_eq!(m.listings[0].nft_mint, NFT);
}

#[test]
fn minted_metadata_names_its_verified_creator() {
    let metadata = mint_nft(
        CREATOR,
        String::from("Piece"),
        String::from("PC"),
        String::from("ipfs://piece"),
        500,
    );
    assert_eq!(metadata.name, "Piece");
    assert_eq!(metadata.symbol, "PC");
    assert_eq!(metadata.uri, "ipfs://piece");
    assert_eq!(metadata.seller_fee_basis_points, 500);
    let creators = metadata.creators.as_ref().unwrap();
    assert_eq!(creators.len(), 1);
    assert_eq!(creators[0], Creator { address: CREATOR, verified: true, share: 100 });
}

#[test]
fn minted_asset_always_settles_against_its_creator() {
    let mut m = listed_marketplace();
    let metadata = mint_nft(
        CREATOR,
        String::from("Piece"),
        String::from("PC"),
        String::from("ipfs://piece"),
        500,
    );
    let settlement = sell(&mut m, &good_ctx(), &metadata).unwrap();
    assert_eq!(settlement.creator, CREATOR);
}

#[test]
fn error_messages_name_their_kind() {
    assert_eq!(MarketplaceError::Unauthorized.message(), "You are not authorized to sell this NFT.");
    assert_eq!(MarketplaceError::InsufficientFunds.message(), "Insufficient funds");
    assert_eq!(MarketplaceError::NumericalOverflow.message(), "Numerical overflow");
    assert_eq!(CustomError::ListingNotActive.message(), "The listing is not active.");
}
