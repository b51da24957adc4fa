//! The listing registry and the settlement engine.
//!
//! A [`Marketplace`] holds the configured platform wallet and the active
//! listings, at most one per asset. Listing an asset appends its record
//! while the ledger moves the one unit into escrow; delisting and settlement
//! remove the record and order the custody transfer out of escrow. Every
//! operation is decided here in full: its contract states, over the
//! registry's view, exactly which new state and which transfers each input
//! leads to, and every failure leaves the registry unchanged.

use vstd::prelude::*;

verus! {

use crate::accounts::{Address, EscrowAccount, MintAccount};
use crate::auth;
use crate::errors::MarketplaceError;
use crate::fees;
use crate::fees::{spec_platform_fee, spec_remaining, spec_royalty, spec_seller_amount};
use crate::meta::{spec_verified_creator, Metadata};

/// One listing record: an asset offered for sale at a fixed price.
#[derive(Clone, Copy, PartialEq, Eq, Structural, Debug)]
pub struct Listing {
    /// The seller who listed the asset and may withdraw it.
    pub seller: Address,
    /// The listed asset's id.
    pub nft_mint: u64,
    /// The asking price, in the smallest currency unit.
    pub price: u64,
    /// The discriminant byte scoping the listing's escrow authority.
    pub bump: u8,
}

/// The marketplace state: the injected platform-fee wallet and the active
/// listings.
pub struct Marketplace {
    /// Where the platform's commission is directed.
    pub platform_fee_wallet: Address,
    /// The active listings, at most one per asset id.
    pub listings: Vec<Listing>,
}

/// No two active listings offer the same asset.
pub open spec fn wf_listings(s: Seq<Listing>) -> bool {
    forall|i: int, j: int|
        0 <= i < j < s.len() ==> #[trigger] s[i].nft_mint != #[trigger] s[j].nft_mint
}

/// The index of the first listing for `nft_mint` at or after position `i`.
pub open spec fn spec_find_listing(s: Seq<Listing>, nft_mint: u64, i: int) -> Option<int>
    decreases s.len() - i,
{
    if i < 0 || i >= s.len() {
        None
    } else if s[i].nft_mint == nft_mint {
        Some(i)
    } else {
        spec_find_listing(s, nft_mint, i + 1)
    }
}

/// Whether some active listing offers `nft_mint`.
pub open spec fn has_listing(s: Seq<Listing>, nft_mint: u64) -> bool {
    spec_find_listing(s, nft_mint, 0) is Some
}

/// What `spec_find_listing` finds: the first matching index, or none when no
/// listing at or after `i` matches.
pub proof fn lemma_find_listing_props(s: Seq<Listing>, nft_mint: u64, i: int)
    requires
        0 <= i <= s.len(),
    ensures
        match spec_find_listing(s, nft_mint, i) {
            Some(k) => i <= k < s.len() && s[k].nft_mint == nft_mint && (forall|j: int|
                i <= j < k ==> s[j].nft_mint != nft_mint),
            None => forall|j: int| i <= j < s.len() ==> s[j].nft_mint != nft_mint,
        },
    decreases s.len() - i,
{
    if i < s.len() && s[i].nft_mint != nft_mint {
        lemma_find_listing_props(s, nft_mint, i + 1);
    }
}

/// When everything before `k` misses and `k` matches, the search finds `k`.
pub proof fn lemma_find_first_at(s: Seq<Listing>, nft_mint: u64, i: int, k: int)
    requires
        0 <= i <= k < s.len(),
        forall|j: int| i <= j < k ==> s[j].nft_mint != nft_mint,
        s[k].nft_mint == nft_mint,
    ensures
        spec_find_listing(s, nft_mint, i) == Some(k),
    decreases k - i,
{
    if i < k {
        lemma_find_first_at(s, nft_mint, i + 1, k);
    }
}

/// Removing a listing keeps the registry free of duplicates.
pub proof fn lemma_wf_remove(s: Seq<Listing>, k: int)
    requires
        wf_listings(s),
        0 <= k < s.len(),
    ensures
        wf_listings(s.remove(k)),
{
    let t = s.remove(k);
    assert forall|i: int, j: int| 0 <= i < j < t.len() implies #[trigger] t[i].nft_mint
        != #[trigger] t[j].nft_mint by {
        if i < k {
            assert(t[i] == s[i]);
        } else {
            assert(t[i] == s[i + 1]);
        }
        if j < k {
            assert(t[j] == s[j]);
        } else {
            assert(t[j] == s[j + 1]);
        }
    }
}

/// Appending a listing for an asset not yet listed keeps the registry free
/// of duplicates.
pub proof fn lemma_wf_push(s: Seq<Listing>, listing: Listing)
    requires
        wf_listings(s),
        !has_listing(s, listing.nft_mint),
    ensures
        wf_listings(s.push(listing)),
{
    lemma_find_listing_props(s, listing.nft_mint, 0);
    let t = s.push(listing);
    assert forall|i: int, j: int| 0 <= i < j < t.len() implies #[trigger] t[i].nft_mint
        != #[trigger] t[j].nft_mint by {
        if j < s.len() {
            assert(t[i] == s[i] && t[j] == s[j]);
        } else {
            assert(t[i] == s[i] && t[j] == listing);
        }
    }
}

impl Marketplace {
    /// The registry's invariant: at most one active listing per asset.
    pub open spec fn wf(self) -> bool {
        wf_listings(self.listings@)
    }

    /// A marketplace configured at startup with the injected platform-fee
    /// wallet and no active listings.
    pub fn new(platform_fee_wallet: Address) -> (m: Marketplace)
        ensures
            m.wf(),
            m.platform_fee_wallet == platform_fee_wallet,
            m.listings@ == Seq::<Listing>::empty(),
    {
        let m = Marketplace { platform_fee_wallet, listings: Vec::new() };
        proof {
            assert(m.listings@ =~= Seq::<Listing>::empty());
        }
        m
    }

    /// Whether an active listing offers the asset.
    pub fn has_active_listing(&self, nft_mint: u64) -> (r: bool)
        ensures
            r == has_listing(self.listings@, nft_mint),
    {
        find_listing_index(&self.listings, nft_mint).is_some()
    }

    /// The active listing for the asset, if one exists.
    pub fn get_listing(&self, nft_mint: u64) -> (r: Option<Listing>)
        ensures
            match spec_find_listing(self.listings@, nft_mint, 0) {
                Some(k) => r == Some(self.listings@[k]),
                None => r is None,
            },
    {
        match find_listing_index(&self.listings, nft_mint) {
            Some(i) => Some(self.listings[i]),
            None => None,
        }
    }
}

/// Finds the active listing for an asset.
fn find_listing_index(listings: &Vec<Listing>, nft_mint: u64) -> (r: Option<usize>)
    ensures
        match r {
            Some(i) => i < listings@.len() && spec_find_listing(listings@, nft_mint, 0) == Some(
                i as int,
            ),
            None => spec_find_listing(listings@, nft_mint, 0) is None,
        },
{
    let n: usize = listings.len();
    let mut i: usize = 0;
    while i < n
        invariant
            n == listings@.len(),
            i <= n,
            spec_find_listing(listings@, nft_mint, 0) == spec_find_listing(
                listings@,
                nft_mint,
                i as int,
            ),
        decreases n - i,
    {
        if listings[i].nft_mint == nft_mint {
            return Some(i);
        }
        i += 1;
    }
    None
}

/// The custody transfer that returns a delisted asset: the listing's derived
/// authority releases the escrowed unit back to the seller.
#[derive(Clone, Copy, PartialEq, Eq, Structural, Debug)]
pub struct EscrowRelease {
    /// The listing-scoped authority that signs the release.
    pub authority: Address,
    /// The seller the unit returns to.
    pub to: Address,
    /// The released asset's id.
    pub nft_mint: u64,
    /// How many units leave escrow: the one listed unit.
    pub amount: u64,
}

/// What delisting an asset does to the registry and what it returns: with no
/// active listing it fails as inactive; for any caller but the recorded
/// seller it fails unauthorized; otherwise it removes the record and the
/// escrowed unit goes back to the seller. Either failure leaves the registry
/// unchanged, and no funds move in any case.
pub open spec fn spec_delist(s: Seq<Listing>, caller: Address, nft_mint: u64) -> (
    Seq<Listing>,
    Result<EscrowRelease, MarketplaceError>,
) {
    match spec_find_listing(s, nft_mint, 0) {
        None => (s, Err(MarketplaceError::ListingInactive)),
        Some(k) => {
            let listing = s[k];
            if caller != listing.seller {
                (s, Err(MarketplaceError::Unauthorized))
            } else {
                (
                    s.remove(k),
                    Ok(
                        (EscrowRelease {
                            authority: Address::ListingAuthority(nft_mint, listing.bump),
                            to: listing.seller,
                            nft_mint,
                            amount: 1,
                        }),
                    ),
                )
            }
        },
    }
}

/// Creates the listing for an asset the seller holds: the record is
/// appended while the ledger moves the seller's one unit into escrow under
/// the listing's derived authority. The price is not validated beyond its
/// representation.
pub fn list_nft(
    m: &mut Marketplace,
    seller: Address,
    nft_mint: u64,
    price: u64,
    bump: u8,
) -> (listing: Listing)
    requires
        old(m).wf(),
        !has_listing(old(m).listings@, nft_mint),
    ensures
        final(m).wf(),
        final(m).platform_fee_wallet == old(m).platform_fee_wallet,
        listing == (Listing { seller, nft_mint, price, bump }),
        final(m).listings@ == old(m).listings@.push(listing),
{
    let listing = Listing { seller, nft_mint, price, bump };
    proof {
        lemma_wf_push(m.listings@, listing);
    }
    m.listings.push(listing);
    listing
}

/// Withdraws a listing: only the recorded seller may delist, and on success
/// the record is removed and the escrowed unit is released back to the
/// seller. A failed withdrawal leaves the registry unchanged, and no funds
/// move in any case.
pub fn delist_nft(m: &mut Marketplace, caller: Address, nft_mint: u64) -> (r: Result<
    EscrowRelease,
    MarketplaceError,
>)
    requires
        old(m).wf(),
    ensures
        final(m).wf(),
        final(m).platform_fee_wallet == old(m).platform_fee_wallet,
        (final(m).listings@, r) == spec_delist(old(m).listings@, caller, nft_mint),
{
    let idx: usize = match find_listing_index(&m.listings, nft_mint) {
        Some(i) => i,
        None => {
            return Err(MarketplaceError::ListingInactive);
        },
    };
    let listing: Listing = m.listings[idx];
    match auth::check_seller(caller, listing.seller) {
        Ok(()) => {},
        Err(e) => {
            return Err(e);
        },
    }
    proof {
        lemma_wf_remove(m.listings@, idx as int);
    }
    m.listings.remove(idx);
    Ok(
        EscrowRelease {
            authority: Address::ListingAuthority(nft_mint, listing.bump),
            to: listing.seller,
            nft_mint,
            amount: 1,
        },
    )
}

/// Round-trip law: listing an unlisted asset and then delisting it as the
/// same seller restores the registry exactly and releases exactly the one
/// listed unit back to that seller. Neither operation orders a fund
/// transfer.
pub proof fn lemma_list_delist_round_trip(
    s: Seq<Listing>,
    seller: Address,
    nft_mint: u64,
    price: u64,
    bump: u8,
)
    requires
        wf_listings(s),
        !has_listing(s, nft_mint),
    ensures
        ({
            let listing = Listing { seller, nft_mint, price, bump };
            spec_delist(s.push(listing), seller, nft_mint) == (
                s,
                Ok::<EscrowRelease, MarketplaceError>(
                    (EscrowRelease {
                        authority: Address::ListingAuthority(nft_mint, bump),
                        to: seller,
                        nft_mint,
                        amount: 1,
                    }),
                ),
            )
        }),
{
    let listing = Listing { seller, nft_mint, price, bump };
    let listed = s.push(listing);
    lemma_find_listing_props(s, nft_mint, 0);
    lemma_find_first_at(listed, nft_mint, 0, s.len() as int);
    assert(listed.remove(s.len() as int) =~= s);
}

/// Authorization law: a delist attempted by any identity other than the
/// recorded seller fails with `Unauthorized`, and the listing and its
/// escrow remain untouched.
pub proof fn lemma_delist_requires_seller(s: Seq<Listing>, caller: Address, nft_mint: u64)
    requires
        spec_find_listing(s, nft_mint, 0) matches Some(k) && caller != s[k].seller,
    ensures
        spec_delist(s, caller, nft_mint) == (
            s,
            Err::<EscrowRelease, MarketplaceError>(MarketplaceError::Unauthorized),
        ),
{
}

/// The accounts a buyer supplies for a purchase, as the engine observes
/// them at settlement time.
#[derive(Clone, Copy, PartialEq, Eq, Structural, Debug)]
pub struct SaleContext {
    /// The buyer's wallet identity.
    pub buyer_authority: u64,
    /// The buyer's available balance.
    pub buyer_lamports: u64,
    /// The traded asset's mint state.
    pub mint: MintAccount,
    /// The supplied destination for the platform fee.
    pub platform_fee_wallet: Address,
    /// The supplied destination for the creator royalty.
    pub creator_account: Address,
    /// The supplied account to receive the asset.
    pub buyer_token_account: Address,
    /// The escrow holding offered for the sale.
    pub escrow_nft_account: EscrowAccount,
}

/// A completed settlement: every transfer the sale orders, paid by the
/// buyer, and the custody transfer that hands the asset over.
#[derive(Clone, Copy, PartialEq, Eq, Structural, Debug)]
pub struct Settlement {
    /// The settled asset's id.
    pub nft_mint: u64,
    /// The price the buyer pays in total.
    pub price: u64,
    /// The platform's commission, paid to the platform wallet.
    pub platform_fee: u64,
    /// The creator's royalty, paid to the verified creator.
    pub royalty: u64,
    /// The seller's proceeds.
    pub seller_amount: u64,
    /// The paying buyer's wallet identity.
    pub buyer: u64,
    /// The configured wallet the fee goes to.
    pub platform_wallet: Address,
    /// The seller the proceeds go to.
    pub seller: Address,
    /// The verified creator the royalty goes to.
    pub creator: Address,
    /// The canonical account the asset unit goes to.
    pub buyer_token_account: Address,
    /// The listing-scoped authority that signs the custody transfer.
    pub escrow_authority: Address,
}

/// What a purchase does, step by step in guard order: the listing must be
/// active; the buyer must afford the price; the asset must be one
/// indivisible unit; the fee arithmetic must stay in range; the supplied
/// fee destination must be the configured wallet; the metadata must name a
/// verified creator and the supplied royalty destination must be that
/// creator; the royalty arithmetic must stay in range; the receiving
/// account must be the canonical one derived from buyer and asset; and the
/// escrow holding must match the listing. Then, and only then, the record
/// is removed and the settlement orders the three payments and the custody
/// transfer. Any failure leaves the registry unchanged and moves nothing.
pub open spec fn sale_outcome(
    s: Seq<Listing>,
    platform_wallet: Address,
    ctx: SaleContext,
    metadata: Metadata,
) -> (Seq<Listing>, Result<Settlement, MarketplaceError>) {
    match spec_find_listing(s, ctx.mint.address, 0) {
        None => (s, Err(MarketplaceError::ListingInactive)),
        Some(k) => {
            let listing = s[k];
            let price: int = listing.price as int;
            let remaining: int = spec_remaining(price);
            let bps: int = metadata.seller_fee_basis_points as int;
            if ctx.buyer_lamports < listing.price {
                (s, Err(MarketplaceError::InsufficientFunds))
            } else if ctx.mint.supply != 1 || ctx.mint.decimals != 0 {
                (s, Err(MarketplaceError::InvalidAsset))
            } else if price * 2 > u64::MAX {
                (s, Err(MarketplaceError::NumericalOverflow))
            } else if ctx.platform_fee_wallet != platform_wallet {
                (s, Err(MarketplaceError::InvalidPlatformWallet))
            } else {
                match spec_verified_creator(metadata) {
                    None => (s, Err(MarketplaceError::NoVerifiedCreator)),
                    Some(creator) => {
                        if ctx.creator_account != creator.address {
                            (s, Err(MarketplaceError::InvalidCreatorAccount))
                        } else if bps > 0 && remaining * bps > u64::MAX {
                            (s, Err(MarketplaceError::NumericalOverflow))
                        } else if spec_royalty(remaining, bps) > remaining {
                            (s, Err(MarketplaceError::NumericalOverflow))
                        } else if ctx.buyer_token_account != Address::TokenAccount(
                            ctx.buyer_authority,
                            ctx.mint.address,
                        ) {
                            (s, Err(MarketplaceError::InvalidBuyerTokenAccount))
                        } else if ctx.escrow_nft_account.owner != Address::ListingAuthority(
                            ctx.mint.address,
                            listing.bump,
                        ) || ctx.escrow_nft_account.amount != 1 || ctx.escrow_nft_account.mint
                            != ctx.mint.address {
                            (s, Err(MarketplaceError::InvalidEscrowAccount))
                        } else {
                            (
                                s.remove(k),
                                Ok(
                                    (Settlement {
                                        nft_mint: ctx.mint.address,
                                        price: listing.price,
                                        platform_fee: spec_platform_fee(price) as u64,
                                        royalty: spec_royalty(remaining, bps) as u64,
                                        seller_amount: spec_seller_amount(remaining, bps) as u64,
                                        buyer: ctx.buyer_authority,
                                        platform_wallet,
                                        seller: listing.seller,
                                        creator: creator.address,
                                        buyer_token_account: ctx.buyer_token_account,
                                        escrow_authority: Address::ListingAuthority(
                                            ctx.mint.address,
                                            listing.bump,
                                        ),
                                    }),
                                ),
                            )
                        }
                    },
                }
            }
        },
    }
}

/// Guard-ordering law: a sale of an asset that violates the indivisibility
/// invariant fails with `InvalidAsset` before any transfer is ordered — the
/// registry, the escrow and all balances stay exactly as they were.
pub proof fn lemma_sale_invalid_asset(
    s: Seq<Listing>,
    platform_wallet: Address,
    ctx: SaleContext,
    metadata: Metadata,
)
    requires
        spec_find_listing(s, ctx.mint.address, 0) matches Some(k) && ctx.buyer_lamports
            >= s[k].price,
        ctx.mint.supply != 1 || ctx.mint.decimals != 0,
    ensures
        sale_outcome(s, platform_wallet, ctx, metadata) == (
            s,
            Err::<Settlement, MarketplaceError>(MarketplaceError::InvalidAsset),
        ),
{
}

/// Missing-creator law: a sale against metadata that names no verified
/// creator fails with `NoVerifiedCreator` — no funds move and the listing
/// remains active.
pub proof fn lemma_sale_no_verified_creator(
    s: Seq<Listing>,
    platform_wallet: Address,
    ctx: SaleContext,
    metadata: Metadata,
)
    requires
        spec_find_listing(s, ctx.mint.address, 0) matches Some(k) && ctx.buyer_lamports
            >= s[k].price && s[k].price * 2 <= u64::MAX,
        ctx.mint.supply == 1 && ctx.mint.decimals == 0,
        ctx.platform_fee_wallet == platform_wallet,
        spec_verified_creator(metadata) is None,
    ensures
        sale_outcome(s, platform_wallet, ctx, metadata) == (
            s,
            Err::<Settlement, MarketplaceError>(MarketplaceError::NoVerifiedCreator),
        ),
{
}

/// Settles the sale of a listed asset as one indivisible operation. The
/// buyer pays the platform fee, the seller's proceeds and the creator's
/// royalty — together exactly the listed price — and the escrowed unit is
/// released to the buyer's canonical account, authorized by the
/// listing-scoped escrow authority. Any failure leaves the registry
/// unchanged and moves nothing.
pub fn sell(m: &mut Marketplace, ctx: &SaleContext, metadata: &Metadata) -> (r: Result<
    Settlement,
    MarketplaceError,
>)
    requires
        old(m).wf(),
    ensures
        final(m).wf(),
        final(m).platform_fee_wallet == old(m).platform_fee_wallet,
        (final(m).listings@, r) == sale_outcome(
            old(m).listings@,
            old(m).platform_fee_wallet,
            *ctx,
            *metadata,
        ),
        r is Err ==> final(m).listings@ == old(m).listings@,
        r matches Ok(settlement) ==> settlement.platform_fee + settlement.royalty
            + settlement.seller_amount == settlement.price,
{
    let idx: usize = match find_listing_index(&m.listings, ctx.mint.address) {
        Some(i) => i,
        None => {
            return Err(MarketplaceError::ListingInactive);
        },
    };
    let listing: Listing = m.listings[idx];
    if ctx.buyer_lamports < listing.price {
        return Err(MarketplaceError::InsufficientFunds);
    }
    match auth::check_asset(ctx.mint) {
        Ok(()) => {},
        Err(e) => {
            return Err(e);
        },
    }
    let fee_part: (u64, u64) = match fees::compute_platform_fee(listing.price) {
        Ok(p) => p,
        Err(e) => {
            return Err(e);
        },
    };
    let platform_fee: u64 = fee_part.0;
    let remaining: u64 = fee_part.1;
    match auth::check_platform_wallet(ctx.platform_fee_wallet, m.platform_fee_wallet) {
        Ok(()) => {},
        Err(e) => {
            return Err(e);
        },
    }
    let creator = match crate::meta::find_verified_creator(metadata) {
        Some(c) => c,
        None => {
            return Err(MarketplaceError::NoVerifiedCreator);
        },
    };
    match auth::check_creator(ctx.creator_account, creator.address) {
        Ok(()) => {},
        Err(e) => {
            return Err(e);
        },
    }
    let royalty_part: (u64, u64) = match fees::compute_royalty_split(
        remaining,
        metadata.seller_fee_basis_points,
    ) {
        Ok(p) => p,
        Err(e) => {
            return Err(e);
        },
    };
    let royalty: u64 = royalty_part.0;
    let seller_amount: u64 = royalty_part.1;
    match auth::check_buyer_token_account(
        ctx.buyer_token_account,
        ctx.buyer_authority,
        ctx.mint.address,
    ) {
        Ok(()) => {},
        Err(e) => {
            return Err(e);
        },
    }
    match auth::check_escrow(ctx.escrow_nft_account, ctx.mint.address, listing.bump) {
        Ok(()) => {},
        Err(e) => {
            return Err(e);
        },
    }
    proof {
        lemma_wf_remove(m.listings@, idx as int);
    }
    m.listings.remove(idx);
    Ok(
        Settlement {
            nft_mint: ctx.mint.address,
            price: listing.price,
            platform_fee,
            royalty,
            seller_amount,
            buyer: ctx.buyer_authority,
            platform_wallet: m.platform_fee_wallet,
            seller: listing.seller,
            creator: creator.address,
            buyer_token_account: ctx.buyer_token_account,
            escrow_authority: Address::ListingAuthority(ctx.mint.address, listing.bump),
        },
    )
}

} // verus!
