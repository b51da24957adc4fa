//! Asset creation, as far as the engine decides it.
//!
//! Producing the new unit and persisting the record are the external
//! creation service's work; the engine fixes the content of the metadata
//! record that creation attaches: the caller is the sole creator, marked
//! verified with the full share, and the royalty rate is stored as given.

use vstd::prelude::*;

verus! {

use crate::accounts::Address;
use crate::meta::{spec_verified_creator, Creator, Metadata};

/// Builds the metadata record for a newly created asset. The payer is
/// recorded as the one creator, verified and with a share of one hundred
/// percent, so an asset created here always settles against a verified
/// creator.
pub fn mint_nft(
    payer: Address,
    nft_name: String,
    nft_symbol: String,
    nft_uri: String,
    royalty_basis_points: u16,
) -> (metadata: Metadata)
    ensures
        metadata.name@ == nft_name@,
        metadata.symbol@ == nft_symbol@,
        metadata.uri@ == nft_uri@,
        metadata.seller_fee_basis_points == royalty_basis_points,
        metadata.creators matches Some(creators) && creators@ == seq![
            (Creator { address: payer, verified: true, share: 100 }),
        ],
        spec_verified_creator(metadata) == Some(
            (Creator { address: payer, verified: true, share: 100 }),
        ),
{
    let mut creators: Vec<Creator> = Vec::new();
    creators.push(Creator { address: payer, verified: true, share: 100 });
    proof {
        assert(creators@ =~= seq![(Creator { address: payer, verified: true, share: 100 })]);
    }
    Metadata {
        name: nft_name,
        symbol: nft_symbol,
        uri: nft_uri,
        seller_fee_basis_points: royalty_basis_points,
        creators: Some(creators),
    }
}

} // verus!
