//! The asset metadata record read at settlement.
//!
//! A record holds the descriptive fields attached at creation, an ordered
//! list of creators — each with an address, a verified flag and a share —
//! and the royalty rate in basis points. Settlement pays the royalty to the
//! first creator marked verified; a record naming none cannot be settled.

use vstd::prelude::*;

verus! {

use crate::accounts::Address;

/// One creator named by an asset's metadata.
#[derive(Clone, Copy, PartialEq, Eq, Structural, Debug)]
pub struct Creator {
    /// The creator's address, the destination of royalty payouts.
    pub address: Address,
    /// Whether the creator is marked verified.
    pub verified: bool,
    /// The creator's share, in percent.
    pub share: u8,
}

/// An asset's metadata record, read-only at settlement.
#[derive(Clone, PartialEq, Eq, Debug)]
pub struct Metadata {
    /// The asset's name.
    pub name: String,
    /// The asset's symbol.
    pub symbol: String,
    /// Where the asset's descriptive data is hosted.
    pub uri: String,
    /// The royalty rate in basis points.
    pub seller_fee_basis_points: u16,
    /// The ordered creators of the asset, if any are recorded.
    pub creators: Option<Vec<Creator>>,
}

/// The first creator at or after position `i` that is marked verified.
pub open spec fn spec_first_verified_from(creators: Seq<Creator>, i: int) -> Option<Creator>
    decreases creators.len() - i,
{
    if i < 0 || i >= creators.len() {
        None
    } else if creators[i].verified {
        Some(creators[i])
    } else {
        spec_first_verified_from(creators, i + 1)
    }
}

/// The first verified creator of a metadata record, if the record names one.
pub open spec fn spec_verified_creator(metadata: Metadata) -> Option<Creator> {
    match metadata.creators {
        Some(creators) => spec_first_verified_from(creators@, 0),
        None => None,
    }
}

/// Finds the first verified creator of a metadata record.
pub fn find_verified_creator(metadata: &Metadata) -> (r: Option<Creator>)
    ensures
        r == spec_verified_creator(*metadata),
{
    match &metadata.creators {
        None => None,
        Some(creators) => {
            proof {
                assert(spec_verified_creator(*metadata) == spec_first_verified_from(
                    creators@,
                    0,
                ));
            }
            let n: usize = creators.len();
            let mut i: usize = 0;
            while i < n
                invariant
                    n == creators@.len(),
                    i <= n,
                    spec_verified_creator(*metadata) == spec_first_verified_from(
                        creators@,
                        i as int,
                    ),
                    forall|j: int| 0 <= j < i ==> !creators@[j].verified,
                decreases n - i,
            {
                if creators[i].verified {
                    proof {
                        assert(spec_first_verified_from(creators@, i as int) == Some(
                            creators@[i as int],
                        ));
                    }
                    return Some(creators[i]);
                }
                i += 1;
            }
            None
        },
    }
}

} // verus!
