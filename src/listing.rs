use vstd::prelude::*;

use crate::address::Address;
use crate::error::ErrorCode;

verus! {

/// An offer to sell one unit of the asset `nft_mint` at a fixed price. It is
/// active from its creation until it is settled; settled is final for the
/// record.
#[derive(Clone, Copy, Debug, PartialEq, Eq)]
pub struct Listing {
    pub seller: Address,
    pub nft_mint: Address,
    pub price: u64,
    pub is_active: bool,
    pub created_at: i64,
}

/// What creating a listing in `slot`, the record at the address derived
/// from the asset, gives: the new active listing, or the first refusal in the
/// order `InvalidPrice`, `ListingAlreadyActive`. A settled record in the slot
/// may be replaced: that is how an asset is listed again.
pub open spec fn create_outcome(
    slot: Option<Listing>,
    seller: Address,
    nft_mint: Address,
    price: u64,
    created_at: i64,
) -> Result<Listing, ErrorCode> {
    if price == 0 {
        Err(ErrorCode::InvalidPrice)
    } else if slot is Some && slot->Some_0.is_active {
        Err(ErrorCode::ListingAlreadyActive)
    } else {
        Ok(Listing { seller, nft_mint, price, is_active: true, created_at })
    }
}

/// Creates an active listing of `nft_mint` by `seller` at `price`, stamped
/// with `created_at`. On refusal the slot is left as it was: in particular no
/// listing at a price of zero is ever stored.
pub fn create_listing(
    slot: &mut Option<Listing>,
    seller: Address,
    nft_mint: Address,
    price: u64,
    created_at: i64,
) -> (r: Result<(), ErrorCode>)
    ensures
        match create_outcome(*old(slot), seller, nft_mint, price, created_at) {
            Ok(l) => r is Ok && *final(slot) == Some(l),
            Err(e) => r == Err::<(), ErrorCode>(e) && *final(slot) == *old(slot),
        },
{
    if price == 0 {
        return Err(ErrorCode::InvalidPrice);
    }
    if let Some(existing) = slot {
        if existing.is_active {
            return Err(ErrorCode::ListingAlreadyActive);
        }
    }
    *slot = Some(Listing { seller, nft_mint, price, is_active: true, created_at });
    Ok(())
}

impl Listing {
    /// Marks the listing settled. Only settlement calls this, and only after
    /// it has checked that the listing is active.
    pub(crate) fn deactivate(&mut self)
        requires
            old(self).is_active,
        ensures
            *final(self) == (Listing { is_active: false, ..*old(self) }),
    {
        self.is_active = false;
    }
}

} // verus!
