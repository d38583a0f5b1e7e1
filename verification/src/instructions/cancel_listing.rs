use vstd::prelude::*;
use crate::error::VerityError;
use crate::state::{Listing, STATE_ACTIVE, STATE_CANCELLED};

verus! {

/// The first check a cancellation violates, or `None` when it may proceed:
/// the listing must still be active, the supplied vault must be the one the
/// listing references, and only the seller may cancel.
pub open spec fn cancel_listing_error(
    listing: Listing,
    user_vault_id: u64,
    caller: u64,
) -> Option<VerityError> {
    if listing.state != STATE_ACTIVE {
        Some(VerityError::ListingNotActive)
    } else if user_vault_id != listing.user_vault {
        Some(VerityError::VaultMismatch)
    } else if caller != listing.seller {
        Some(VerityError::UnauthorizedSeller)
    } else {
        None
    }
}

/// Cancel a listing. The asset never moves: it stays in the seller's own
/// vault, and the environment destroys the cancelled record and refunds its
/// deposit to the seller.
pub fn handler(listing: &mut Listing, user_vault_id: u64, caller: u64) -> (r: Result<
    (),
    VerityError,
>)
    ensures
        r is Ok <==> cancel_listing_error(*old(listing), user_vault_id, caller) is None,
        r is Err ==> Some(r->Err_0) == cancel_listing_error(*old(listing), user_vault_id, caller)
            && *final(listing) == *old(listing),
        r is Ok ==> *final(listing) == (Listing { state: STATE_CANCELLED, ..*old(listing) }),
{
    if listing.state != STATE_ACTIVE {
        return Err(VerityError::ListingNotActive);
    }
    if user_vault_id != listing.user_vault {
        return Err(VerityError::VaultMismatch);
    }
    if caller != listing.seller {
        return Err(VerityError::UnauthorizedSeller);
    }
    listing.state = STATE_CANCELLED;
    Ok(())
}

} // verus!
