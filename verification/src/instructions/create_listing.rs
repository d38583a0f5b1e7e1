use vstd::prelude::*;
use crate::error::VerityError;
use crate::state::{
    Listing, ListingConditions, PriceConfig, PriceType, STATE_ACTIVE, TokenAccountInfo, UserVault,
};

verus! {

/// The first check a listing creation violates, or `None` when it may
/// proceed. The vault must belong to the seller and hold exactly one unit
/// of the asset; the price band must be positive and ordered; decaying
/// types need a positive duration; a fully bounded validity window must be
/// non-empty.
pub open spec fn create_listing_error(
    seller: u64,
    mint: u64,
    user_vault: UserVault,
    vault_ata: TokenAccountInfo,
    price_type: PriceType,
    start_price: u64,
    min_price: u64,
    duration: i64,
    valid_from: Option<i64>,
    valid_until: Option<i64>,
) -> Option<VerityError> {
    if user_vault.owner != seller {
        Some(VerityError::UnauthorizedVaultOwner)
    } else if user_vault.mint != mint {
        Some(VerityError::VaultMismatch)
    } else if vault_ata.id != user_vault.vault_ata {
        Some(VerityError::VaultMismatch)
    } else if vault_ata.amount != 1 {
        Some(VerityError::NftNotInVault)
    } else if start_price == 0 {
        Some(VerityError::InvalidPrice)
    } else if min_price == 0 {
        Some(VerityError::InvalidPrice)
    } else if start_price < min_price {
        Some(VerityError::InvalidPrice)
    } else if !(price_type is Fixed) && duration <= 0 {
        Some(VerityError::InvalidDuration)
    } else if valid_from is Some && valid_until is Some && valid_from->0 >= valid_until->0 {
        Some(VerityError::InvalidTimeWindow)
    } else {
        None
    }
}

/// Whatever arguments are offered, a start price below the floor, a zero
/// floor, or a decaying price type without a positive duration is always
/// refused.
pub proof fn lemma_create_listing_rejects_invalid(
    seller: u64,
    mint: u64,
    user_vault: UserVault,
    vault_ata: TokenAccountInfo,
    price_type: PriceType,
    start_price: u64,
    min_price: u64,
    duration: i64,
    valid_from: Option<i64>,
    valid_until: Option<i64>,
)
    ensures
        start_price < min_price ==> create_listing_error(
            seller, mint, user_vault, vault_ata, price_type, start_price, min_price, duration,
            valid_from, valid_until,
        ) is Some,
        min_price == 0 ==> create_listing_error(
            seller, mint, user_vault, vault_ata, price_type, start_price, min_price, duration,
            valid_from, valid_until,
        ) is Some,
        !(price_type is Fixed) && duration <= 0 ==> create_listing_error(
            seller, mint, user_vault, vault_ata, price_type, start_price, min_price, duration,
            valid_from, valid_until,
        ) is Some,
{
}

/// Create a listing over an existing vault. The listing only references
/// the vault: the asset does not move. On success the listing is Active
/// and satisfies the listing invariant.
pub fn handler(
    seller: u64,
    mint: u64,
    user_vault: &UserVault,
    user_vault_id: u64,
    vault_ata: &TokenAccountInfo,
    price_type: PriceType,
    start_price: u64,
    min_price: u64,
    start_ts: i64,
    duration: i64,
    min_floor: Option<u64>,
    valid_from: Option<i64>,
    valid_until: Option<i64>,
    bump: u8,
) -> (r: Result<Listing, VerityError>)
    ensures
        r is Ok <==> create_listing_error(
            seller, mint, *user_vault, *vault_ata, price_type, start_price, min_price, duration,
            valid_from, valid_until,
        ) is None,
        r is Err ==> Some(r->Err_0) == create_listing_error(
            seller, mint, *user_vault, *vault_ata, price_type, start_price, min_price, duration,
            valid_from, valid_until,
        ),
        r matches Ok(listing) ==> listing == (Listing {
            seller,
            mint: user_vault.mint,
            user_vault: user_vault_id,
            price_config: PriceConfig { price_type, start_price, min_price, start_ts, duration },
            conditions: ListingConditions { min_floor, valid_from, valid_until },
            state: STATE_ACTIVE,
            bump,
        }),
        r matches Ok(listing) ==> listing.wf(),
{
    if user_vault.owner != seller {
        return Err(VerityError::UnauthorizedVaultOwner);
    }
    if user_vault.mint != mint {
        return Err(VerityError::VaultMismatch);
    }
    if vault_ata.id != user_vault.vault_ata {
        return Err(VerityError::VaultMismatch);
    }
    if vault_ata.amount != 1 {
        return Err(VerityError::NftNotInVault);
    }
    if start_price == 0 {
        return Err(VerityError::InvalidPrice);
    }
    if min_price == 0 {
        return Err(VerityError::InvalidPrice);
    }
    if start_price < min_price {
        return Err(VerityError::InvalidPrice);
    }
    if !matches!(price_type, PriceType::Fixed) && duration <= 0 {
        return Err(VerityError::InvalidDuration);
    }
    if let (Some(from), Some(until)) = (valid_from, valid_until) {
        if from >= until {
            return Err(VerityError::InvalidTimeWindow);
        }
    }
    Ok(Listing {
        seller,
        mint: user_vault.mint,
        user_vault: user_vault_id,
        price_config: PriceConfig { price_type, start_price, min_price, start_ts, duration },
        conditions: ListingConditions { min_floor, valid_from, valid_until },
        state: STATE_ACTIVE,
        bump,
    })
}

} // verus!
