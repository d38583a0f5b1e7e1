//! An escrow-less marketplace engine for unique assets. Sellers keep
//! custody in a vault of their own; a listing only references that vault
//! and carries the sale terms. The engine computes a time-dependent price,
//! validates purchases, splits the payment three ways, and lets a trusted
//! attestor force-cancel a listing through a replay-proof attestation.
//!
//! The engine is pure: each operation takes the records it involves and
//! the current time as plain values and returns the new records and the
//! ledger operations to perform. The surrounding ledger environment loads
//! and stores the records, checks signatures, and commits everything an
//! operation returns atomically or not at all.

pub mod error;
pub mod instructions;
pub mod state;

use vstd::prelude::*;
use crate::error::VerityError;
use crate::instructions::attestation::{
    consumed, create_attestation_handler, force_cancel_error, force_cancel_handler,
    force_cancel_ops, issuance_step,
};
use crate::instructions::buy_now::{buy_now_error, settlement_ops, Settlement, BPS_DENOMINATOR, ROYALTY_BPS};
use crate::instructions::cancel_listing::cancel_listing_error;
use crate::instructions::create_listing::create_listing_error;
use crate::instructions::initialize_user_vault::initialize_user_vault_error;
use crate::instructions::withdraw_from_vault::{withdraw_error, withdraw_ops};
use crate::state::{
    spec_price, Attestation, AttestorState, Config, LedgerOp, Listing, ListingConditions,
    MintInfo, PriceConfig, PriceType, TokenAccountInfo, UserVault, MAX_FEE_BPS, STATE_ACTIVE,
    STATE_CANCELLED, STATE_SOLD,
};

verus! {

/// Create the marketplace's singleton configuration.
pub fn initialize_config(authority: u64, fee_bps: u16, fee_recipient: u64) -> (r: Result<
    Config,
    VerityError,
>)
    ensures
        r is Ok <==> fee_bps <= MAX_FEE_BPS,
        r is Err ==> r->Err_0 == VerityError::InvalidPrice,
        r matches Ok(config) ==> config == (Config { authority, fee_bps, fee_recipient })
            && config.wf(),
{
    instructions::initialize_config::handler(authority, fee_bps, fee_recipient)
}

/// Create a user-owned vault for a unique asset and move the asset into
/// its custody sub-account.
pub fn initialize_user_vault(
    owner: u64,
    mint: &MintInfo,
    owner_token_account: &TokenAccountInfo,
    vault_ata: u64,
    bump: u8,
) -> (r: Result<(UserVault, LedgerOp), VerityError>)
    ensures
        r is Ok <==> initialize_user_vault_error(owner, *mint, *owner_token_account) is None,
        r is Err ==> Some(r->Err_0) == initialize_user_vault_error(
            owner, *mint, *owner_token_account,
        ),
        r matches Ok((vault, op)) ==> vault == (UserVault {
            owner,
            mint: mint.id,
            vault_ata,
            bump,
        }) && op == (LedgerOp::AssetTransfer {
            from_account: owner_token_account.id,
            to_account: vault_ata,
            amount: 1,
        }),
{
    instructions::initialize_user_vault::handler(owner, mint, owner_token_account, vault_ata, bump)
}

/// Create an Active listing that references an existing vault; the asset
/// does not move.
pub fn create_listing(
    seller: u64,
    mint: u64,
    user_vault: &UserVault,
    user_vault_id: u64,
    vault_ata: &TokenAccountInfo,
    price_type: PriceType,
    start_price: u64,
    min_price: u64,
    start_ts: i64,
    duration: i64,
    min_floor: Option<u64>,
    valid_from: Option<i64>,
    valid_until: Option<i64>,
    bump: u8,
) -> (r: Result<Listing, VerityError>)
    ensures
        r is Ok <==> create_listing_error(
            seller, mint, *user_vault, *vault_ata, price_type, start_price, min_price, duration,
            valid_from, valid_until,
        ) is None,
        r is Err ==> Some(r->Err_0) == create_listing_error(
            seller, mint, *user_vault, *vault_ata, price_type, start_price, min_price, duration,
            valid_from, valid_until,
        ),
        r matches Ok(listing) ==> listing == (Listing {
            seller,
            mint: user_vault.mint,
            user_vault: user_vault_id,
            price_config: PriceConfig { price_type, start_price, min_price, start_ts, duration },
            conditions: ListingConditions { min_floor, valid_from, valid_until },
            state: STATE_ACTIVE,
            bump,
        }) && listing.wf(),
{
    instructions::create_listing::handler(
        seller, mint, user_vault, user_vault_id, vault_ata, price_type, start_price, min_price,
        start_ts, duration, min_floor, valid_from, valid_until, bump,
    )
}

/// Purchase a listed asset at the current price, splitting the payment
/// among seller, marketplace and royalty party.
pub fn buy_now(
    listing: &mut Listing,
    user_vault: &UserVault,
    user_vault_id: u64,
    vault_ata: &TokenAccountInfo,
    buyer: u64,
    buyer_ata: u64,
    config: &Config,
    now: i64,
) -> (r: Result<Settlement, VerityError>)
    requires
        config.wf(),
    ensures
        r is Ok <==> buy_now_error(
            *old(listing), *user_vault, user_vault_id, *vault_ata, now as int,
        ) is None,
        r is Err ==> Some(r->Err_0) == buy_now_error(
            *old(listing), *user_vault, user_vault_id, *vault_ata, now as int,
        ) && *final(listing) == *old(listing),
        r matches Ok(s) ==> ({
            &&& s.price as int == spec_price(old(listing).price_config, now as int)
            &&& s.split.marketplace_fee == s.price as int * config.fee_bps as int
                / (BPS_DENOMINATOR as int)
            &&& s.split.royalty == s.price as int * (ROYALTY_BPS as int) / (BPS_DENOMINATOR as int)
            &&& s.split.marketplace_fee + s.split.royalty + s.split.seller_amount == s.price
            &&& s.ops@ == settlement_ops(
                buyer, old(listing).seller, config.fee_recipient, vault_ata.id, buyer_ata, s.split,
            )
            &&& *final(listing) == (Listing { state: STATE_SOLD, ..*old(listing) })
        }),
{
    instructions::buy_now::handler(
        listing, user_vault, user_vault_id, vault_ata, buyer, buyer_ata, config, now,
    )
}

/// Cancel an Active listing; the asset stays in the seller's vault.
pub fn cancel_listing(listing: &mut Listing, user_vault_id: u64, caller: u64) -> (r: Result<
    (),
    VerityError,
>)
    ensures
        r is Ok <==> cancel_listing_error(*old(listing), user_vault_id, caller) is None,
        r is Err ==> Some(r->Err_0) == cancel_listing_error(*old(listing), user_vault_id, caller)
            && *final(listing) == *old(listing),
        r is Ok ==> *final(listing) == (Listing { state: STATE_CANCELLED, ..*old(listing) }),
{
    instructions::cancel_listing::handler(listing, user_vault_id, caller)
}

/// Withdraw the asset from a vault back to its owner and destroy the
/// vault.
pub fn withdraw_from_vault(
    vault: &UserVault,
    vault_ata: &TokenAccountInfo,
    owner_token_account: &TokenAccountInfo,
    caller: u64,
) -> (r: Result<Vec<LedgerOp>, VerityError>)
    ensures
        r is Ok <==> withdraw_error(*vault, *vault_ata, *owner_token_account, caller) is None,
        r is Err ==> Some(r->Err_0) == withdraw_error(
            *vault, *vault_ata, *owner_token_account, caller,
        ),
        r matches Ok(ops) ==> ops@ == withdraw_ops(*vault_ata, *owner_token_account, caller),
{
    instructions::withdraw_from_vault::handler(vault, vault_ata, owner_token_account, caller)
}

/// Create the per-attestor nonce counter.
pub fn initialize_attestor_state(st: &mut AttestorState, attestor: u64) -> (r: Result<
    (),
    VerityError,
>)
    ensures
        r is Ok <==> old(st).attestor == 0,
        r is Err ==> r->Err_0 == VerityError::AlreadyInitialized && *final(st) == *old(st),
        r is Ok ==> *final(st) == (AttestorState { attestor, last_nonce: 0 }),
{
    instructions::initialize_attestor_state::handler(st, attestor)
}

/// Issue a floor attestation under the attestor's next nonce.
pub fn create_attestation(
    attestor: u64,
    config: &Config,
    attestor_state: &mut AttestorState,
    collection: u64,
    floor: u64,
    now: i64,
) -> (r: Result<Attestation, VerityError>)
    requires
        old(attestor_state).attestor == attestor,
    ensures
        r is Ok <==> attestor == config.authority && old(attestor_state).last_nonce < u64::MAX,
        r is Err ==> *final(attestor_state) == *old(attestor_state),
        r is Err && attestor != config.authority ==> r->Err_0
            == VerityError::UnauthorizedAttestor,
        r is Err && attestor == config.authority ==> r->Err_0 == VerityError::ArithmeticOverflow,
        r matches Ok(att) ==> att == (Attestation {
            attestor,
            collection,
            floor,
            ts: now,
            nonce: old(attestor_state).last_nonce,
            used: false,
        }),
        r matches Ok(att) ==> issuance_step(*old(attestor_state), att, *final(attestor_state)),
{
    create_attestation_handler(attestor, config, attestor_state, collection, floor, now)
}

/// Consume a valid attestation to force-cancel a listing whose own floor
/// is stale, returning the asset to the seller.
pub fn force_cancel(
    attestation: &mut Attestation,
    listing: &Listing,
    user_vault: &UserVault,
    user_vault_id: u64,
    vault_ata: &TokenAccountInfo,
    seller_token_account: u64,
    config: &Config,
    collection: u64,
    now: i64,
) -> (r: Result<Vec<LedgerOp>, VerityError>)
    ensures
        r is Ok <==> force_cancel_error(
            *old(attestation), *listing, *user_vault, user_vault_id, *vault_ata, *config,
            collection, now as int,
        ) is None,
        r is Err ==> Some(r->Err_0) == force_cancel_error(
            *old(attestation), *listing, *user_vault, user_vault_id, *vault_ata, *config,
            collection, now as int,
        ) && *final(attestation) == *old(attestation),
        r matches Ok(ops) ==> ops@ == force_cancel_ops(
            *vault_ata, seller_token_account, listing.seller,
        ) && *final(attestation) == consumed(*old(attestation)),
{
    force_cancel_handler(
        attestation, listing, user_vault, user_vault_id, vault_ata, seller_token_account, config,
        collection, now,
    )
}

} // verus!
