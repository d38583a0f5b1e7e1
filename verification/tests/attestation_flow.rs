use verity::error::VerityError;
use verity::state::{
    Attestation, AttestorState, Config, LedgerOp, Listing, ListingConditions, PriceConfig,
    PriceType, TokenAccountInfo, UserVault, STATE_ACTIVE,
};
use verity::{create_attestation, force_cancel, initialize_attestor_state};

const SELLER: u64 = 11;
const AUTHORITY: u64 = 31;
const FEE_RECIPIENT: u64 = 41;
const MINT: u64 = 51;
const VAULT_ID: u64 = 61;
const VAULT_ATA: u64 = 71;
const SELLER_TOKEN: u64 = 81;
const COLLECTION: u64 = 91;

fn config() -> Config {
    Config { authority: AUTHORITY, fee_bps: 250, fee_recipient: FEE_RECIPIENT }
}

fn vault() -> UserVault {
    UserVault { owner: SELLER, mint: MINT, vault_ata: VAULT_ATA, bump: 3 }
}

fn vault_token_account() -> TokenAccountInfo {
    TokenAccountInfo { id: VAULT_ATA, owner: VAULT_ID, mint: MINT, amount: 1 }
}

fn listing_with_floor(min_price: u64) -> Listing {
    Listing {
        seller: SELLER,
        mint: MINT,
        user_vault: VAULT_ID,
        price_config: PriceConfig {
            price_type: PriceType::Fixed,
            start_price: min_price,
            min_price,
            start_ts: 0,
            duration: 0,
        },
        conditions: ListingConditions { min_floor: None, valid_from: None, valid_until: None },
        state: STATE_ACTIVE,
        bump: 4,
    }
}

fn try_force_cancel(
    att: &mut Attestation,
    listing: &Listing,
    now: i64,
) -> Result<Vec<LedgerOp>, VerityError> {
    force_cancel(
        att,
        listing,
        &vault(),
        VAULT_ID,
        &vault_token_account(),
        SELLER_TOKEN,
        &config(),
        COLLECTION,
        now,
    )
}

#[test]
fn attestor_state_initializes_once() {
    let mut st = AttestorState { attestor: 0, last_nonce: 0 };
    assert_eq!(initialize_attestor_state(&mut st, AUTHORITY), Ok(()));
    assert_eq!(st, AttestorState { attestor: AUTHORITY, last_nonce: 0 });
    assert_eq!(
        initialize_attestor_state(&mut st, AUTHORITY),
        Err(VerityError::AlreadyInitialized),
    );
}

#[test]
fn nonces_issue_sequentially_from_zero() {
    let mut st = AttestorState { attestor: 0, last_nonce: 0 };
    initialize_attestor_state(&mut st, AUTHORITY).unwrap();
    for expected_nonce in 0..5u64 {
        let att = create_attestation(AUTHORITY, &config(), &mut st, COLLECTION, 150, 1000)
            .unwrap();
        assert_eq!(att.nonce, expected_nonce);
        assert_eq!(att.attestor, AUTHORITY);
        assert_eq!(att.collection, COLLECTION);
        assert_eq!(att.floor, 150);
        assert_eq!(att.ts, 1000);
        assert!(!att.used);
        assert_eq!(st.last_nonce, expected_nonce + 1);
    }
}

#[test]
fn attestation_issuance_is_for_the_authority_alone() {
    let mut st = AttestorState { attestor: SELLER, last_nonce: 0 };
    let r = create_attestation(SELLER, &config(), &mut st, COLLECTION, 150, 1000);
    assert_eq!(r, Err(VerityError::UnauthorizedAttestor));
    assert_eq!(st.last_nonce, 0);
}

#[test]
fn attestation_nonce_counter_cannot_wrap() {
    let mut st = AttestorState { attestor: AUTHORITY, last_nonce: u64::MAX };
    let r = create_attestation(AUTHORITY, &config(), &mut st, COLLECTION, 150, 1000);
    assert_eq!(r, Err(VerityError::ArithmeticOverflow));
    assert_eq!(st.last_nonce, u64::MAX);
}

#[test]
fn force_cancel_scenario_and_replay_protection() {
    // attested floor 180 undercuts the listing floor 200 within the TTL
    let mut st = AttestorState { attestor: 0, last_nonce: 0 };
    initialize_attestor_state(&mut st, AUTHORITY).unwrap();
    let mut att = create_attestation(AUTHORITY, &config(), &mut st, COLLECTION, 180, 1000)
        .unwrap();
    let listing = listing_with_floor(200);
    let ops = try_force_cancel(&mut att, &listing, 1200).unwrap();
    assert_eq!(
        ops,
        vec![
            LedgerOp::AssetTransfer {
                from_account: VAULT_ATA,
                to_account: SELLER_TOKEN,
                amount: 1,
            },
            LedgerOp::CloseTokenAccount { account: VAULT_ATA, deposit_to: SELLER },
        ],
    );
    assert!(att.used);
    // replaying the consumed attestation fails, however fresh the clock
    assert_eq!(try_force_cancel(&mut att, &listing, 1201), Err(VerityError::AttestationUsed));
    assert!(att.used);
}

#[test]
fn force_cancel_rejects_stale_attestation() {
    let mut att = Attestation {
        attestor: AUTHORITY,
        collection: COLLECTION,
        floor: 180,
        ts: 1000,
        nonce: 0,
        used: false,
    };
    let listing = listing_with_floor(200);
    // 300 seconds after issuance is still within the TTL; 301 is not
    assert!(try_force_cancel(&mut att.clone(), &listing, 1300).is_ok());
    assert_eq!(try_force_cancel(&mut att, &listing, 1301), Err(VerityError::AttestationExpired));
    assert!(!att.used);
}

#[test]
fn force_cancel_age_computation_cannot_wrap() {
    let mut att = Attestation {
        attestor: AUTHORITY,
        collection: COLLECTION,
        floor: 180,
        ts: i64::MIN,
        nonce: 0,
        used: false,
    };
    let listing = listing_with_floor(200);
    assert_eq!(
        try_force_cancel(&mut att, &listing, i64::MAX),
        Err(VerityError::ArithmeticOverflow),
    );
}

#[test]
fn force_cancel_requires_a_floor_violation() {
    let mut att = Attestation {
        attestor: AUTHORITY,
        collection: COLLECTION,
        floor: 200,
        ts: 1000,
        nonce: 0,
        used: false,
    };
    // an attested floor at or above the listing floor does not justify a cancel
    let listing = listing_with_floor(200);
    assert_eq!(try_force_cancel(&mut att, &listing, 1100), Err(VerityError::FloorTooHigh));
    assert!(!att.used);
}

#[test]
fn force_cancel_checks_issuer_and_collection() {
    let listing = listing_with_floor(200);
    let mut att = Attestation {
        attestor: SELLER,
        collection: COLLECTION,
        floor: 180,
        ts: 1000,
        nonce: 0,
        used: false,
    };
    assert_eq!(try_force_cancel(&mut att, &listing, 1100), Err(VerityError::UnauthorizedAttestor));
    let mut att = Attestation {
        attestor: AUTHORITY,
        collection: COLLECTION + 1,
        floor: 180,
        ts: 1000,
        nonce: 0,
        used: false,
    };
    assert_eq!(try_force_cancel(&mut att, &listing, 1100), Err(VerityError::InvalidMetadata));
}

#[test]
fn force_cancel_requires_active_listing_and_its_vault() {
    let mut att = Attestation {
        attestor: AUTHORITY,
        collection: COLLECTION,
        floor: 180,
        ts: 1000,
        nonce: 0,
        used: false,
    };
    let mut listing = listing_with_floor(200);
    listing.state = verity::state::STATE_SOLD;
    assert_eq!(try_force_cancel(&mut att, &listing, 1100), Err(VerityError::ListingNotActive));
    let listing = listing_with_floor(200);
    let r = force_cancel(
        &mut att,
        &listing,
        &vault(),
        VAULT_ID + 1,
        &vault_token_account(),
        SELLER_TOKEN,
        &config(),
        COLLECTION,
        1100,
    );
    assert_eq!(r, Err(VerityError::VaultMismatch));
}
