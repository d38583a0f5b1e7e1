use vstd::prelude::*;
use crate::error::VerityError;
use crate::state::{
    Attestation, AttestorState, Config, LedgerOp, Listing, STATE_ACTIVE, TokenAccountInfo,
    UserVault,
};

verus! {

/// How long an attestation stays usable after issuance, in seconds.
pub const ATTESTATION_TTL: i64 = 300;

/// One issuance: the attestation takes the counter's current value as its
/// nonce and the counter moves up by one, so each nonce is handed out
/// exactly once.
pub open spec fn issuance_step(
    pre: AttestorState,
    att: Attestation,
    post: AttestorState,
) -> bool {
    &&& att.attestor == pre.attestor
    &&& att.nonce == pre.last_nonce
    &&& post.attestor == pre.attestor
    &&& post.last_nonce == pre.last_nonce + 1
}

/// Issue an attestation that the market floor for `collection` stands at
/// `floor`. Only the marketplace authority may issue one. The new record
/// is keyed by the counter value before the increment, so nonces are
/// issued strictly increasing with no gaps and a slot is never reused.
pub fn create_attestation_handler(
    attestor: u64,
    config: &Config,
    attestor_state: &mut AttestorState,
    collection: u64,
    floor: u64,
    now: i64,
) -> (r: Result<Attestation, VerityError>)
    requires
        old(attestor_state).attestor == attestor,
    ensures
        r is Ok <==> attestor == config.authority && old(attestor_state).last_nonce < u64::MAX,
        r is Err ==> *final(attestor_state) == *old(attestor_state),
        r is Err && attestor != config.authority ==> r->Err_0
            == VerityError::UnauthorizedAttestor,
        r is Err && attestor == config.authority ==> r->Err_0 == VerityError::ArithmeticOverflow,
        r matches Ok(att) ==> att == (Attestation {
            attestor,
            collection,
            floor,
            ts: now,
            nonce: old(attestor_state).last_nonce,
            used: false,
        }),
        r matches Ok(att) ==> issuance_step(*old(attestor_state), att, *final(attestor_state)),
{
    if attestor != config.authority {
        return Err(VerityError::UnauthorizedAttestor);
    }
    let nonce = attestor_state.last_nonce;
    if nonce == u64::MAX {
        return Err(VerityError::ArithmeticOverflow);
    }
    attestor_state.last_nonce = nonce + 1;
    Ok(Attestation { attestor, collection, floor, ts: now, nonce, used: false })
}

/// Under sequential issuance from a fresh counter, the attestations carry
/// the nonces 0, 1, 2, ...: the counter's value always equals how many
/// were issued.
proof fn lemma_counter_counts_issuances(
    states: Seq<AttestorState>,
    atts: Seq<Attestation>,
    k: int,
)
    requires
        states.len() == atts.len() + 1,
        states[0].last_nonce == 0,
        forall|i: int|
            0 <= i < atts.len() ==> issuance_step(states[i], #[trigger] atts[i], states[i + 1]),
        0 <= k <= atts.len(),
    ensures
        states[k].last_nonce == k,
    decreases k,
{
    if k > 0 {
        lemma_counter_counts_issuances(states, atts, k - 1);
        assert(issuance_step(states[k - 1], atts[k - 1], states[k]));
    }
}

/// Nonces form the gapless sequence 0, 1, 2, ... under sequential
/// issuance from a freshly initialized counter, and are strictly
/// increasing in issuance order. `states` are the counter's values around
/// the issuances: `states[i]` before `atts[i]`, `states[i + 1]` after.
pub proof fn lemma_nonces_sequential(states: Seq<AttestorState>, atts: Seq<Attestation>)
    requires
        states.len() == atts.len() + 1,
        states[0].last_nonce == 0,
        forall|i: int|
            0 <= i < atts.len() ==> issuance_step(states[i], #[trigger] atts[i], states[i + 1]),
    ensures
        forall|i: int| 0 <= i < atts.len() ==> #[trigger] atts[i].nonce == i,
        forall|i: int, j: int|
            0 <= i < j < atts.len() ==> atts[i].nonce < atts[j].nonce,
{
    assert forall|i: int| 0 <= i < atts.len() implies #[trigger] atts[i].nonce == i by {
        lemma_counter_counts_issuances(states, atts, i);
        assert(issuance_step(states[i], atts[i], states[i + 1]));
    }
}

/// An attestation after force-cancel has consumed it: the same claim, now
/// marked used.
pub open spec fn consumed(att: Attestation) -> Attestation {
    Attestation { used: true, ..att }
}

/// The first check a force-cancel violates, or `None` when it may proceed.
/// In order: the listing must be active and the vault really its vault
/// holding the unit; the attestation must come from the trusted attestor,
/// be for the supplied collection, be unconsumed and no older than the
/// time-to-live; and the attested floor must undercut the listing's own
/// floor, else the cancel is not justified.
pub open spec fn force_cancel_error(
    att: Attestation,
    listing: Listing,
    user_vault: UserVault,
    user_vault_id: u64,
    vault_ata: TokenAccountInfo,
    config: Config,
    collection: u64,
    now: int,
) -> Option<VerityError> {
    if listing.state != STATE_ACTIVE {
        Some(VerityError::ListingNotActive)
    } else if user_vault_id != listing.user_vault {
        Some(VerityError::VaultMismatch)
    } else if vault_ata.id != user_vault.vault_ata {
        Some(VerityError::VaultMismatch)
    } else if vault_ata.amount != 1 {
        Some(VerityError::InvalidTokenAmount)
    } else if att.attestor != config.authority {
        Some(VerityError::UnauthorizedAttestor)
    } else if att.collection != collection {
        Some(VerityError::InvalidMetadata)
    } else if att.used {
        Some(VerityError::AttestationUsed)
    } else if now - att.ts > i64::MAX || now - att.ts < i64::MIN {
        Some(VerityError::ArithmeticOverflow)
    } else if now - att.ts > ATTESTATION_TTL {
        Some(VerityError::AttestationExpired)
    } else if att.floor >= listing.price_config.min_price {
        Some(VerityError::FloorTooHigh)
    } else {
        None
    }
}

/// The force-cancel's effect: return the unit from the vault's custody
/// sub-account to the seller's token account, then release the custody
/// sub-account with its deposit refunded to the seller.
pub open spec fn force_cancel_ops(
    vault_ata: TokenAccountInfo,
    seller_token_account: u64,
    seller: u64,
) -> Seq<LedgerOp> {
    seq![
        LedgerOp::AssetTransfer {
            from_account: vault_ata.id,
            to_account: seller_token_account,
            amount: 1,
        },
        LedgerOp::CloseTokenAccount { account: vault_ata.id, deposit_to: seller },
    ]
}

/// Force-cancel a listing on the strength of an attestation showing the
/// listing's floor is stale. The attestation is marked used before any
/// asset movement, so it can never justify a second cancel; the
/// environment then returns the asset to the seller and destroys the
/// listing and vault records with their deposits refunded to the seller.
pub fn force_cancel_handler(
    attestation: &mut Attestation,
    listing: &Listing,
    user_vault: &UserVault,
    user_vault_id: u64,
    vault_ata: &TokenAccountInfo,
    seller_token_account: u64,
    config: &Config,
    collection: u64,
    now: i64,
) -> (r: Result<Vec<LedgerOp>, VerityError>)
    ensures
        r is Ok <==> force_cancel_error(
            *old(attestation), *listing, *user_vault, user_vault_id, *vault_ata, *config,
            collection, now as int,
        ) is None,
        r is Err ==> Some(r->Err_0) == force_cancel_error(
            *old(attestation), *listing, *user_vault, user_vault_id, *vault_ata, *config,
            collection, now as int,
        ) && *final(attestation) == *old(attestation),
        r matches Ok(ops) ==> ops@ == force_cancel_ops(
            *vault_ata, seller_token_account, listing.seller,
        ) && *final(attestation) == consumed(*old(attestation)),
{
    if listing.state != STATE_ACTIVE {
        return Err(VerityError::ListingNotActive);
    }
    if user_vault_id != listing.user_vault {
        return Err(VerityError::VaultMismatch);
    }
    if vault_ata.id != user_vault.vault_ata {
        return Err(VerityError::VaultMismatch);
    }
    if vault_ata.amount != 1 {
        return Err(VerityError::InvalidTokenAmount);
    }
    if attestation.attestor != config.authority {
        return Err(VerityError::UnauthorizedAttestor);
    }
    if attestation.collection != collection {
        return Err(VerityError::InvalidMetadata);
    }
    if attestation.used {
        return Err(VerityError::AttestationUsed);
    }
    let age_wide: i128 = now as i128 - attestation.ts as i128;
    if age_wide > i64::MAX as i128 || age_wide < i64::MIN as i128 {
        return Err(VerityError::ArithmeticOverflow);
    }
    let age: i64 = age_wide as i64;
    if age > ATTESTATION_TTL {
        return Err(VerityError::AttestationExpired);
    }
    if attestation.floor >= listing.price_config.min_price {
        return Err(VerityError::FloorTooHigh);
    }
    attestation.used = true;
    let mut ops: Vec<LedgerOp> = Vec::new();
    ops.push(LedgerOp::AssetTransfer {
        from_account: vault_ata.id,
        to_account: seller_token_account,
        amount: 1,
    });
    ops.push(LedgerOp::CloseTokenAccount { account: vault_ata.id, deposit_to: listing.seller });
    proof {
        assert(ops@ =~= force_cancel_ops(*vault_ata, seller_token_account, listing.seller));
    }
    Ok(ops)
}

/// A consumed attestation never passes force-cancel validation again, with
/// any listing, configuration or time; when the same marketplace and
/// collection present it against an active, well-referenced vault, the
/// refusal is precisely that the attestation was already used.
pub proof fn lemma_attestation_single_use(
    att: Attestation,
    listing: Listing,
    user_vault: UserVault,
    user_vault_id: u64,
    vault_ata: TokenAccountInfo,
    config: Config,
    collection: u64,
    now1: int,
    listing2: Listing,
    user_vault2: UserVault,
    user_vault_id2: u64,
    vault_ata2: TokenAccountInfo,
    config2: Config,
    collection2: u64,
    now2: int,
)
    requires
        force_cancel_error(
            att, listing, user_vault, user_vault_id, vault_ata, config, collection, now1,
        ) is None,
    ensures
        force_cancel_error(
            consumed(att), listing2, user_vault2, user_vault_id2, vault_ata2, config2,
            collection2, now2,
        ) is Some,
        (listing2.state == STATE_ACTIVE && user_vault_id2 == listing2.user_vault
            && vault_ata2.id == user_vault2.vault_ata && vault_ata2.amount == 1
            && config2.authority == config.authority && collection2 == collection)
            ==> force_cancel_error(
            consumed(att), listing2, user_vault2, user_vault_id2, vault_ata2, config2,
            collection2, now2,
        ) == Some(VerityError::AttestationUsed),
{
}

/// An attestation older than the time-to-live is rejected even when it is
/// otherwise valid: no force-cancel at such a time can succeed.
pub proof fn lemma_stale_attestation_rejected(
    att: Attestation,
    listing: Listing,
    user_vault: UserVault,
    user_vault_id: u64,
    vault_ata: TokenAccountInfo,
    config: Config,
    collection: u64,
    now: int,
)
    requires
        now - att.ts > ATTESTATION_TTL,
    ensures
        force_cancel_error(
            att, listing, user_vault, user_vault_id, vault_ata, config, collection, now,
        ) is Some,
{
}

} // verus!
