use vstd::prelude::*;
use vstd::arithmetic::div_mod::{
    lemma_fundamental_div_mod, lemma_mod_division_less_than_divisor, lemma_multiply_divide_le,
};
use vstd::arithmetic::mul::{
    lemma_mul_inequality, lemma_mul_inequality_converse, lemma_mul_is_commutative,
    lemma_mul_is_distributive_add, lemma_mul_upper_bound,
};
use crate::error::VerityError;
use crate::state::{
    calculate_price, conditions_error, spec_price, validate_conditions, Config, LedgerOp, Listing,
    MAX_FEE_BPS, STATE_ACTIVE, STATE_SOLD, TokenAccountInfo, UserVault,
};

verus! {

/// A rate in basis points is a fraction of this denominator.
pub const BPS_DENOMINATOR: u64 = 10000;

/// The royalty rate withheld from every sale, a fixed 5% for now rather
/// than a value read from asset metadata.
pub const ROYALTY_BPS: u64 = 500;

/// The three-way division of a purchase price among the marketplace, the
/// royalty party, and the seller.
#[derive(Clone, Copy, PartialEq, Eq, Debug)]
pub struct PaymentSplit {
    pub marketplace_fee: u64,
    pub royalty: u64,
    pub seller_amount: u64,
}

/// Taking each rounded-down share of a price leaves the seller at least
/// the rest: the two shares together never exceed the price.
proof fn lemma_shares_le_price(p: int, f: int)
    requires
        p >= 0,
        0 <= f <= MAX_FEE_BPS,
    ensures
        p * f / (BPS_DENOMINATOR as int) + p * (ROYALTY_BPS as int) / (BPS_DENOMINATOR as int)
            <= p,
{
    let d = BPS_DENOMINATOR as int;
    let fee = p * f / d;
    let roy = p * (ROYALTY_BPS as int) / d;
    lemma_fundamental_div_mod(p * f, d);
    lemma_mod_division_less_than_divisor(p * f, d);
    lemma_fundamental_div_mod(p * (ROYALTY_BPS as int), d);
    lemma_mod_division_less_than_divisor(p * (ROYALTY_BPS as int), d);
    assert(p * f <= p * (MAX_FEE_BPS as int)) by {
        lemma_mul_inequality(f, MAX_FEE_BPS as int, p);
        lemma_mul_is_commutative(f, p);
        lemma_mul_is_commutative(MAX_FEE_BPS as int, p);
    }
    assert(d * (fee + roy) == d * fee + d * roy) by {
        lemma_mul_is_distributive_add(d, fee, roy);
    }
    assert(p * (MAX_FEE_BPS as int) + p * (ROYALTY_BPS as int) == p * 1500) by {
        lemma_mul_is_distributive_add(p, MAX_FEE_BPS as int, ROYALTY_BPS as int);
    }
    assert(p * 1500 <= p * d) by {
        lemma_mul_inequality(1500, d, p);
        lemma_mul_is_commutative(1500, p);
        lemma_mul_is_commutative(d, p);
    }
    assert(fee + roy <= p) by {
        lemma_mul_is_commutative(d, fee + roy);
        lemma_mul_is_commutative(d, p);
        lemma_mul_inequality_converse(fee + roy, p, d);
    }
}

/// A rounded-down share of the price never exceeds the price itself.
proof fn lemma_share_fits(p: int, bps: int)
    requires
        p >= 0,
        0 <= bps <= BPS_DENOMINATOR,
    ensures
        0 <= p * bps / (BPS_DENOMINATOR as int) <= p,
{
    let d = BPS_DENOMINATOR as int;
    assert(p * bps >= 0) by {
        lemma_mul_inequality(0, bps, p);
        lemma_mul_is_commutative(bps, p);
    }
    vstd::arithmetic::div_mod::lemma_div_pos_is_pos(p * bps, d);
    assert(p * bps <= d * p) by {
        lemma_mul_inequality(bps, d, p);
        lemma_mul_is_commutative(bps, p);
        lemma_mul_is_commutative(d, p);
    }
    lemma_multiply_divide_le(p * bps, d, p);
}

/// Split a sale price among the marketplace fee, the royalty, and the
/// seller. Each share is the rounded-down basis-point fraction of the
/// price; the seller receives the remainder, so the three parts always
/// add up to the price exactly.
pub fn compute_payment_split(price: u64, fee_bps: u16) -> (s: PaymentSplit)
    requires
        fee_bps <= MAX_FEE_BPS,
    ensures
        s.marketplace_fee == price as int * fee_bps as int / (BPS_DENOMINATOR as int),
        s.royalty == price as int * (ROYALTY_BPS as int) / (BPS_DENOMINATOR as int),
        s.marketplace_fee + s.royalty + s.seller_amount == price,
{
    proof {
        lemma_mul_upper_bound(price as int, u64::MAX as int, fee_bps as int, MAX_FEE_BPS as int);
        lemma_share_fits(price as int, fee_bps as int);
        lemma_mul_upper_bound(price as int, u64::MAX as int, ROYALTY_BPS as int, ROYALTY_BPS as int);
        lemma_share_fits(price as int, ROYALTY_BPS as int);
        lemma_shares_le_price(price as int, fee_bps as int);
    }
    let marketplace_fee: u64 = ((price as u128) * (fee_bps as u128) / (BPS_DENOMINATOR as u128))
        as u64;
    let royalty: u64 = ((price as u128) * (ROYALTY_BPS as u128) / (BPS_DENOMINATOR as u128))
        as u64;
    let seller_amount: u64 = price - marketplace_fee - royalty;
    PaymentSplit { marketplace_fee, royalty, seller_amount }
}

/// The first check a purchase at time `now` violates, or `None` when it
/// may settle: the listing must be active, the supplied vault and custody
/// sub-account must be the referenced ones and hold the unit, and the
/// listing's conditions must allow the time.
pub open spec fn buy_now_error(
    listing: Listing,
    user_vault: UserVault,
    user_vault_id: u64,
    vault_ata: TokenAccountInfo,
    now: int,
) -> Option<VerityError> {
    if listing.state != STATE_ACTIVE {
        Some(VerityError::ListingNotActive)
    } else if user_vault_id != listing.user_vault {
        Some(VerityError::VaultMismatch)
    } else if vault_ata.id != user_vault.vault_ata {
        Some(VerityError::VaultMismatch)
    } else if vault_ata.amount != 1 {
        Some(VerityError::InvalidTokenAmount)
    } else {
        conditions_error(listing.conditions, now)
    }
}

/// The ledger operations a settlement issues, in order: payment to the
/// seller, the marketplace fee, the royalty (paid to the seller while the
/// royalty registry is out of scope), then the asset itself. Zero-amount
/// payments are omitted.
pub open spec fn settlement_ops(
    buyer: u64,
    seller: u64,
    fee_recipient: u64,
    vault_ata_id: u64,
    buyer_ata: u64,
    split: PaymentSplit,
) -> Seq<LedgerOp> {
    (if split.seller_amount > 0 {
        seq![LedgerOp::Payment { from: buyer, to: seller, amount: split.seller_amount }]
    } else {
        Seq::empty()
    }) + (if split.marketplace_fee > 0 {
        seq![LedgerOp::Payment { from: buyer, to: fee_recipient, amount: split.marketplace_fee }]
    } else {
        Seq::empty()
    }) + (if split.royalty > 0 {
        seq![LedgerOp::Payment { from: buyer, to: seller, amount: split.royalty }]
    } else {
        Seq::empty()
    }) + seq![
        LedgerOp::AssetTransfer { from_account: vault_ata_id, to_account: buyer_ata, amount: 1 },
    ]
}

/// Everything a successful purchase commits: the price it was struck at,
/// its three-way split, and the ledger operations to perform, in order.
#[derive(Clone, PartialEq, Eq, Debug)]
pub struct Settlement {
    pub price: u64,
    pub split: PaymentSplit,
    pub ops: Vec<LedgerOp>,
}

/// Purchase a listed asset. Validates the listing and its conditions,
/// strikes the price for the current time, splits the payment, and hands
/// back the operations to commit; the listing leaves the state machine as
/// Sold and the environment destroys its record. Any failure leaves every
/// record untouched.
pub fn handler(
    listing: &mut Listing,
    user_vault: &UserVault,
    user_vault_id: u64,
    vault_ata: &TokenAccountInfo,
    buyer: u64,
    buyer_ata: u64,
    config: &Config,
    now: i64,
) -> (r: Result<Settlement, VerityError>)
    requires
        config.wf(),
    ensures
        r is Ok <==> buy_now_error(
            *old(listing), *user_vault, user_vault_id, *vault_ata, now as int,
        ) is None,
        r is Err ==> Some(r->Err_0) == buy_now_error(
            *old(listing), *user_vault, user_vault_id, *vault_ata, now as int,
        ) && *final(listing) == *old(listing),
        r matches Ok(s) ==> ({
            &&& s.price as int == spec_price(old(listing).price_config, now as int)
            &&& s.split.marketplace_fee == s.price as int * config.fee_bps as int
                / (BPS_DENOMINATOR as int)
            &&& s.split.royalty == s.price as int * (ROYALTY_BPS as int) / (BPS_DENOMINATOR as int)
            &&& s.split.marketplace_fee + s.split.royalty + s.split.seller_amount == s.price
            &&& s.ops@ == settlement_ops(
                buyer, old(listing).seller, config.fee_recipient, vault_ata.id, buyer_ata, s.split,
            )
            &&& *final(listing) == (Listing { state: STATE_SOLD, ..*old(listing) })
        }),
{
    if listing.state != STATE_ACTIVE {
        return Err(VerityError::ListingNotActive);
    }
    if user_vault_id != listing.user_vault {
        return Err(VerityError::VaultMismatch);
    }
    if vault_ata.id != user_vault.vault_ata {
        return Err(VerityError::VaultMismatch);
    }
    if vault_ata.amount != 1 {
        return Err(VerityError::InvalidTokenAmount);
    }
    match validate_conditions(&listing.conditions, now, None) {
        Ok(()) => {},
        Err(e) => {
            return Err(e);
        },
    }
    let price = calculate_price(&listing.price_config, now);
    let split = compute_payment_split(price, config.fee_bps);
    let seller = listing.seller;
    let fee_recipient = config.fee_recipient;

    let mut ops: Vec<LedgerOp> = Vec::new();
    if split.seller_amount > 0 {
        ops.push(LedgerOp::Payment { from: buyer, to: seller, amount: split.seller_amount });
    }
    if split.marketplace_fee > 0 {
        ops.push(
            LedgerOp::Payment { from: buyer, to: fee_recipient, amount: split.marketplace_fee },
        );
    }
    if split.royalty > 0 {
        ops.push(LedgerOp::Payment { from: buyer, to: seller, amount: split.royalty });
    }
    ops.push(
        LedgerOp::AssetTransfer { from_account: vault_ata.id, to_account: buyer_ata, amount: 1 },
    );
    proof {
        assert(ops@ =~= settlement_ops(buyer, seller, fee_recipient, vault_ata.id, buyer_ata,
            split));
    }
    listing.state = STATE_SOLD;
    Ok(Settlement { price, split, ops })
}

} // verus!
