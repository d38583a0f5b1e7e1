use vstd::prelude::*;
use vstd::arithmetic::div_mod::{lemma_div_is_ordered, lemma_div_pos_is_pos, lemma_multiply_divide_le};
use vstd::arithmetic::mul::{lemma_mul_inequality, lemma_mul_is_commutative, lemma_mul_upper_bound};
use crate::error::VerityError;

verus! {

/// A listing that may still be bought is Active; Cancelled and Sold are
/// terminal, and the ledger environment destroys the record on reaching them.
pub const STATE_ACTIVE: u8 = 0;
pub const STATE_CANCELLED: u8 = 1;
pub const STATE_SOLD: u8 = 2;

/// How a listing's sale price evolves over time.
#[derive(Clone, Copy, PartialEq, Eq, Debug)]
pub enum PriceType {
    /// The price stays at `start_price`.
    Fixed,
    /// The price falls linearly from `start_price` to `min_price` over
    /// `duration` seconds starting at `start_ts`.
    LinearDecay,
    /// Reserved; behaves as `Fixed` for now.
    Exponential,
}

/// The pricing terms of a listing. All amounts are unsigned fixed-point
/// values in the ledger's native unit; timestamps are in seconds.
#[derive(Clone, Copy, PartialEq, Eq, Debug)]
pub struct PriceConfig {
    pub price_type: PriceType,
    pub start_price: u64,
    pub min_price: u64,
    pub start_ts: i64,
    pub duration: i64,
}

impl PriceConfig {
    /// The invariant `create_listing` establishes: the price starts at or
    /// above a positive floor, and decaying types have a positive duration.
    pub open spec fn wf(self) -> bool {
        &&& self.start_price >= self.min_price
        &&& self.min_price > 0
        &&& !(self.price_type is Fixed) ==> self.duration > 0
    }
}

/// Optional sale conditions: a floor threshold (recorded but enforced only
/// through the attestation force-cancel path) and an inclusive validity
/// window.
#[derive(Clone, Copy, PartialEq, Eq, Debug)]
pub struct ListingConditions {
    pub min_floor: Option<u64>,
    pub valid_from: Option<i64>,
    pub valid_until: Option<i64>,
}

impl ListingConditions {
    /// If both window bounds are given, the window is non-empty.
    pub open spec fn wf(self) -> bool {
        self.valid_from is Some && self.valid_until is Some
            ==> self.valid_from->0 < self.valid_until->0
    }
}

/// A user-owned custody record: the owner keeps the asset in a sub-account
/// of their own while it is listed. Identities and account references are
/// the ledger's opaque addresses, modeled as plain integers.
#[derive(Clone, Copy, PartialEq, Eq, Debug)]
pub struct UserVault {
    pub owner: u64,
    pub mint: u64,
    pub vault_ata: u64,
    pub bump: u8,
}

/// A listing references a vault instead of holding the asset itself; it
/// carries the sale terms and the state-machine state.
#[derive(Clone, Copy, PartialEq, Eq, Debug)]
pub struct Listing {
    pub seller: u64,
    pub mint: u64,
    pub user_vault: u64,
    pub price_config: PriceConfig,
    pub conditions: ListingConditions,
    pub state: u8,
    pub bump: u8,
}

impl Listing {
    pub open spec fn wf(self) -> bool {
        &&& self.price_config.wf()
        &&& self.conditions.wf()
        &&& self.state == STATE_ACTIVE || self.state == STATE_CANCELLED || self.state == STATE_SOLD
    }
}

/// The marketplace singleton: who administers it, the fee rate in basis
/// points, and who receives the fee.
#[derive(Clone, Copy, PartialEq, Eq, Debug)]
pub struct Config {
    pub authority: u64,
    pub fee_bps: u16,
    pub fee_recipient: u64,
}

/// The marketplace fee rate is capped at 10%.
pub const MAX_FEE_BPS: u16 = 1000;

impl Config {
    pub open spec fn wf(self) -> bool {
        self.fee_bps <= MAX_FEE_BPS
    }
}

/// A one-time-use, time-bounded claim by a trusted attestor that the market
/// floor for a collection stands at `floor`.
#[derive(Clone, Copy, PartialEq, Eq, Debug)]
pub struct Attestation {
    pub attestor: u64,
    pub collection: u64,
    pub floor: u64,
    pub ts: i64,
    pub nonce: u64,
    pub used: bool,
}

/// Per-attestor issuance counter; `last_nonce` is the nonce the next
/// attestation will carry.
#[derive(Clone, Copy, PartialEq, Eq, Debug)]
pub struct AttestorState {
    pub attestor: u64,
    pub last_nonce: u64,
}

/// What the engine reads of an asset's mint: its address, decimal places,
/// and total supply. A unique asset has 0 decimals and supply 1.
#[derive(Clone, Copy, PartialEq, Eq, Debug)]
pub struct MintInfo {
    pub id: u64,
    pub decimals: u8,
    pub supply: u64,
}

/// What the engine reads of a token sub-account: its address, owner, the
/// asset it is for, and how many units it holds.
#[derive(Clone, Copy, PartialEq, Eq, Debug)]
pub struct TokenAccountInfo {
    pub id: u64,
    pub owner: u64,
    pub mint: u64,
    pub amount: u64,
}

/// One call the engine asks the external ledger environment to perform.
/// The environment commits an operation's record writes and its ledger
/// operations atomically, or nothing at all.
#[derive(Clone, Copy, PartialEq, Eq, Debug)]
pub enum LedgerOp {
    /// Move `amount` of the native unit between identities.
    Payment { from: u64, to: u64, amount: u64 },
    /// Move `amount` units of the listed asset between token sub-accounts.
    AssetTransfer { from_account: u64, to_account: u64, amount: u64 },
    /// Release a token sub-account and refund its backing deposit.
    CloseTokenAccount { account: u64, deposit_to: u64 },
}

/// The current sale price as a mathematical function of the configuration
/// and the time. Mirrors the saturating evaluation: a start price below the
/// floor cannot arise from a validated listing, but the function is total
/// and clamps such inputs rather than wrapping.
pub open spec fn spec_price(config: PriceConfig, now: int) -> int {
    match config.price_type {
        PriceType::Fixed => config.start_price as int,
        PriceType::Exponential => config.start_price as int,
        PriceType::LinearDecay => {
            if now <= config.start_ts {
                config.start_price as int
            } else if now - config.start_ts >= config.duration {
                config.min_price as int
            } else {
                let elapsed = now - config.start_ts;
                let diff = if config.start_price >= config.min_price {
                    config.start_price - config.min_price
                } else {
                    0
                };
                let dropped = diff * elapsed / (config.duration as int);
                let decayed = if config.start_price >= dropped {
                    config.start_price - dropped
                } else {
                    0
                };
                if decayed >= config.min_price {
                    decayed
                } else {
                    config.min_price as int
                }
            }
        }
    }
}

/// In the strict interior of a linear decay the drop is between 0 and the
/// start-to-floor gap, so the decayed price stays inside the band.
proof fn lemma_dropped_bounds(config: PriceConfig, now: int)
    requires
        config.start_price >= config.min_price,
        config.price_type is LinearDecay,
        config.start_ts < now,
        now - config.start_ts < config.duration,
    ensures
        config.min_price <= spec_price(config, now) <= config.start_price,
{
    let elapsed = now - config.start_ts;
    let diff = config.start_price - config.min_price;
    let duration = config.duration as int;
    let dropped = diff * elapsed / duration;
    lemma_div_pos_is_pos(diff * elapsed, duration);
    assert(diff * elapsed >= 0) by {
        lemma_mul_inequality(0, diff, elapsed);
        lemma_mul_is_commutative(diff, elapsed);
    }
    assert(dropped <= diff) by {
        lemma_mul_inequality(elapsed, duration, diff);
        lemma_mul_is_commutative(elapsed, diff);
        lemma_mul_is_commutative(duration, diff);
        lemma_multiply_divide_le(diff * elapsed, duration, diff);
    }
}

/// The price of a well-formed configuration never leaves
/// `[min_price, start_price]`, at any time and for any price type.
pub proof fn lemma_price_bounds(config: PriceConfig, now: int)
    requires
        config.wf(),
    ensures
        config.min_price <= spec_price(config, now) <= config.start_price,
{
    if config.price_type is LinearDecay && config.start_ts < now
        && now - config.start_ts < config.duration {
        lemma_dropped_bounds(config, now);
    }
}

/// Before the decay window the price is the start price; at or past its end
/// it is the floor.
pub proof fn lemma_price_endpoints(config: PriceConfig, now: int)
    requires
        config.wf(),
        config.price_type is LinearDecay,
    ensures
        now <= config.start_ts ==> spec_price(config, now) == config.start_price,
        now >= config.start_ts + config.duration ==> spec_price(config, now) == config.min_price,
{
}

/// A linearly decaying price never rises as time advances.
pub proof fn lemma_price_monotonic(config: PriceConfig, t1: int, t2: int)
    requires
        config.wf(),
        config.price_type is LinearDecay,
        t1 <= t2,
    ensures
        spec_price(config, t2) <= spec_price(config, t1),
{
    lemma_price_bounds(config, t1);
    lemma_price_bounds(config, t2);
    if config.start_ts < t1 && t1 - config.start_ts < config.duration
        && config.start_ts < t2 && t2 - config.start_ts < config.duration {
        let e1 = t1 - config.start_ts;
        let e2 = t2 - config.start_ts;
        let diff = config.start_price - config.min_price;
        let duration = config.duration as int;
        assert(diff * e1 <= diff * e2) by {
            lemma_mul_inequality(e1, e2, diff);
            lemma_mul_is_commutative(e1, diff);
            lemma_mul_is_commutative(e2, diff);
        }
        lemma_div_is_ordered(diff * e1, diff * e2, duration);
        lemma_dropped_bounds(config, t1);
        lemma_dropped_bounds(config, t2);
    }
}

/// Current sale price for a configuration at a given time. Pure and
/// deterministic; both the purchase path and any off-chain simulation get
/// the same value.
pub fn calculate_price(config: &PriceConfig, current_ts: i64) -> (price: u64)
    ensures
        price as int == spec_price(*config, current_ts as int),
{
    match config.price_type {
        PriceType::Fixed => config.start_price,
        PriceType::LinearDecay => {
            if current_ts <= config.start_ts {
                return config.start_price;
            }
            let elapsed: i128 = current_ts as i128 - config.start_ts as i128;
            if elapsed >= config.duration as i128 {
                return config.min_price;
            }
            let diff: u64 = if config.start_price >= config.min_price {
                config.start_price - config.min_price
            } else {
                0
            };
            proof {
                lemma_mul_upper_bound(diff as int, u64::MAX as int, elapsed as int, i64::MAX as int);
            }
            let dropped_wide: u128 = (diff as u128) * (elapsed as u128) / (config.duration as u128);
            proof {
                assert(diff as int * elapsed as int <= config.duration as int * diff as int) by {
                    lemma_mul_inequality(elapsed as int, config.duration as int, diff as int);
                    lemma_mul_is_commutative(elapsed as int, diff as int);
                    lemma_mul_is_commutative(config.duration as int, diff as int);
                }
                lemma_multiply_divide_le(
                    diff as int * elapsed as int,
                    config.duration as int,
                    diff as int,
                );
            }
            let dropped: u64 = dropped_wide as u64;
            let decayed: u64 = if config.start_price >= dropped {
                config.start_price - dropped
            } else {
                0
            };
            if decayed >= config.min_price {
                decayed
            } else {
                config.min_price
            }
        }
        PriceType::Exponential => config.start_price,
    }
}

/// The first condition a purchase at time `now` violates, or `None` when
/// the conditions allow it. The window bounds are inclusive; a floor
/// threshold is not checked here, its enforcement is delegated to the
/// attestation force-cancel path.
pub open spec fn conditions_error(conditions: ListingConditions, now: int) -> Option<VerityError> {
    if conditions.valid_from is Some && now < conditions.valid_from->0 {
        Some(VerityError::ListingNotYetValid)
    } else if conditions.valid_until is Some && now > conditions.valid_until->0 {
        Some(VerityError::ListingExpired)
    } else {
        None
    }
}

/// Check a listing's sale conditions against the current time. The floor
/// hint is accepted for interface stability but not consulted: floor
/// enforcement happens only through the attestation force-cancel path.
pub fn validate_conditions(
    conditions: &ListingConditions,
    current_ts: i64,
    _floor_hint: Option<u64>,
) -> (r: Result<(), VerityError>)
    ensures
        r is Ok <==> conditions_error(*conditions, current_ts as int) is None,
        r is Err ==> conditions_error(*conditions, current_ts as int) == Some(r->Err_0),
{
    if let Some(valid_from) = conditions.valid_from {
        if current_ts < valid_from {
            return Err(VerityError::ListingNotYetValid);
        }
    }
    if let Some(valid_until) = conditions.valid_until {
        if current_ts > valid_until {
            return Err(VerityError::ListingExpired);
        }
    }
    Ok(())
}

} // verus!
