use verity::state::{calculate_price, PriceConfig, PriceType};
use verity::instructions::buy_now::compute_payment_split;

fn decay_config(start_price: u64, min_price: u64, start_ts: i64, duration: i64) -> PriceConfig {
    PriceConfig { price_type: PriceType::LinearDecay, start_price, min_price, start_ts, duration }
}

#[test]
fn fixed_price_ignores_time() {
    let cfg = PriceConfig {
        price_type: PriceType::Fixed,
        start_price: 750,
        min_price: 100,
        start_ts: 0,
        duration: 0,
    };
    assert_eq!(calculate_price(&cfg, -50), 750);
    assert_eq!(calculate_price(&cfg, 0), 750);
    assert_eq!(calculate_price(&cfg, 1_000_000), 750);
}

#[test]
fn exponential_stub_behaves_as_fixed() {
    let cfg = PriceConfig {
        price_type: PriceType::Exponential,
        start_price: 900,
        min_price: 300,
        start_ts: 0,
        duration: 60,
    };
    assert_eq!(calculate_price(&cfg, 0), 900);
    assert_eq!(calculate_price(&cfg, 30), 900);
    assert_eq!(calculate_price(&cfg, 10_000), 900);
}

#[test]
fn linear_decay_midpoint_scenario() {
    // start 1000, floor 200, half the window elapsed: 1000 - 800 * 50 / 100
    let cfg = decay_config(1000, 200, 0, 100);
    assert_eq!(calculate_price(&cfg, 50), 600);
}

#[test]
fn linear_decay_endpoints() {
    let cfg = decay_config(1000, 200, 100, 400);
    assert_eq!(calculate_price(&cfg, 99), 1000);
    assert_eq!(calculate_price(&cfg, 100), 1000);
    assert_eq!(calculate_price(&cfg, 500), 200);
    assert_eq!(calculate_price(&cfg, 501), 200);
    assert_eq!(calculate_price(&cfg, i64::MAX), 200);
}

#[test]
fn linear_decay_is_non_increasing_and_bounded() {
    let cfg = decay_config(1_000_000, 333, -17, 9999);
    let mut last = calculate_price(&cfg, i64::MIN);
    for t in -40..10_100i64 {
        let p = calculate_price(&cfg, t);
        assert!(p <= last, "price rose between {} and {}", t - 1, t);
        assert!((333..=1_000_000).contains(&p));
        last = p;
    }
    assert_eq!(calculate_price(&cfg, -17), 1_000_000);
    assert_eq!(calculate_price(&cfg, -17 + 9999), 333);
}

#[test]
fn linear_decay_rounds_down() {
    // 1000 - 700 * 1 / 3 = 1000 - 233 (rounded down)
    let cfg = decay_config(1000, 300, 0, 3);
    assert_eq!(calculate_price(&cfg, 1), 767);
    assert_eq!(calculate_price(&cfg, 2), 534);
}

#[test]
fn linear_decay_large_values_no_overflow() {
    let cfg = decay_config(u64::MAX, 1, 0, i64::MAX);
    let mid = calculate_price(&cfg, i64::MAX / 2);
    assert!((1..=u64::MAX).contains(&mid));
    assert_eq!(calculate_price(&cfg, i64::MAX), 1);
    // an extreme start far in the past still clamps to the floor
    let cfg2 = decay_config(5000, 400, i64::MIN, 10);
    assert_eq!(calculate_price(&cfg2, i64::MAX), 400);
}

#[test]
fn split_scenario_600_at_250_bps() {
    let s = compute_payment_split(600, 250);
    assert_eq!(s.marketplace_fee, 15);
    assert_eq!(s.royalty, 30);
    assert_eq!(s.seller_amount, 555);
    assert_eq!(s.marketplace_fee + s.royalty + s.seller_amount, 600);
}

#[test]
fn split_always_conserves_price() {
    for price in [0u64, 1, 7, 99, 10_000, 123_456_789, u64::MAX] {
        for fee_bps in [0u16, 1, 250, 999, 1000] {
            let s = compute_payment_split(price, fee_bps);
            assert_eq!(
                s.marketplace_fee as u128 + s.royalty as u128 + s.seller_amount as u128,
                price as u128,
            );
        }
    }
}

#[test]
fn split_shares_round_down_never_up() {
    let s = compute_payment_split(999, 1000);
    // 999 * 1000 / 10000 = 99.9 -> 99; 999 * 500 / 10000 = 49.95 -> 49
    assert_eq!(s.marketplace_fee, 99);
    assert_eq!(s.royalty, 49);
    assert_eq!(s.seller_amount, 851);
}

#[test]
fn split_of_zero_price_is_all_zero() {
    let s = compute_payment_split(0, 1000);
    assert_eq!((s.marketplace_fee, s.royalty, s.seller_amount), (0, 0, 0));
}
