use hyperdrive_amm::decimal::Decimal;
use hyperdrive_amm::error::PoolError;
use hyperdrive_amm::liquidity::{
    add_liquidity, calculate_idle_liquidity, distribute_excess_idle_liquidity,
    redeem_withdrawal_shares, remove_liquidity, update_share_price_from_yield_source,
    LiquidityRemoved, Redemption,
};
use hyperdrive_amm::types::{Checkpoint, ResourceAddress};
use std::collections::HashMap;

fn dec(s: &str) -> Decimal {
    let digits = scrypto::math::Decimal::try_from(s).unwrap().attos().to_digits();
    Decimal { lo: digits[0], mid: digits[1], hi: digits[2] as i64 }
}

fn largest() -> Decimal {
    Decimal { lo: u64::MAX, mid: u64::MAX, hi: i64::MAX }
}

fn address(tag: u8) -> ResourceAddress {
    let mut bytes = [0u8; 30];
    bytes[0] = 93;
    bytes[29] = tag;
    ResourceAddress { bytes }
}

const WEEK: u64 = 604800;
const YIELD_SOURCE: u8 = 1;
const LP_SHARES: u8 = 4;
const WITHDRAWAL_SHARES: u8 = 5;

fn checkpoint(start_time: u64, longs: &str, shorts: &str) -> Checkpoint {
    Checkpoint {
        long_positions: dec(longs),
        short_positions: dec(shorts),
        ..Checkpoint::minted(start_time, dec("1"))
    }
}

/// A ledger whose solvency requirement over four weeks from week ten is 600.
fn ledger() -> HashMap<u64, Checkpoint> {
    let mut checkpoints = HashMap::new();
    checkpoints.insert(10 * WEEK, checkpoint(10 * WEEK, "1000", "400"));
    checkpoints.insert(9 * WEEK, checkpoint(9 * WEEK, "100", "400"));
    checkpoints
}

fn add(z: &mut Decimal, resource: u8, base: &str, supply: &str) -> Result<Decimal, PoolError> {
    add_liquidity(
        address(resource),
        dec(base),
        z,
        dec("95000"),
        dec("1.05"),
        dec(supply),
        address(YIELD_SOURCE),
    )
}

fn remove(
    z: &mut Decimal,
    resource: u8,
    lp_amount: &str,
    checkpoints: &HashMap<u64, Checkpoint>,
    checkpoint_duration: u64,
) -> Result<LiquidityRemoved, PoolError> {
    remove_liquidity(
        address(resource),
        dec(lp_amount),
        z,
        dec("95000"),
        dec("1.05"),
        dec("90000"),
        dec("1000"),
        checkpoints,
        10 * WEEK,
        checkpoint_duration,
        4 * WEEK,
        address(LP_SHARES),
    )
}

fn idle(
    z: &str,
    c: &str,
    floor: &str,
    checkpoints: &HashMap<u64,
    Checkpoint>,
) -> Result<Decimal, PoolError> {
    calculate_idle_liquidity(dec(z), dec(c), dec(floor), checkpoints, 10 * WEEK, WEEK, 4 * WEEK)
}

#[test]
fn first_liquidity_mints_one_share_per_share() {
    let mut z = dec("100000");
    assert_eq!(add(&mut z, YIELD_SOURCE, "1050", "0"), Ok(dec("1000")));
    assert_eq!(z, dec("101000"));
}

#[test]
fn later_liquidity_mints_by_present_value() {
    let mut z = dec("100000");
    assert_eq!(add(&mut z, YIELD_SOURCE, "1050", "90000"), Ok(dec("472.500000000000000047")));
    assert_eq!(z, dec("101000"));
}

#[test]
fn add_liquidity_refuses_bad_input() {
    let mut z = dec("100000");
    assert_eq!(add(&mut z, LP_SHARES, "1050", "0"), Err(PoolError::ResourceMismatch));
    assert_eq!(
        add(&mut z, YIELD_SOURCE, "0.999999999999999999", "0"),
        Err(PoolError::InvalidParameter),
    );
    assert_eq!(add(&mut z, YIELD_SOURCE, "1", "0"), Ok(dec("0.952380952380952380")));
    assert_eq!(z, dec("100000.95238095238095238"));
    let mut full = largest();
    assert_eq!(add(&mut full, YIELD_SOURCE, "1050", "0"), Err(PoolError::ArithmeticOverflow));
    assert_eq!(full, largest());
    let mut z = dec("100000");
    let unpriced = add_liquidity(
        address(YIELD_SOURCE),
        dec("1050"),
        &mut z,
        dec("95000"),
        dec("0"),
        dec("0"),
        address(YIELD_SOURCE),
    );
    assert_eq!(unpriced, Err(PoolError::ArithmeticOverflow));
    assert_eq!(z, dec("100000"));
}

#[test]
fn removal_that_the_pool_can_pay_is_paid_at_once() {
    let mut z = dec("100000");
    assert_eq!(
        remove(&mut z, LP_SHARES, "1000", &ledger(), WEEK),
        Ok(LiquidityRemoved {
            base_amount: dec("2222.222222222222222"),
            withdrawal_shares: dec("0"),
        })
    );
    assert_eq!(z, dec("97883.597883597883598096"));
}

#[test]
fn removal_beyond_what_is_free_is_owed_as_withdrawal_shares() {
    let mut z = dec("100000");
    assert_eq!(
        remove(&mut z, LP_SHARES, "50000", &ledger(), WEEK),
        Ok(LiquidityRemoved {
            base_amount: dec("103350"),
            withdrawal_shares: dec("7761.1111111111111"),
        })
    );
    assert_eq!(z, dec("1571.428571428571428572"));
    let floor_and_solvency = dec("1000").checked_add(dec("600").checked_div(dec("1.05")).unwrap());
    assert!(z.ge(floor_and_solvency.unwrap()));
}

#[test]
fn removal_from_a_pool_with_nothing_free_pays_nothing() {
    let mut checkpoints = ledger();
    checkpoints.insert(8 * WEEK, checkpoint(8 * WEEK, "199400", "0"));
    let mut z = dec("100000");
    assert_eq!(
        remove(&mut z, LP_SHARES, "1000", &checkpoints, WEEK),
        Ok(LiquidityRemoved {
            base_amount: dec("0"),
            withdrawal_shares: dec("2222.222222222222222"),
        })
    );
    assert_eq!(z, dec("100000"));
}

#[test]
fn remove_liquidity_refuses_bad_input() {
    let mut z = dec("100000");
    assert_eq!(
        remove(&mut z, YIELD_SOURCE, "1000", &ledger(), WEEK),
        Err(PoolError::ResourceMismatch),
    );
    assert_eq!(remove(&mut z, LP_SHARES, "0", &ledger(), WEEK), Err(PoolError::InvalidParameter));
    assert_eq!(remove(&mut z, LP_SHARES, "-1", &ledger(), WEEK), Err(PoolError::InvalidParameter));
    assert_eq!(remove(&mut z, LP_SHARES, "1000", &ledger(), 0), Err(PoolError::InvalidParameter));
    assert_eq!(
        remove(&mut z, LP_SHARES, "90000.000000000000000001", &ledger(), WEEK),
        Err(PoolError::InsufficientBalance)
    );
    let mut checkpoints = ledger();
    checkpoints.insert(8 * WEEK, checkpoint(8 * WEEK, "0", "0"));
    checkpoints.get_mut(&(8 * WEEK)).unwrap().long_positions = largest();
    assert_eq!(
        remove(&mut z, LP_SHARES, "1000", &checkpoints, WEEK),
        Err(PoolError::ArithmeticOverflow),
    );
    assert_eq!(z, dec("100000"));
}

#[test]
fn idle_liquidity_is_what_exceeds_solvency_and_floor() {
    assert_eq!(idle("100000", "1.05", "1000", &ledger()), Ok(dec("99000")));
    assert_eq!(idle("100000", "1.05", "99900", &ledger()), Ok(dec("100")));
    assert_eq!(idle("100000", "1.05", "0", &ledger()), Ok(dec("99428.571428571428571429")));
    assert_eq!(idle("100000", "0.5", "1000", &ledger()), Ok(dec("98800")));
    assert_eq!(idle("100000", "1", "0", &ledger()), Ok(dec("99400")));
    assert_eq!(idle("100000", "1", "0", &HashMap::new()), Ok(dec("100000")));
    assert_eq!(idle("500", "1", "0", &ledger()), Ok(dec("0")));
}

#[test]
fn idle_liquidity_stays_within_the_reserves_above_the_floor() {
    let within = |z: &str, c: &str, floor: &str, checkpoints: &HashMap<u64, Checkpoint>| {
        let above_floor = dec(z).checked_sub(dec(floor)).unwrap();
        idle(z, c, floor, checkpoints).unwrap().le(above_floor)
    };
    assert!(within("100000", "1.05", "99900", &ledger()));
    assert!(within("100000", "1.05", "1000", &ledger()));
    assert!(within("100000", "0.5", "1000", &ledger()));
    assert!(within("100000", "2", "1000", &ledger()));
    assert!(within("100", "1.5", "110", &HashMap::new()));
    assert!(within("500", "1", "0", &ledger()));
}

#[test]
fn idle_liquidity_is_counted_in_shares_whatever_the_share_price() {
    assert_eq!(idle("10000", "2", "1000", &HashMap::new()), Ok(dec("9000")));
    assert_eq!(idle("10000", "0.5", "1000", &HashMap::new()), Ok(dec("9000")));
    assert_eq!(idle("100", "2", "0", &HashMap::new()), Ok(dec("100")));
    assert_eq!(idle("100", "0.5", "110", &HashMap::new()), Ok(dec("-10")));
}

#[test]
fn idle_liquidity_refuses_bad_input() {
    assert_eq!(
        calculate_idle_liquidity(dec("100"), dec("1"), dec("0"), &ledger(), 10 * WEEK, 0, 4 * WEEK),
        Err(PoolError::InvalidParameter)
    );
    assert_eq!(idle("100", "0", "0", &ledger()), Err(PoolError::ArithmeticOverflow));
}

fn sweep(
    reserves: &mut (Decimal, Decimal, Decimal),
    withdrawal_shares: &str,
    floor: &str,
    checkpoint_duration: u64,
) -> Result<(Decimal, Decimal), PoolError> {
    distribute_excess_idle_liquidity(
        &mut reserves.0,
        &mut reserves.1,
        &mut reserves.2,
        dec("1.05"),
        dec(withdrawal_shares),
        dec("90000"),
        dec(floor),
        &ledger(),
        10 * WEEK,
        checkpoint_duration,
        4 * WEEK,
    )
}

fn reserves() -> (Decimal, Decimal, Decimal) {
    (dec("100000"), dec("95000"), dec("500"))
}

#[test]
fn sweep_makes_covered_withdrawal_shares_ready() {
    let mut pool = reserves();
    assert_eq!(sweep(&mut pool, "40000", "99000", WEEK), Ok((dec("1050"), dec("40000"))));
    assert_eq!(pool, (dec("99000"), dec("94050"), dec("495")));
}

#[test]
fn sweep_covers_part_of_the_withdrawal_shares() {
    let mut pool = reserves();
    assert_eq!(
        sweep(&mut pool, "40000", "99999", WEEK),
        Ok((dec("1.05"), dec("18000.0000000000000018")))
    );
    assert_eq!(pool, (dec("99999"), dec("94999.05"), dec("499.995")));
}

#[test]
fn sweep_takes_all_the_idle_liquidity() {
    let mut pool = reserves();
    assert_eq!(sweep(&mut pool, "100", "1000", WEEK), Ok((dec("103950"), dec("100"))));
    assert_eq!(pool, (dec("1000"), dec("950"), dec("5")));
}

#[test]
fn sweep_does_nothing_without_claims_or_idle_liquidity() {
    let mut pool = reserves();
    assert_eq!(sweep(&mut pool, "0", "1000", WEEK), Ok((dec("0"), dec("0"))));
    assert_eq!(sweep(&mut pool, "-5", "1000", WEEK), Ok((dec("0"), dec("0"))));
    assert_eq!(sweep(&mut pool, "100", "100000", WEEK), Ok((dec("0"), dec("0"))));
    assert_eq!(sweep(&mut pool, "100", "100001", WEEK), Ok((dec("0"), dec("0"))));
    assert_eq!(pool, reserves());
}

#[test]
fn sweep_refuses_bad_input() {
    let mut pool = reserves();
    assert_eq!(sweep(&mut pool, "100", "1000", 0), Err(PoolError::InvalidParameter));
    pool.1 = largest();
    assert_eq!(sweep(&mut pool, "100", "1000", WEEK), Err(PoolError::ArithmeticOverflow));
    assert_eq!(pool, (dec("100000"), largest(), dec("500")));
}

#[test]
fn redemption_is_capped_by_the_ready_shares() {
    let redeem = |resource: u8, amount: &str, ready: &str| {
        redeem_withdrawal_shares(
            address(resource),
            dec(amount),
            dec(ready),
            dec("1.05"),
            address(WITHDRAWAL_SHARES),
        )
    };
    assert_eq!(
        redeem(WITHDRAWAL_SHARES, "300", "1000"),
        Ok(Redemption { redeemed: dec("300"), base_amount: dec("315") })
    );
    assert_eq!(
        redeem(WITHDRAWAL_SHARES, "3000", "300"),
        Ok(Redemption { redeemed: dec("300"), base_amount: dec("315") })
    );
    assert_eq!(redeem(WITHDRAWAL_SHARES, "300", "0"), Err(PoolError::InsufficientBalance));
    assert_eq!(redeem(WITHDRAWAL_SHARES, "300", "-1"), Err(PoolError::InsufficientBalance));
    assert_eq!(redeem(LP_SHARES, "300", "1000"), Err(PoolError::ResourceMismatch));
    assert_eq!(
        redeem_withdrawal_shares(
            address(WITHDRAWAL_SHARES),
            largest(),
            largest(),
            dec("1.05"),
            address(WITHDRAWAL_SHARES),
        ),
        Err(PoolError::ArithmeticOverflow)
    );
}

#[test]
fn share_price_must_be_positive() {
    let mut price = dec("1");
    assert_eq!(update_share_price_from_yield_source(dec("1.07"), &mut price), Ok(()));
    assert_eq!(price, dec("1.07"));
    assert_eq!(
        update_share_price_from_yield_source(dec("0"), &mut price),
        Err(PoolError::InvalidParameter)
    );
    assert_eq!(
        update_share_price_from_yield_source(dec("-1"), &mut price),
        Err(PoolError::InvalidParameter)
    );
    assert_eq!(price, dec("1.07"));
}
