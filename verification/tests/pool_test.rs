use hyperdrive_amm::decimal::Decimal;
use hyperdrive_amm::dex::PositionClosed;
use hyperdrive_amm::error::PoolError;
use hyperdrive_amm::influxpool::{HyperdrivePool, PoolResources};
use hyperdrive_amm::liquidity::{withdraw_governance_fees, LiquidityRemoved};
use hyperdrive_amm::types::{Checkpoint, LongPosition, ResourceAddress, ShortPosition};

fn dec(s: &str) -> Decimal {
    let digits = scrypto::math::Decimal::try_from(s).unwrap().attos().to_digits();
    Decimal { lo: digits[0], mid: digits[1], hi: digits[2] as i64 }
}

fn largest() -> Decimal {
    Decimal { lo: u64::MAX, mid: u64::MAX, hi: i64::MAX }
}

fn address(tag: u8) -> ResourceAddress {
    let mut bytes = [0u8; 30];
    bytes[0] = 93;
    bytes[29] = tag;
    ResourceAddress { bytes }
}

const WEEK: u64 = 604800;
const DAY: u64 = 86400;
const YIELD_SOURCE: u8 = 1;
const ADMIN: u8 = 9;

fn resources() -> PoolResources {
    PoolResources {
        bond: address(10),
        active_lp_shares: address(11),
        withdrawal_shares: address(12),
        ready_withdrawal_shares: address(13),
        long_positions: address(14),
        short_positions: address(15),
    }
}

fn create(
    pool: &mut HyperdrivePool,
    checkpoint_duration: u64,
    position_duration: u64,
    fee: &str,
    floor: &str,
    resource: u8,
    amount: &str,
) -> Result<Decimal, PoolError> {
    pool.create_pool(
        checkpoint_duration,
        position_duration,
        dec(fee),
        dec("0.005"),
        dec("0.1"),
        dec("0.1"),
        dec(floor),
        address(resource),
        dec(amount),
        resources(),
        1000000,
    )
}

fn created() -> HyperdrivePool {
    let mut pool = HyperdrivePool::instantiate_dex(address(YIELD_SOURCE), address(ADMIN));
    create(&mut pool, WEEK, 52 * WEEK, "0.01", "1000", YIELD_SOURCE, "101000").unwrap();
    pool
}

fn long_position() -> LongPosition {
    LongPosition {
        face_value: dec("100"),
        checkpoint: WEEK,
        open_time: 1000000,
        maturity_time: 53 * WEEK,
    }
}

fn short_position() -> ShortPosition {
    ShortPosition {
        face_value: dec("100"),
        checkpoint: WEEK,
        open_time: 1000000,
        maturity_time: 53 * WEEK,
        initial_share_price: dec("1"),
    }
}

#[test]
fn a_new_component_holds_no_pool() {
    let pool = HyperdrivePool::instantiate_dex(address(YIELD_SOURCE), address(ADMIN));
    assert_eq!(pool.yield_source, address(YIELD_SOURCE));
    assert_eq!(pool.admin_badge, address(ADMIN));
    assert_eq!(pool.get_pool_count(), 0);
    assert_eq!(pool.pool_id, 0);
    assert!(!pool.is_initialized);
    assert_eq!(pool.share_reserves, dec("0"));
    assert_eq!(pool.bond_reserves, dec("0"));
    assert_eq!(pool.zeta_adjustment, dec("0"));
    assert_eq!(pool.share_price, dec("1"));
    assert!(pool.checkpoints.is_empty());
    assert_eq!(pool.checkpoint_duration, 0);
    assert_eq!(pool.position_duration, 0);
    assert_eq!(pool.current_checkpoint, 0);
    assert_eq!(pool.new_bond_fee, dec("0"));
    assert_eq!(pool.min_share_reserves, dec("0"));
    assert_eq!(pool.bond_resource_address, None);
    assert_eq!(pool.long_positions_resource, None);
    assert_eq!(pool.short_positions_resource, None);
}

#[test]
fn operations_wait_for_the_pool() {
    let mut pool = HyperdrivePool::instantiate_dex(address(YIELD_SOURCE), address(ADMIN));
    let none = Err(PoolError::NotInitialized);
    assert_eq!(pool.open_long(address(YIELD_SOURCE), dec("1000"), 5).map(|_| ()), none);
    assert_eq!(pool.close_long(address(14), dec("1"), long_position(), 5).map(|_| ()), none);
    assert_eq!(
        pool.open_short(address(YIELD_SOURCE), dec("1000"), dec("100"), 5).map(|_| ()),
        none,
    );
    assert_eq!(pool.close_short(address(15), dec("1"), short_position(), 5).map(|_| ()), none);
    assert_eq!(pool.add_liquidity(address(YIELD_SOURCE), dec("1000"), dec("0")).map(|_| ()), none);
    assert_eq!(pool.remove_liquidity(address(11), dec("1000"), dec("1000")).map(|_| ()), none);
    assert_eq!(pool.get_pool_state(dec("0"), dec("0"), dec("0")).map(|_| ()), none);
    assert_eq!(pool.effective_share_reserves().map(|_| ()), none);
    assert_eq!(pool.get_spot_rate().map(|_| ()), none);
    assert_eq!(pool.update_share_price(dec("1.1")), none);
    assert_eq!(pool.withdraw_governance_fees(address(ADMIN), dec("7")).map(|_| ()), none);
    assert!(!pool.is_initialized);
    assert_eq!(pool.share_price, dec("1"));
    assert!(pool.checkpoints.is_empty());
}

#[test]
fn create_pool_sets_the_pool_up() {
    let mut pool = HyperdrivePool::instantiate_dex(address(YIELD_SOURCE), address(ADMIN));
    assert_eq!(
        create(&mut pool, WEEK, 52 * WEEK, "0.01", "1000", YIELD_SOURCE, "101000"),
        Ok(dec("100000")),
    );
    assert!(pool.is_initialized);
    assert_eq!(pool.get_pool_count(), 1);
    assert_eq!(pool.pool_id, 1);
    assert_eq!(pool.share_reserves, dec("100000"));
    assert_eq!(pool.bond_reserves, dec("0"));
    assert_eq!(pool.zeta_adjustment, dec("0"));
    assert_eq!(pool.share_price, dec("1"));
    assert_eq!(pool.checkpoint_duration, WEEK);
    assert_eq!(pool.position_duration, 52 * WEEK);
    assert_eq!(pool.new_bond_fee, dec("0.01"));
    assert_eq!(pool.matured_bond_fee, dec("0.005"));
    assert_eq!(pool.governance_fee, dec("0.1"));
    assert_eq!(pool.zombie_governance_fee, dec("0.1"));
    assert_eq!(pool.min_share_reserves, dec("1000"));
    assert_eq!(pool.current_checkpoint, WEEK);
    assert_eq!(pool.checkpoints.len(), 1);
    assert_eq!(pool.checkpoints[&WEEK], Checkpoint::minted(WEEK, dec("1")));
    assert_eq!(pool.bond_resource_address, Some(address(10)));
    assert_eq!(pool.active_lp_shares_address, Some(address(11)));
    assert_eq!(pool.withdrawal_shares_address, Some(address(12)));
    assert_eq!(pool.ready_withdrawal_shares_address, Some(address(13)));
    assert_eq!(pool.long_positions_resource, Some(address(14)));
    assert_eq!(pool.short_positions_resource, Some(address(15)));
    assert_eq!(pool.yield_source, address(YIELD_SOURCE));
    assert_eq!(pool.admin_badge, address(ADMIN));
}

#[test]
fn create_pool_durations_example() {
    let mut pool = HyperdrivePool::instantiate_dex(address(YIELD_SOURCE), address(ADMIN));
    assert_eq!(
        create(&mut pool, 604800, 31536001, "0.01", "1000", YIELD_SOURCE, "101000"),
        Err(PoolError::InvalidParameter)
    );
    assert_eq!(
        create(&mut pool, 604800, 31536000, "0.01", "1000", YIELD_SOURCE, "101000"),
        Err(PoolError::InvalidParameter)
    );
    assert!(!pool.is_initialized);
    assert_eq!(pool.get_pool_count(), 0);
    assert_eq!(
        create(&mut pool, DAY, 31536000, "0.01", "1000", YIELD_SOURCE, "101000"),
        Ok(dec("100000")),
    );
    assert_eq!(pool.position_duration / pool.checkpoint_duration, 365);
    let mut weekly = HyperdrivePool::instantiate_dex(address(YIELD_SOURCE), address(ADMIN));
    assert_eq!(
        create(&mut weekly, 604800, 31449600, "0.01", "1000", YIELD_SOURCE, "101000"),
        Ok(dec("100000"))
    );
    assert_eq!(weekly.position_duration / weekly.checkpoint_duration, 52);
}

#[test]
fn create_pool_refuses_bad_input() {
    let mut pool = HyperdrivePool::instantiate_dex(address(YIELD_SOURCE), address(ADMIN));
    let invalid = Err(PoolError::InvalidParameter);
    assert_eq!(create(&mut pool, 0, 52 * WEEK, "0.01", "1000", YIELD_SOURCE, "101000"), invalid);
    assert_eq!(create(&mut pool, WEEK, 52 * WEEK, "1.01", "1000", YIELD_SOURCE, "101000"), invalid);
    assert_eq!(
        create(&mut pool, WEEK, 52 * WEEK, "-0.01", "1000", YIELD_SOURCE, "101000"),
        invalid,
    );
    assert_eq!(create(&mut pool, WEEK, 52 * WEEK, "0.01", "1000", YIELD_SOURCE, "999"), invalid);
    assert_eq!(
        create(&mut pool, WEEK, 52 * WEEK, "0.01", "1000", ADMIN, "101000"),
        Err(PoolError::ResourceMismatch)
    );
    assert_eq!(
        create(&mut pool, WEEK, 52 * WEEK, "0.01", "1000", ADMIN, "999"),
        Err(PoolError::ResourceMismatch)
    );
    let overflowing = pool.create_pool(
        WEEK,
        52 * WEEK,
        dec("0.01"),
        dec("0.005"),
        dec("0.1"),
        dec("0.1"),
        dec("-1"),
        address(YIELD_SOURCE),
        largest(),
        resources(),
        1000000,
    );
    assert_eq!(overflowing, Err(PoolError::ArithmeticOverflow));
    pool.pool_counter = u64::MAX;
    assert_eq!(
        create(&mut pool, WEEK, 52 * WEEK, "0.01", "1000", YIELD_SOURCE, "101000"),
        Err(PoolError::ArithmeticOverflow)
    );
    assert!(!pool.is_initialized);
    assert!(pool.checkpoints.is_empty());
    assert_eq!(pool.bond_resource_address, None);
    assert_eq!(pool.share_reserves, dec("0"));
}

fn validate(
    pool: &HyperdrivePool,
    checkpoint_duration: u64,
    fee: &str,
    resource: u8,
    amount: &str,
) -> Result<u64, PoolError> {
    pool.validate_new_pool(
        checkpoint_duration,
        52 * WEEK,
        dec(fee),
        dec("0.005"),
        dec("0.1"),
        dec("0.1"),
        dec("1000"),
        address(resource),
        dec(amount),
    )
}

#[test]
fn a_new_pool_is_validated_before_anything_is_provisioned() {
    let mut pool = HyperdrivePool::instantiate_dex(address(YIELD_SOURCE), address(ADMIN));
    assert_eq!(validate(&pool, WEEK, "0.01", YIELD_SOURCE, "101000"), Ok(1));
    assert_eq!(validate(&pool, WEEK, "0.01", YIELD_SOURCE, "1000"), Ok(1));
    let invalid = Err(PoolError::InvalidParameter);
    assert_eq!(validate(&pool, 0, "0.01", YIELD_SOURCE, "101000"), invalid);
    assert_eq!(validate(&pool, WEEK, "1.01", YIELD_SOURCE, "101000"), invalid);
    assert_eq!(validate(&pool, WEEK, "0.01", ADMIN, "101000"), Err(PoolError::ResourceMismatch));
    assert_eq!(validate(&pool, WEEK, "0.01", YIELD_SOURCE, "999"), invalid);
    pool.pool_counter = 41;
    assert_eq!(validate(&pool, WEEK, "0.01", YIELD_SOURCE, "101000"), Ok(42));
    assert_eq!(
        create(&mut pool, WEEK, 52 * WEEK, "0.01", "1000", YIELD_SOURCE, "101000"),
        Ok(dec("100000")),
    );
    assert_eq!(pool.pool_id, 42);
    assert_eq!(
        validate(&pool, WEEK, "0.01", YIELD_SOURCE, "101000"),
        Err(PoolError::AlreadyInitialized),
    );
    let mut full = HyperdrivePool::instantiate_dex(address(YIELD_SOURCE), address(ADMIN));
    full.pool_counter = u64::MAX;
    assert_eq!(
        validate(&full, WEEK, "0.01", YIELD_SOURCE, "101000"),
        Err(PoolError::ArithmeticOverflow),
    );
}

#[test]
fn a_pool_is_created_once() {
    let mut pool = created();
    assert_eq!(
        create(&mut pool, DAY, 365 * DAY, "0.02", "10", YIELD_SOURCE, "5000"),
        Err(PoolError::AlreadyInitialized)
    );
    assert_eq!(
        create(&mut pool, 0, 0, "2", "10", ADMIN, "5"),
        Err(PoolError::AlreadyInitialized)
    );
    assert_eq!(pool.get_pool_count(), 1);
    assert_eq!(pool.checkpoint_duration, WEEK);
    assert_eq!(pool.share_reserves, dec("100000"));
}

#[test]
fn the_first_long_trades_one_for_one() {
    let mut pool = created();
    let opened = pool.open_long(address(YIELD_SOURCE), dec("1000"), 1000005).unwrap();
    assert_eq!(opened.position.face_value, dec("991"));
    assert_eq!(opened.position.checkpoint, WEEK);
    assert_eq!(opened.position.open_time, 1000005);
    assert_eq!(opened.position.maturity_time, 53 * WEEK);
    assert_eq!(opened.governance_shares, dec("1"));
    assert_eq!(pool.share_reserves, dec("101000"));
    assert_eq!(pool.bond_reserves, dec("-991"));
    assert_eq!(pool.checkpoints[&WEEK].long_positions, dec("991"));
    assert_eq!(pool.current_checkpoint, WEEK);

    let closed = pool.close_long(address(14), dec("1"), opened.position, 1000005).unwrap();
    assert_eq!(
        closed,
        PositionClosed { proceeds: dec("982.081"), governance_shares: dec("0.991") },
    );
    assert_eq!(pool.share_reserves, dec("100009"));
    assert_eq!(pool.bond_reserves, dec("0"));
    assert_eq!(pool.zeta_adjustment, dec("0"));
    assert_eq!(pool.checkpoints[&WEEK].long_positions, dec("0"));
}

#[test]
fn pool_operations_check_their_input() {
    let mut pool = created();
    assert_eq!(
        pool.open_long(address(ADMIN), dec("1000"), 1000005).map(|_| ()),
        Err(PoolError::ResourceMismatch)
    );
    assert_eq!(
        pool.close_long(address(15), dec("1"), long_position(), 1000005).map(|_| ()),
        Err(PoolError::ResourceMismatch)
    );
    assert_eq!(
        pool.close_short(address(14), dec("1"), short_position(), 1000005).map(|_| ()),
        Err(PoolError::ResourceMismatch)
    );
    assert_eq!(
        pool.open_short(address(YIELD_SOURCE), dec("8.9"), dec("1000"), 1000005).map(|_| ()),
        Err(PoolError::InsufficientCollateral)
    );
    assert_eq!(
        pool.remove_liquidity(address(12), dec("10"), dec("100000")).map(|_| ()),
        Err(PoolError::ResourceMismatch)
    );
    assert_eq!(
        pool.remove_liquidity(address(11), dec("100001"), dec("100000")).map(|_| ()),
        Err(PoolError::InsufficientBalance)
    );
    assert_eq!(
        pool.add_liquidity(address(YIELD_SOURCE), dec("0.5"), dec("100000")).map(|_| ()),
        Err(PoolError::InvalidParameter)
    );
    assert_eq!(pool.share_reserves, dec("100000"));
    assert_eq!(pool.bond_reserves, dec("0"));
    assert_eq!(pool.checkpoints.len(), 1);
}

#[test]
fn a_short_is_opened_and_closed_on_the_pool() {
    let mut pool = created();
    let opened = pool.open_short(address(YIELD_SOURCE), dec("20"), dec("1000"), 1000005).unwrap();
    assert_eq!(opened.deposit, dec("9"));
    assert_eq!(opened.change, dec("11"));
    assert_eq!(opened.position.initial_share_price, dec("1"));
    assert_eq!(pool.share_reserves, dec("99009"));
    assert_eq!(pool.bond_reserves, dec("1000"));
    assert_eq!(pool.checkpoints[&WEEK].short_positions, dec("1000"));
    assert_eq!(pool.update_share_price(dec("1.1")), Ok(()));
    let closed = pool.close_short(address(15), dec("1"), opened.position, 53 * WEEK).unwrap();
    assert_eq!(closed.proceeds, dec("95.500000000000000001"));
    assert_eq!(closed.governance_shares, dec("0.454545454545454545"));
    assert_eq!(pool.share_reserves, dec("99918.090909090909090909"));
    assert_eq!(pool.bond_reserves, dec("1000"));
    assert_eq!(pool.zeta_adjustment, dec("913.181818181818181818"));
    assert_eq!(pool.current_checkpoint, 53 * WEEK);
    assert_eq!(pool.checkpoints[&WEEK].short_positions, dec("0"));
    assert_eq!(pool.checkpoints[&(53 * WEEK)], Checkpoint::minted(53 * WEEK, dec("1.1")));
}

#[test]
fn liquidity_goes_in_and_out_of_the_pool() {
    let mut pool = created();
    assert_eq!(
        pool.add_liquidity(address(YIELD_SOURCE), dec("5000"), dec("100000")),
        Ok(dec("5000")),
    );
    assert_eq!(pool.share_reserves, dec("105000"));
    assert_eq!(
        pool.remove_liquidity(address(11), dec("5000"), dec("105000")),
        Ok(LiquidityRemoved { base_amount: dec("5000"), withdrawal_shares: dec("0") })
    );
    assert_eq!(pool.share_reserves, dec("100000"));
    assert_eq!(
        pool.remove_liquidity(address(11), dec("100000"), dec("100000")),
        Ok(LiquidityRemoved { base_amount: dec("99000"), withdrawal_shares: dec("1000") })
    );
    assert_eq!(pool.share_reserves, dec("1000"));
}

#[test]
fn the_pool_reports_its_state() {
    let mut pool = created();
    pool.open_long(address(YIELD_SOURCE), dec("1000"), 1000005).unwrap();
    pool.open_short(address(YIELD_SOURCE), dec("2000"), dec("5000"), 1000006).unwrap();
    assert_eq!(pool.bond_reserves, dec("4009"));
    let state = pool.get_pool_state(dec("100000"), dec("7"), dec("3")).unwrap();
    assert_eq!(state.share_reserves, pool.share_reserves);
    assert_eq!(state.bond_reserves, dec("4009"));
    assert_eq!(state.zeta_adjustment, dec("0"));
    assert_eq!(state.effective_share_reserves, pool.share_reserves);
    assert_eq!(state.share_price, dec("1"));
    assert_eq!(Ok(state.spot_rate), pool.get_spot_rate());
    assert!(state.spot_rate.lt(dec("0")));
    assert_eq!(state.active_lp_shares_address, dec("100000"));
    assert_eq!(state.withdrawal_shares_address, dec("7"));
    assert_eq!(state.ready_withdrawal_shares_address, dec("3"));
    assert_eq!(state.zombie_share_reserves, dec("0"));
    assert_eq!(state.zombie_base_reserves, dec("0"));
    assert_eq!(state.current_checkpoint, WEEK);
    assert_eq!(pool.effective_share_reserves(), Ok(pool.share_reserves));
    pool.zeta_adjustment = dec("9");
    assert_eq!(
        pool.effective_share_reserves(),
        Ok(pool.share_reserves.checked_sub(dec("9")).unwrap())
    );
}

#[test]
fn the_share_price_must_stay_positive() {
    let mut pool = created();
    assert_eq!(pool.update_share_price(dec("0")), Err(PoolError::InvalidParameter));
    assert_eq!(pool.update_share_price(dec("-1")), Err(PoolError::InvalidParameter));
    assert_eq!(pool.share_price, dec("1"));
    assert_eq!(pool.update_share_price(dec("1.25")), Ok(()));
    assert_eq!(pool.share_price, dec("1.25"));
    assert_eq!(pool.share_reserves, dec("100000"));
}

#[test]
fn governance_fees_are_swept_whole_for_the_admin_badge() {
    let pool = created();
    assert_eq!(pool.withdraw_governance_fees(address(ADMIN), dec("12.5")), Ok(dec("12.5")));
    assert_eq!(pool.withdraw_governance_fees(address(ADMIN), dec("0")), Ok(dec("0")));
    assert_eq!(
        pool.withdraw_governance_fees(address(YIELD_SOURCE), dec("12.5")),
        Err(PoolError::ResourceMismatch)
    );
    assert_eq!(withdraw_governance_fees(address(ADMIN), address(ADMIN), dec("3")), Ok(dec("3")));
    assert_eq!(
        withdraw_governance_fees(address(ADMIN), address(14), dec("3")),
        Err(PoolError::ResourceMismatch)
    );
}

#[test]
fn a_position_is_opened_under_a_checkpoint_of_the_ledger() {
    let mut pool = created();
    let long = pool.open_long(address(YIELD_SOURCE), dec("1000"), 1000005).unwrap();
    assert!(pool.checkpoints.contains_key(&long.position.checkpoint));
    let short = pool
        .open_short(address(YIELD_SOURCE), dec("2000"), dec("500"), 9 * WEEK + 3)
        .unwrap();
    assert_eq!(short.position.checkpoint, 9 * WEEK);
    assert_eq!(pool.current_checkpoint, 9 * WEEK);
    assert!(pool.checkpoints.contains_key(&short.position.checkpoint));
    assert!(pool.checkpoints.contains_key(&pool.current_checkpoint));
    assert_eq!(pool.checkpoints.len(), 2);
}
