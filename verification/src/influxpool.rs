//! One pool: its parameters, its reserves and its checkpoint ledger, with the
//! operations on positions and liquidity applied to them.
//!
//! The pool holds amounts and records only. Whoever drives it keeps the
//! assets: it hands in what it took from the caller and the clock's reading,
//! and moves or mints what an operation hands back.

use crate::decimal::{div_units, fits, scale, Decimal};
use crate::dex::{
    close_long_error, close_long_position, close_quote, close_short_error, close_short_position,
    long_close_quote, long_open_quote, open_long_error, open_long_position,
    open_short_error, open_short_position, reserves_of, short_close_quote, short_open_quote,
    LongOpened, PositionClosed, Reserves, ShortOpened,
};
use crate::error::PoolError;
use crate::events::{
    checkpoint_after, fresh_checkpoint, get_pool_state, initialize_first_checkpoint, ledger_after,
    ledger_replaced, long_closed, long_opened, short_closed, short_opened,
};
use crate::helpers::{
    calculate_effective_share_reserves, calculate_spot_rate, checkpoint_of, spot_rate_fits,
    time_remaining_units, valid_durations, valid_fee, validate_durations, validate_fee,
    validate_liquidity_amount, validate_resource_address,
};
use crate::liquidity::{
    add_liquidity, add_liquidity_error, lp_minted_units, remove_liquidity, remove_liquidity_error,
    removal_quote, term_of, update_share_price_from_yield_source, withdraw_governance_fees,
    LiquidityRemoved, Term,
};
use crate::types::{
    ledger_view, lemma_ledger_view_keys, Checkpoint, CheckpointView, LongPosition, PoolState,
    ResourceAddress, ShortPosition,
};
use std::collections::HashMap;
use vstd::prelude::*;

verus! {

/// The assets that a pool issues, provisioned when the pool is created.
#[derive(Clone, Copy, Debug, PartialEq, Eq)]
pub struct PoolResources {
    pub bond: ResourceAddress,
    pub active_lp_shares: ResourceAddress,
    pub withdrawal_shares: ResourceAddress,
    pub ready_withdrawal_shares: ResourceAddress,
    pub long_positions: ResourceAddress,
    pub short_positions: ResourceAddress,
}

/// A pool of fixed-rate positions over one yield-bearing asset.
pub struct HyperdrivePool {
    /// The yield-bearing asset that the pool takes as capital.
    pub yield_source: ResourceAddress,
    /// The badge that administrative operations ask for.
    pub admin_badge: ResourceAddress,
    /// Number of pools created so far.
    pub pool_counter: u64,
    pub is_initialized: bool,
    pub pool_id: u64,
    pub share_reserves: Decimal,
    pub bond_reserves: Decimal,
    pub zeta_adjustment: Decimal,
    pub share_price: Decimal,
    pub bond_resource_address: Option<ResourceAddress>,
    pub active_lp_shares_address: Option<ResourceAddress>,
    pub withdrawal_shares_address: Option<ResourceAddress>,
    pub ready_withdrawal_shares_address: Option<ResourceAddress>,
    pub checkpoints: HashMap<u64, Checkpoint>,
    pub checkpoint_duration: u64,
    pub position_duration: u64,
    pub current_checkpoint: u64,
    pub new_bond_fee: Decimal,
    pub matured_bond_fee: Decimal,
    pub governance_fee: Decimal,
    pub zombie_governance_fee: Decimal,
    pub min_share_reserves: Decimal,
    pub zombie_share_reserves: Decimal,
    pub zombie_base_reserves: Decimal,
    pub long_positions_resource: Option<ResourceAddress>,
    pub short_positions_resource: Option<ResourceAddress>,
}

/// Why creating a pool fails, if it does: a pool is there already, durations
/// or a fee that are not valid, the wrong asset, less capital than the floor
/// of the share reserves, or a number that leaves its range.
pub open spec fn create_pool_error(
    pool: HyperdrivePool,
    checkpoint_duration: u64,
    position_duration: u64,
    new_bond_fee: int,
    matured_bond_fee: int,
    governance_fee: int,
    zombie_governance_fee: int,
    min_share_reserves: int,
    liquidity_resource: Seq<u8>,
    liquidity_amount: int,
) -> Option<PoolError> {
    if pool.is_initialized {
        Some(PoolError::AlreadyInitialized)
    } else if !valid_durations(checkpoint_duration, position_duration) || !valid_fee(new_bond_fee)
        || !valid_fee(matured_bond_fee) || !valid_fee(governance_fee) || !valid_fee(
        zombie_governance_fee,
    ) {
        Some(PoolError::InvalidParameter)
    } else if liquidity_resource != pool.yield_source@ {
        Some(PoolError::ResourceMismatch)
    } else if liquidity_amount < min_share_reserves {
        Some(PoolError::InvalidParameter)
    } else if pool.pool_counter == u64::MAX || !fits(liquidity_amount - min_share_reserves) {
        Some(PoolError::ArithmeticOverflow)
    } else {
        None
    }
}

impl HyperdrivePool {
    /// The reserves that quotes are made against.
    pub open spec fn reserves(&self) -> Reserves {
        reserves_of(self.share_reserves, self.bond_reserves, self.zeta_adjustment, self.share_price)
    }

    /// The ledger with each checkpoint as its view.
    pub open spec fn ledger(&self) -> Map<u64, CheckpointView> {
        ledger_view(self.checkpoints@)
    }

    /// The checkpoints as the solvency requirement reads them.
    pub open spec fn term(&self) -> Term {
        term_of(
            self.checkpoints@,
            self.current_checkpoint,
            self.checkpoint_duration,
            self.position_duration,
        )
    }

    /// What a created pool keeps true: durations and fees that are valid, a
    /// positive share price, its assets provisioned, and its current
    /// checkpoint in the ledger.
    pub open spec fn well_formed(&self) -> bool {
        self.is_initialized ==> {
            &&& self.checkpoints@.contains_key(self.current_checkpoint)
            &&& valid_durations(self.checkpoint_duration, self.position_duration)
            &&& valid_fee(self.new_bond_fee@)
            &&& valid_fee(self.matured_bond_fee@)
            &&& valid_fee(self.governance_fee@)
            &&& valid_fee(self.zombie_governance_fee@)
            &&& self.share_price@ > 0
            &&& self.bond_resource_address is Some
            &&& self.active_lp_shares_address is Some
            &&& self.withdrawal_shares_address is Some
            &&& self.ready_withdrawal_shares_address is Some
            &&& self.long_positions_resource is Some
            &&& self.short_positions_resource is Some
        }
    }

    /// Whether everything but the reserves, the ledger and the current
    /// checkpoint is as in `other`.
    pub open spec fn same_setup(&self, other: &HyperdrivePool) -> bool {
        &&& self.yield_source == other.yield_source
        &&& self.admin_badge == other.admin_badge
        &&& self.pool_counter == other.pool_counter
        &&& self.is_initialized == other.is_initialized
        &&& self.pool_id == other.pool_id
        &&& self.share_price == other.share_price
        &&& self.bond_resource_address == other.bond_resource_address
        &&& self.active_lp_shares_address == other.active_lp_shares_address
        &&& self.withdrawal_shares_address == other.withdrawal_shares_address
        &&& self.ready_withdrawal_shares_address == other.ready_withdrawal_shares_address
        &&& self.checkpoint_duration == other.checkpoint_duration
        &&& self.position_duration == other.position_duration
        &&& self.new_bond_fee == other.new_bond_fee
        &&& self.matured_bond_fee == other.matured_bond_fee
        &&& self.governance_fee == other.governance_fee
        &&& self.zombie_governance_fee == other.zombie_governance_fee
        &&& self.min_share_reserves == other.min_share_reserves
        &&& self.zombie_share_reserves == other.zombie_share_reserves
        &&& self.zombie_base_reserves == other.zombie_base_reserves
        &&& self.long_positions_resource == other.long_positions_resource
        &&& self.short_positions_resource == other.short_positions_resource
    }

    /// Whether the pool is as `other` is: the same setup, reserves, current
    /// checkpoint and checkpoints.
    pub open spec fn unchanged(&self, other: &HyperdrivePool) -> bool {
        &&& self.same_setup(other)
        &&& self.share_reserves == other.share_reserves
        &&& self.bond_reserves == other.bond_reserves
        &&& self.zeta_adjustment == other.zeta_adjustment
        &&& self.current_checkpoint == other.current_checkpoint
        &&& self.checkpoints@ == other.checkpoints@
    }

    /// A component without a pool: nothing created, nothing held, a share
    /// price of one.
    pub fn instantiate_dex(yield_source: ResourceAddress, admin_badge: ResourceAddress) -> (r:
        HyperdrivePool)
        ensures
            r.yield_source == yield_source,
            r.admin_badge == admin_badge,
            r.pool_counter == 0,
            r.pool_id == 0,
            !r.is_initialized,
            r.share_reserves@ == 0,
            r.bond_reserves@ == 0,
            r.zeta_adjustment@ == 0,
            r.share_price@ == scale(),
            r.checkpoints@ == Map::<u64, Checkpoint>::empty(),
            r.checkpoint_duration == 0,
            r.position_duration == 0,
            r.current_checkpoint == 0,
            r.new_bond_fee@ == 0,
            r.matured_bond_fee@ == 0,
            r.governance_fee@ == 0,
            r.zombie_governance_fee@ == 0,
            r.min_share_reserves@ == 0,
            r.zombie_share_reserves@ == 0,
            r.zombie_base_reserves@ == 0,
            r.bond_resource_address is None,
            r.active_lp_shares_address is None,
            r.withdrawal_shares_address is None,
            r.ready_withdrawal_shares_address is None,
            r.long_positions_resource is None,
            r.short_positions_resource is None,
            r.well_formed(),
    {
        let zero = Decimal::zero();
        HyperdrivePool {
            yield_source,
            admin_badge,
            pool_counter: 0,
            is_initialized: false,
            pool_id: 0,
            share_reserves: zero,
            bond_reserves: zero,
            zeta_adjustment: zero,
            share_price: Decimal::one(),
            bond_resource_address: None,
            active_lp_shares_address: None,
            withdrawal_shares_address: None,
            ready_withdrawal_shares_address: None,
            checkpoints: HashMap::new(),
            checkpoint_duration: 0,
            position_duration: 0,
            current_checkpoint: 0,
            new_bond_fee: zero,
            matured_bond_fee: zero,
            governance_fee: zero,
            zombie_governance_fee: zero,
            min_share_reserves: zero,
            zombie_share_reserves: zero,
            zombie_base_reserves: zero,
            long_positions_resource: None,
            short_positions_resource: None,
        }
    }

    /// Checks the parameters and the first liquidity of a new pool, as
    /// `create_pool` does before it changes anything; returns the id that the
    /// pool will get, so that its assets can be provisioned under it.
    pub fn validate_new_pool(
        &self,
        checkpoint_duration: u64,
        position_duration: u64,
        new_bond_fee: Decimal,
        matured_bond_fee: Decimal,
        governance_fee: Decimal,
        zombie_governance_fee: Decimal,
        min_share_reserves: Decimal,
        liquidity_resource: ResourceAddress,
        liquidity_amount: Decimal,
    ) -> (r: Result<u64, PoolError>)
        ensures
            ({
                let error = create_pool_error(
                    *self,
                    checkpoint_duration,
                    position_duration,
                    new_bond_fee@,
                    matured_bond_fee@,
                    governance_fee@,
                    zombie_governance_fee@,
                    min_share_reserves@,
                    liquidity_resource@,
                    liquidity_amount@,
                );
                match r {
                    Ok(id) => error is None && id == self.pool_counter + 1,
                    Err(e) => error == Some(e),
                }
            }),
    {
        if self.is_initialized {
            return Err(PoolError::AlreadyInitialized);
        }
        validate_durations(checkpoint_duration, position_duration)?;
        validate_fee(new_bond_fee)?;
        validate_fee(matured_bond_fee)?;
        validate_fee(governance_fee)?;
        validate_fee(zombie_governance_fee)?;
        validate_resource_address(liquidity_resource, self.yield_source)?;
        validate_liquidity_amount(liquidity_amount, min_share_reserves)?;
        if self.pool_counter == u64::MAX {
            return Err(PoolError::ArithmeticOverflow);
        }
        liquidity_amount.try_sub(min_share_reserves)?;
        Ok(self.pool_counter + 1)
    }

    /// Creates the pool with its parameters and its first liquidity; returns
    /// the liquidity shares to mint for it.
    ///
    /// The share reserves start at the capital above their floor, the bond
    /// reserves and the zeta adjustment at zero, the share price at one, and
    /// the ledger gets the checkpoint of `current_time`.
    pub fn create_pool(
        &mut self,
        checkpoint_duration: u64,
        position_duration: u64,
        new_bond_fee: Decimal,
        matured_bond_fee: Decimal,
        governance_fee: Decimal,
        zombie_governance_fee: Decimal,
        min_share_reserves: Decimal,
        liquidity_resource: ResourceAddress,
        liquidity_amount: Decimal,
        resources: PoolResources,
        current_time: u64,
    ) -> (r: Result<Decimal, PoolError>)
        ensures
            ({
                let error = create_pool_error(
                    *old(self),
                    checkpoint_duration,
                    position_duration,
                    new_bond_fee@,
                    matured_bond_fee@,
                    governance_fee@,
                    zombie_governance_fee@,
                    min_share_reserves@,
                    liquidity_resource@,
                    liquidity_amount@,
                );
                let first = checkpoint_of(current_time, checkpoint_duration);
                match r {
                    Ok(minted) => {
                        &&& error is None
                        &&& minted@ == liquidity_amount@ - min_share_reserves@
                        &&& final(self).is_initialized
                        &&& final(self).well_formed()
                        &&& final(self).yield_source == old(self).yield_source
                        &&& final(self).admin_badge == old(self).admin_badge
                        &&& final(self).pool_counter == old(self).pool_counter + 1
                        &&& final(self).pool_id == old(self).pool_counter + 1
                        &&& final(self).share_reserves@ == liquidity_amount@ - min_share_reserves@
                        &&& final(self).bond_reserves@ == 0
                        &&& final(self).zeta_adjustment@ == 0
                        &&& final(self).share_price@ == scale()
                        &&& final(self).checkpoint_duration == checkpoint_duration
                        &&& final(self).position_duration == position_duration
                        &&& final(self).new_bond_fee == new_bond_fee
                        &&& final(self).matured_bond_fee == matured_bond_fee
                        &&& final(self).governance_fee == governance_fee
                        &&& final(self).zombie_governance_fee == zombie_governance_fee
                        &&& final(self).min_share_reserves == min_share_reserves
                        &&& final(self).zombie_share_reserves == old(self).zombie_share_reserves
                        &&& final(self).zombie_base_reserves == old(self).zombie_base_reserves
                        &&& final(self).current_checkpoint == first
                        &&& final(self).ledger() == old(self).ledger().insert(
                            first,
                            fresh_checkpoint(first, scale()),
                        )
                        &&& final(self).bond_resource_address == Some(resources.bond)
                        &&& final(self).active_lp_shares_address == Some(
                            resources.active_lp_shares,
                        )
                        &&& final(self).withdrawal_shares_address == Some(
                            resources.withdrawal_shares,
                        )
                        &&& final(self).ready_withdrawal_shares_address == Some(
                            resources.ready_withdrawal_shares,
                        )
                        &&& final(self).long_positions_resource == Some(resources.long_positions)
                        &&& final(self).short_positions_resource == Some(resources.short_positions)
                    },
                    Err(e) => error == Some(e) && final(self).unchanged(old(self)),
                }
            }),
    {
        let pool_id = self.validate_new_pool(
            checkpoint_duration,
            position_duration,
            new_bond_fee,
            matured_bond_fee,
            governance_fee,
            zombie_governance_fee,
            min_share_reserves,
            liquidity_resource,
            liquidity_amount,
        )?;
        let initial_share_reserves = liquidity_amount.try_sub(min_share_reserves)?;
        let one = Decimal::one();
        self.pool_counter = pool_id;
        self.pool_id = pool_id;
        self.bond_resource_address = Some(resources.bond);
        self.active_lp_shares_address = Some(resources.active_lp_shares);
        self.withdrawal_shares_address = Some(resources.withdrawal_shares);
        self.ready_withdrawal_shares_address = Some(resources.ready_withdrawal_shares);
        self.long_positions_resource = Some(resources.long_positions);
        self.short_positions_resource = Some(resources.short_positions);
        self.checkpoint_duration = checkpoint_duration;
        self.position_duration = position_duration;
        self.new_bond_fee = new_bond_fee;
        self.matured_bond_fee = matured_bond_fee;
        self.governance_fee = governance_fee;
        self.zombie_governance_fee = zombie_governance_fee;
        self.min_share_reserves = min_share_reserves;
        self.share_reserves = initial_share_reserves;
        self.bond_reserves = Decimal::zero();
        self.zeta_adjustment = Decimal::zero();
        self.share_price = one;
        self.current_checkpoint = initialize_first_checkpoint(
            &mut self.checkpoints,
            checkpoint_duration,
            one,
            current_time,
        );
        self.is_initialized = true;
        proof {
            lemma_ledger_view_keys(self.checkpoints@, self.current_checkpoint);
        }
        Ok(initial_share_reserves)
    }

    /// Opens a long with `base_amount` of capital at `current_time`.
    pub fn open_long(
        &mut self,
        base_resource: ResourceAddress,
        base_amount: Decimal,
        current_time: u64,
    ) -> (r: Result<LongOpened, PoolError>)
        ensures
            old(self).well_formed() ==> final(self).well_formed(),
            !old(self).is_initialized ==> r == Err::<LongOpened, PoolError>(
                PoolError::NotInitialized,
            ) && final(self).unchanged(old(self)),
            old(self).is_initialized ==> ({
                let pool = old(self);
                let error = open_long_error(
                    base_resource@,
                    pool.yield_source@,
                    base_amount@,
                    current_time,
                    pool.reserves(),
                    pool.ledger(),
                    pool.current_checkpoint,
                    pool.checkpoint_duration,
                    pool.position_duration,
                    pool.new_bond_fee@,
                    pool.governance_fee@,
                );
                let q = long_open_quote(
                    base_amount@,
                    pool.reserves(),
                    pool.new_bond_fee@,
                    pool.governance_fee@,
                );
                let cp = checkpoint_after(
                    pool.current_checkpoint,
                    current_time,
                    pool.checkpoint_duration,
                );
                let l = ledger_after(
                    pool.ledger(),
                    pool.current_checkpoint,
                    current_time,
                    pool.checkpoint_duration,
                    pool.share_price@,
                );
                match r {
                    Ok(out) => {
                        &&& error is None
                        &&& final(self).same_setup(pool)
                        &&& final(self).share_reserves@ == q.share_reserves_after
                        &&& final(self).bond_reserves@ == q.bond_reserves_after
                        &&& final(self).zeta_adjustment == pool.zeta_adjustment
                        &&& final(self).current_checkpoint == cp
                        &&& final(self).ledger() == ledger_replaced(
                            l,
                            cp,
                            long_opened(
                                l[cp],
                                q.adjusted_face_value,
                                (cp + pool.position_duration) as u64,
                            ),
                        )
                        &&& out.position.face_value@ == q.adjusted_face_value
                        &&& out.position.checkpoint == cp
                        &&& out.position.open_time == current_time
                        &&& out.position.maturity_time == cp + pool.position_duration
                        &&& out.governance_shares@ == q.governance_shares
                        &&& pool.well_formed() ==> final(self).checkpoints@.contains_key(
                            out.position.checkpoint,
                        )
                    },
                    Err(e) => error == Some(e) && final(self).unchanged(old(self)),
                }
            }),
    {
        if !self.is_initialized {
            return Err(PoolError::NotInitialized);
        }
        let r = open_long_position(
            base_resource,
            base_amount,
            current_time,
            &mut self.share_reserves,
            &mut self.bond_reserves,
            self.zeta_adjustment,
            self.share_price,
            &mut self.checkpoints,
            &mut self.current_checkpoint,
            self.checkpoint_duration,
            self.position_duration,
            self.new_bond_fee,
            self.governance_fee,
            self.yield_source,
        );
        proof {
            let after = checkpoint_after(
                old(self).current_checkpoint,
                current_time,
                old(self).checkpoint_duration,
            );
            lemma_ledger_view_keys(old(self).checkpoints@, old(self).current_checkpoint);
            lemma_ledger_view_keys(self.checkpoints@, after);
        }
        r
    }

    /// Closes the long `position` at `current_time`.
    pub fn close_long(
        &mut self,
        position_resource: ResourceAddress,
        position_amount: Decimal,
        position: LongPosition,
        current_time: u64,
    ) -> (r: Result<PositionClosed, PoolError>)
        ensures
            old(self).well_formed() ==> final(self).well_formed(),
            !old(self).is_initialized || old(self).long_positions_resource is None ==> r == Err::<
                PositionClosed,
                PoolError,
            >(PoolError::NotInitialized) && final(self).unchanged(old(self)),
            old(self).is_initialized && old(self).long_positions_resource is Some ==> ({
                let pool = old(self);
                let error = close_long_error(
                    position_resource@,
                    position_amount@,
                    pool.long_positions_resource->0@,
                    position,
                    current_time,
                    pool.reserves(),
                    pool.ledger(),
                    pool.current_checkpoint,
                    pool.checkpoint_duration,
                    pool.new_bond_fee@,
                    pool.matured_bond_fee@,
                    pool.governance_fee@,
                );
                let tr = time_remaining_units(
                    current_time,
                    position.open_time,
                    position.maturity_time,
                );
                let q = close_quote(
                    position.face_value@,
                    tr,
                    pool.reserves(),
                    pool.new_bond_fee@,
                    pool.matured_bond_fee@,
                    pool.governance_fee@,
                );
                let after = long_close_quote(q, pool.reserves(), pool.governance_fee@);
                let l = ledger_after(
                    pool.ledger(),
                    pool.current_checkpoint,
                    current_time,
                    pool.checkpoint_duration,
                    pool.share_price@,
                );
                match r {
                    Ok(out) => {
                        &&& error is None
                        &&& final(self).same_setup(pool)
                        &&& final(self).share_reserves@ == after.share_reserves_after
                        &&& final(self).bond_reserves@ == after.bond_reserves_after
                        &&& final(self).zeta_adjustment@ == after.zeta_adjustment_after
                        &&& final(self).current_checkpoint == checkpoint_after(
                            pool.current_checkpoint,
                            current_time,
                            pool.checkpoint_duration,
                        )
                        &&& final(self).ledger() == ledger_replaced(
                            l,
                            position.checkpoint,
                            long_closed(l[position.checkpoint], position.face_value@, tr),
                        )
                        &&& out.proceeds@ == after.proceeds
                        &&& out.governance_shares@ == q.governance_shares
                    },
                    Err(e) => error == Some(e) && final(self).unchanged(old(self)),
                }
            }),
    {
        if !self.is_initialized {
            return Err(PoolError::NotInitialized);
        }
        let long_positions_resource = match self.long_positions_resource {
            Some(resource) => resource,
            None => {
                return Err(PoolError::NotInitialized);
            },
        };
        let r = close_long_position(
            position_resource,
            position_amount,
            position,
            current_time,
            &mut self.share_reserves,
            &mut self.bond_reserves,
            &mut self.zeta_adjustment,
            self.share_price,
            &mut self.checkpoints,
            &mut self.current_checkpoint,
            self.checkpoint_duration,
            self.new_bond_fee,
            self.matured_bond_fee,
            self.governance_fee,
            long_positions_resource,
        );
        proof {
            let after = checkpoint_after(
                old(self).current_checkpoint,
                current_time,
                old(self).checkpoint_duration,
            );
            lemma_ledger_view_keys(old(self).checkpoints@, old(self).current_checkpoint);
            lemma_ledger_view_keys(self.checkpoints@, after);
        }
        r
    }

    /// Opens a short of `face_value` at `current_time`, backed by
    /// `base_amount` of capital.
    pub fn open_short(
        &mut self,
        base_resource: ResourceAddress,
        base_amount: Decimal,
        face_value: Decimal,
        current_time: u64,
    ) -> (r: Result<ShortOpened, PoolError>)
        ensures
            old(self).well_formed() ==> final(self).well_formed(),
            !old(self).is_initialized ==> r == Err::<ShortOpened, PoolError>(
                PoolError::NotInitialized,
            ) && final(self).unchanged(old(self)),
            old(self).is_initialized ==> ({
                let pool = old(self);
                let error = open_short_error(
                    base_resource@,
                    pool.yield_source@,
                    base_amount@,
                    face_value@,
                    current_time,
                    pool.reserves(),
                    pool.ledger(),
                    pool.current_checkpoint,
                    pool.checkpoint_duration,
                    pool.position_duration,
                    pool.new_bond_fee@,
                    pool.governance_fee@,
                );
                let q = short_open_quote(
                    face_value@,
                    pool.reserves(),
                    pool.new_bond_fee@,
                    pool.governance_fee@,
                );
                let cp = checkpoint_after(
                    pool.current_checkpoint,
                    current_time,
                    pool.checkpoint_duration,
                );
                let l = ledger_after(
                    pool.ledger(),
                    pool.current_checkpoint,
                    current_time,
                    pool.checkpoint_duration,
                    pool.share_price@,
                );
                match r {
                    Ok(out) => {
                        &&& error is None
                        &&& final(self).same_setup(pool)
                        &&& final(self).share_reserves@ == q.share_reserves_after
                        &&& final(self).bond_reserves@ == q.bond_reserves_after
                        &&& final(self).zeta_adjustment == pool.zeta_adjustment
                        &&& final(self).current_checkpoint == cp
                        &&& final(self).ledger() == ledger_replaced(
                            l,
                            cp,
                            short_opened(l[cp], face_value@, (cp + pool.position_duration) as u64),
                        )
                        &&& out.position.face_value == face_value
                        &&& out.position.checkpoint == cp
                        &&& out.position.open_time == current_time
                        &&& out.position.maturity_time == cp + pool.position_duration
                        &&& out.position.initial_share_price == pool.share_price
                        &&& out.deposit@ == q.total_deposit
                        &&& out.change@ == base_amount@ - q.total_deposit
                        &&& out.governance_shares@ == q.governance_shares
                        &&& pool.well_formed() ==> final(self).checkpoints@.contains_key(
                            out.position.checkpoint,
                        )
                    },
                    Err(e) => error == Some(e) && final(self).unchanged(old(self)),
                }
            }),
    {
        if !self.is_initialized {
            return Err(PoolError::NotInitialized);
        }
        let r = open_short_position(
            base_resource,
            base_amount,
            face_value,
            current_time,
            &mut self.share_reserves,
            &mut self.bond_reserves,
            self.zeta_adjustment,
            self.share_price,
            &mut self.checkpoints,
            &mut self.current_checkpoint,
            self.checkpoint_duration,
            self.position_duration,
            self.new_bond_fee,
            self.governance_fee,
            self.yield_source,
        );
        proof {
            let after = checkpoint_after(
                old(self).current_checkpoint,
                current_time,
                old(self).checkpoint_duration,
            );
            lemma_ledger_view_keys(old(self).checkpoints@, old(self).current_checkpoint);
            lemma_ledger_view_keys(self.checkpoints@, after);
        }
        r
    }

    /// Closes the short `position` at `current_time`.
    pub fn close_short(
        &mut self,
        position_resource: ResourceAddress,
        position_amount: Decimal,
        position: ShortPosition,
        current_time: u64,
    ) -> (r: Result<PositionClosed, PoolError>)
        ensures
            old(self).well_formed() ==> final(self).well_formed(),
            !old(self).is_initialized || old(self).short_positions_resource is None ==> r == Err::<
                PositionClosed,
                PoolError,
            >(PoolError::NotInitialized) && final(self).unchanged(old(self)),
            old(self).is_initialized && old(self).short_positions_resource is Some ==> ({
                let pool = old(self);
                let error = close_short_error(
                    position_resource@,
                    position_amount@,
                    pool.short_positions_resource->0@,
                    position,
                    current_time,
                    pool.reserves(),
                    pool.ledger(),
                    pool.current_checkpoint,
                    pool.checkpoint_duration,
                    pool.new_bond_fee@,
                    pool.matured_bond_fee@,
                    pool.governance_fee@,
                );
                let tr = time_remaining_units(
                    current_time,
                    position.open_time,
                    position.maturity_time,
                );
                let q = close_quote(
                    position.face_value@,
                    tr,
                    pool.reserves(),
                    pool.new_bond_fee@,
                    pool.matured_bond_fee@,
                    pool.governance_fee@,
                );
                let after = short_close_quote(
                    q,
                    position.face_value@,
                    position.initial_share_price@,
                    pool.reserves(),
                    pool.governance_fee@,
                );
                let l = ledger_after(
                    pool.ledger(),
                    pool.current_checkpoint,
                    current_time,
                    pool.checkpoint_duration,
                    pool.share_price@,
                );
                match r {
                    Ok(out) => {
                        &&& error is None
                        &&& final(self).same_setup(pool)
                        &&& final(self).share_reserves@ == after.share_reserves_after
                        &&& final(self).bond_reserves@ == after.bond_reserves_after
                        &&& final(self).zeta_adjustment@ == after.zeta_adjustment_after
                        &&& final(self).current_checkpoint == checkpoint_after(
                            pool.current_checkpoint,
                            current_time,
                            pool.checkpoint_duration,
                        )
                        &&& final(self).ledger() == ledger_replaced(
                            l,
                            position.checkpoint,
                            short_closed(l[position.checkpoint], position.face_value@, tr),
                        )
                        &&& out.proceeds@ == after.proceeds
                        &&& out.governance_shares@ == q.governance_shares
                    },
                    Err(e) => error == Some(e) && final(self).unchanged(old(self)),
                }
            }),
    {
        if !self.is_initialized {
            return Err(PoolError::NotInitialized);
        }
        let short_positions_resource = match self.short_positions_resource {
            Some(resource) => resource,
            None => {
                return Err(PoolError::NotInitialized);
            },
        };
        let r = close_short_position(
            position_resource,
            position_amount,
            position,
            current_time,
            &mut self.share_reserves,
            &mut self.bond_reserves,
            &mut self.zeta_adjustment,
            self.share_price,
            &mut self.checkpoints,
            &mut self.current_checkpoint,
            self.checkpoint_duration,
            self.new_bond_fee,
            self.matured_bond_fee,
            self.governance_fee,
            short_positions_resource,
        );
        proof {
            let after = checkpoint_after(
                old(self).current_checkpoint,
                current_time,
                old(self).checkpoint_duration,
            );
            lemma_ledger_view_keys(old(self).checkpoints@, old(self).current_checkpoint);
            lemma_ledger_view_keys(self.checkpoints@, after);
        }
        r
    }

    /// Adds `base_amount` of capital to the pool, `active_lp_shares` being
    /// the liquidity shares outstanding; returns the liquidity shares to mint.
    pub fn add_liquidity(
        &mut self,
        base_resource: ResourceAddress,
        base_amount: Decimal,
        active_lp_shares: Decimal,
    ) -> (r: Result<Decimal, PoolError>)
        ensures
            old(self).well_formed() ==> final(self).well_formed(),
            !old(self).is_initialized ==> r == Err::<Decimal, PoolError>(
                PoolError::NotInitialized,
            ) && final(self).unchanged(old(self)),
            old(self).is_initialized ==> ({
                let pool = old(self);
                let error = add_liquidity_error(
                    base_resource@,
                    pool.yield_source@,
                    base_amount@,
                    pool.share_reserves@,
                    pool.bond_reserves@,
                    pool.share_price@,
                    active_lp_shares@,
                );
                match r {
                    Ok(minted) => {
                        &&& error is None
                        &&& minted@ == lp_minted_units(
                            base_amount@,
                            pool.share_reserves@,
                            pool.bond_reserves@,
                            pool.share_price@,
                            active_lp_shares@,
                        )
                        &&& final(self).same_setup(pool)
                        &&& final(self).share_reserves@ == pool.share_reserves@ + div_units(
                            base_amount@,
                            pool.share_price@,
                        )
                        &&& final(self).bond_reserves == pool.bond_reserves
                        &&& final(self).zeta_adjustment == pool.zeta_adjustment
                        &&& final(self).current_checkpoint == pool.current_checkpoint
                        &&& final(self).checkpoints@ == pool.checkpoints@
                    },
                    Err(e) => error == Some(e) && final(self).unchanged(old(self)),
                }
            }),
    {
        if !self.is_initialized {
            return Err(PoolError::NotInitialized);
        }
        add_liquidity(
            base_resource,
            base_amount,
            &mut self.share_reserves,
            self.bond_reserves,
            self.share_price,
            active_lp_shares,
            self.yield_source,
        )
    }

    /// Removes `lp_amount` of liquidity shares from the pool,
    /// `active_lp_shares` being the liquidity shares outstanding.
    pub fn remove_liquidity(
        &mut self,
        lp_resource: ResourceAddress,
        lp_amount: Decimal,
        active_lp_shares: Decimal,
    ) -> (r: Result<LiquidityRemoved, PoolError>)
        ensures
            old(self).well_formed() ==> final(self).well_formed(),
            !old(self).is_initialized || old(self).active_lp_shares_address is None ==> r == Err::<
                LiquidityRemoved,
                PoolError,
            >(PoolError::NotInitialized) && final(self).unchanged(old(self)),
            old(self).is_initialized && old(self).active_lp_shares_address is Some ==> ({
                let pool = old(self);
                let error = remove_liquidity_error(
                    lp_resource@,
                    pool.active_lp_shares_address->0@,
                    lp_amount@,
                    pool.share_reserves@,
                    pool.bond_reserves@,
                    pool.share_price@,
                    active_lp_shares@,
                    pool.min_share_reserves@,
                    pool.term(),
                );
                let q = removal_quote(
                    lp_amount@,
                    pool.share_reserves@,
                    pool.bond_reserves@,
                    pool.share_price@,
                    active_lp_shares@,
                    pool.min_share_reserves@,
                    pool.term().solvency(),
                );
                match r {
                    Ok(out) => {
                        &&& error is None
                        &&& out.base_amount@ == q.immediate
                        &&& out.withdrawal_shares@ == q.withdrawal_shares
                        &&& final(self).same_setup(pool)
                        &&& final(self).share_reserves@ == q.share_reserves_after
                        &&& final(self).bond_reserves == pool.bond_reserves
                        &&& final(self).zeta_adjustment == pool.zeta_adjustment
                        &&& final(self).current_checkpoint == pool.current_checkpoint
                        &&& final(self).checkpoints@ == pool.checkpoints@
                    },
                    Err(e) => error == Some(e) && final(self).unchanged(old(self)),
                }
            }),
    {
        if !self.is_initialized {
            return Err(PoolError::NotInitialized);
        }
        let active_lp_shares_resource = match self.active_lp_shares_address {
            Some(resource) => resource,
            None => {
                return Err(PoolError::NotInitialized);
            },
        };
        remove_liquidity(
            lp_resource,
            lp_amount,
            &mut self.share_reserves,
            self.bond_reserves,
            self.share_price,
            active_lp_shares,
            self.min_share_reserves,
            &self.checkpoints,
            self.current_checkpoint,
            self.checkpoint_duration,
            self.position_duration,
            active_lp_shares_resource,
        )
    }

    /// The pool's state for an outside query, given the liquidity shares,
    /// the withdrawal shares and the ready withdrawal shares outstanding.
    pub fn get_pool_state(
        &self,
        active_lp_shares: Decimal,
        withdrawal_shares: Decimal,
        ready_withdrawal_shares: Decimal,
    ) -> (r: Result<PoolState, PoolError>)
        ensures
            !self.is_initialized ==> r == Err::<PoolState, PoolError>(PoolError::NotInitialized),
            self.is_initialized ==> {
                &&& r is Ok <==> self.reserves().spot_rate_fits()
                &&& r matches Ok(state) ==> {
                    &&& state.share_reserves == self.share_reserves
                    &&& state.bond_reserves == self.bond_reserves
                    &&& state.zeta_adjustment == self.zeta_adjustment
                    &&& state.effective_share_reserves@ == self.reserves().effective()
                    &&& state.share_price == self.share_price
                    &&& state.spot_rate@ == self.reserves().spot_rate()
                    &&& state.active_lp_shares_address == active_lp_shares
                    &&& state.withdrawal_shares_address == withdrawal_shares
                    &&& state.ready_withdrawal_shares_address == ready_withdrawal_shares
                    &&& state.zombie_share_reserves == self.zombie_share_reserves
                    &&& state.zombie_base_reserves == self.zombie_base_reserves
                    &&& state.current_checkpoint == self.current_checkpoint
                }
                &&& r matches Err(e) ==> e == PoolError::ArithmeticOverflow
            },
    {
        if !self.is_initialized {
            return Err(PoolError::NotInitialized);
        }
        get_pool_state(
            self.share_reserves,
            self.bond_reserves,
            self.zeta_adjustment,
            self.share_price,
            active_lp_shares,
            withdrawal_shares,
            ready_withdrawal_shares,
            self.zombie_share_reserves,
            self.zombie_base_reserves,
            self.current_checkpoint,
        )
    }

    /// The share reserves that the curve prices against.
    pub fn effective_share_reserves(&self) -> (r: Result<Decimal, PoolError>)
        ensures
            !self.is_initialized ==> r == Err::<Decimal, PoolError>(PoolError::NotInitialized),
            self.is_initialized ==> {
                &&& r is Ok <==> fits(self.reserves().effective())
                &&& r matches Ok(v) ==> v@ == self.reserves().effective()
                &&& r matches Err(e) ==> e == PoolError::ArithmeticOverflow
            },
    {
        if !self.is_initialized {
            return Err(PoolError::NotInitialized);
        }
        calculate_effective_share_reserves(self.share_reserves, self.zeta_adjustment)
    }

    /// The pool's current spot rate.
    pub fn get_spot_rate(&self) -> (r: Result<Decimal, PoolError>)
        ensures
            !self.is_initialized ==> r == Err::<Decimal, PoolError>(PoolError::NotInitialized),
            self.is_initialized ==> {
                &&& r is Ok <==> self.reserves().spot_rate_fits()
                &&& r matches Ok(v) ==> v@ == self.reserves().spot_rate()
                &&& r matches Err(e) ==> e == PoolError::ArithmeticOverflow
            },
    {
        let effective_shares = self.effective_share_reserves()?;
        calculate_spot_rate(effective_shares, self.bond_reserves, self.share_price)
    }

    /// Takes a new share price from the yield source; a price that is not
    /// positive is refused.
    pub fn update_share_price(&mut self, new_share_price: Decimal) -> (r: Result<(), PoolError>)
        ensures
            old(self).well_formed() ==> final(self).well_formed(),
            !old(self).is_initialized ==> r == Err::<(), PoolError>(PoolError::NotInitialized)
                && final(self).unchanged(old(self)),
            old(self).is_initialized ==> {
                &&& r is Ok <==> new_share_price@ > 0
                &&& r is Ok ==> *final(self) == (HyperdrivePool {
                    share_price: new_share_price,
                    ..*old(self)
                })
                &&& r matches Err(e) ==> e == PoolError::InvalidParameter && final(self).unchanged(
                    old(self),
                )
            },
    {
        if !self.is_initialized {
            return Err(PoolError::NotInitialized);
        }
        update_share_price_from_yield_source(new_share_price, &mut self.share_price)
    }

    /// The amount to sweep out of the governance sink holding
    /// `governance_balance`, for a proof of the asset `proof_resource`: all
    /// of it where the proof is of the admin badge.
    pub fn withdraw_governance_fees(
        &self,
        proof_resource: ResourceAddress,
        governance_balance: Decimal,
    ) -> (r: Result<Decimal, PoolError>)
        ensures
            r == if !self.is_initialized {
                Err::<Decimal, PoolError>(PoolError::NotInitialized)
            } else if proof_resource@ == self.admin_badge@ {
                Ok::<Decimal, PoolError>(governance_balance)
            } else {
                Err::<Decimal, PoolError>(PoolError::ResourceMismatch)
            },
    {
        if !self.is_initialized {
            return Err(PoolError::NotInitialized);
        }
        withdraw_governance_fees(self.admin_badge, proof_resource, governance_balance)
    }

    /// Number of pools created so far.
    pub fn get_pool_count(&self) -> (r: u64)
        ensures
            r == self.pool_counter,
    {
        self.pool_counter
    }
}

} // verus!
