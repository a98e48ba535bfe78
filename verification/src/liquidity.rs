//! Liquidity: adding and removing it, sweeping idle liquidity into withdrawal
//! shares that are ready to be redeemed, redeeming them, and taking the share
//! price from the yield source.
//!
//! What liquidity providers are owed beyond what the pool can pay without
//! breaking the solvency of its checkpoints is issued as withdrawal shares.

use crate::constants::min_liquidity;
use crate::curves::{calculate_lp_present_value, lp_present_value_fits, lp_present_value_units};
use crate::decimal::{div_units, fits, fits_rounded, mul_units, scale, Decimal};
use crate::error::PoolError;
use crate::events::{calculate_solvency_requirement, solvency_fits, solvency_units};
use crate::helpers::{validate_liquidity_amount, validate_resource_address};
use crate::types::{ledger_view, Checkpoint, CheckpointView, ResourceAddress};
use std::collections::HashMap;
use vstd::prelude::*;

verus! {

/// The larger of two numbers.
pub open spec fn larger(a: int, b: int) -> int {
    if a >= b {
        a
    } else {
        b
    }
}

/// The smaller of two numbers.
pub open spec fn smaller(a: int, b: int) -> int {
    if a <= b {
        a
    } else {
        b
    }
}

/// The checkpoints of one pool as the solvency requirement reads them.
pub struct Term {
    pub ledger: Map<u64, CheckpointView>,
    pub current_checkpoint: u64,
    pub checkpoint_duration: u64,
    pub position_duration: u64,
}

impl Term {
    /// Number of checkpoints in one term.
    pub open spec fn steps(self) -> nat {
        (self.position_duration / self.checkpoint_duration) as nat
    }

    /// The solvency requirement over the term.
    pub open spec fn solvency(self) -> int {
        solvency_units(self.ledger, self.current_checkpoint, self.checkpoint_duration, self.steps())
    }

    /// Whether the solvency requirement over the term is computed in range.
    pub open spec fn solvency_fits(self) -> bool {
        solvency_fits(self.ledger, self.current_checkpoint, self.checkpoint_duration, self.steps())
    }
}

/// The term that a ledger and the pool's three time parameters describe.
pub open spec fn term_of(
    checkpoints: Map<u64, Checkpoint>,
    current_checkpoint: u64,
    checkpoint_duration: u64,
    position_duration: u64,
) -> Term {
    Term {
        ledger: ledger_view(checkpoints),
        current_checkpoint,
        checkpoint_duration,
        position_duration,
    }
}

/// Liquidity shares minted for `base` of capital: the capital in shares for
/// the first provider, else its value at the share price over the present
/// value of one liquidity share.
pub open spec fn lp_minted_units(base: int, z: int, y: int, c: int, supply: int) -> int {
    if supply <= 0 {
        div_units(base, c)
    } else {
        div_units(mul_units(div_units(base, c), c), lp_present_value_units(z, y, c, supply))
    }
}

/// Whether each step of adding liquidity stays in range.
pub open spec fn add_liquidity_fits(base: int, z: int, y: int, c: int, supply: int) -> bool {
    &&& c != 0
    &&& fits_rounded(div_units(base, c))
    &&& supply > 0 ==> {
        &&& lp_present_value_fits(z, y, c, supply)
        &&& fits_rounded(mul_units(div_units(base, c), c))
        &&& lp_present_value_units(z, y, c, supply) != 0
        &&& fits_rounded(lp_minted_units(base, z, y, c, supply))
    }
    &&& fits(z + div_units(base, c))
}

/// Why adding liquidity fails, if it does.
pub open spec fn add_liquidity_error(
    base_resource: Seq<u8>,
    yield_source: Seq<u8>,
    base: int,
    z: int,
    y: int,
    c: int,
    supply: int,
) -> Option<PoolError> {
    if base_resource != yield_source {
        Some(PoolError::ResourceMismatch)
    } else if base < scale() {
        Some(PoolError::InvalidParameter)
    } else if !add_liquidity_fits(base, z, y, c, supply) {
        Some(PoolError::ArithmeticOverflow)
    } else {
        None
    }
}

/// Adds `base_amount` of capital to the pool; returns the liquidity shares to
/// mint for it. The share reserves grow by the capital in shares.
pub fn add_liquidity(
    base_resource: ResourceAddress,
    base_amount: Decimal,
    share_reserves: &mut Decimal,
    bond_reserves: Decimal,
    share_price: Decimal,
    active_lp_shares: Decimal,
    yield_source: ResourceAddress,
) -> (r: Result<Decimal, PoolError>)
    ensures
        ({
            let error = add_liquidity_error(
                base_resource@,
                yield_source@,
                base_amount@,
                old(share_reserves)@,
                bond_reserves@,
                share_price@,
                active_lp_shares@,
            );
            match r {
                Ok(minted) => {
                    &&& error is None
                    &&& minted@ == lp_minted_units(
                        base_amount@,
                        old(share_reserves)@,
                        bond_reserves@,
                        share_price@,
                        active_lp_shares@,
                    )
                    &&& final(share_reserves)@ == old(share_reserves)@ + div_units(
                        base_amount@,
                        share_price@,
                    )
                },
                Err(e) => error == Some(e) && *final(share_reserves) == *old(share_reserves),
            }
        }),
{
    validate_resource_address(base_resource, yield_source)?;
    validate_liquidity_amount(base_amount, min_liquidity())?;
    let z = *share_reserves;
    let share_amount = base_amount.try_div(share_price)?;
    let lp_tokens_to_mint = if active_lp_shares.le(Decimal::zero()) {
        share_amount
    } else {
        let lp_present_value = calculate_lp_present_value(
            z,
            bond_reserves,
            share_price,
            active_lp_shares,
        )?;
        let value = share_amount.try_mul(share_price)?;
        value.try_div(lp_present_value)?
    };
    let new_share_reserves = z.try_add(share_amount)?;
    *share_reserves = new_share_reserves;
    Ok(lp_tokens_to_mint)
}

/// What removing liquidity does, in units.
pub struct RemovalQuote {
    /// Value owed for the liquidity shares.
    pub owed: int,
    /// Value that the pool can pay now: what the share reserves hold above
    /// their floor and the solvency requirement, at the share price.
    pub available: int,
    /// Paid now: the smaller of the two.
    pub immediate: int,
    /// Owed beyond that, issued as withdrawal shares.
    pub withdrawal_shares: int,
    pub share_reserves_after: int,
}

/// The quote for removing `lp_amount` of liquidity shares.
pub open spec fn removal_quote(
    lp_amount: int,
    z: int,
    y: int,
    c: int,
    supply: int,
    min_share_reserves: int,
    solvency: int,
) -> RemovalQuote {
    let owed = mul_units(lp_amount, lp_present_value_units(z, y, c, supply));
    let available = mul_units(larger(z - min_share_reserves - div_units(solvency, c), 0), c);
    let immediate = smaller(owed, available);
    RemovalQuote {
        owed,
        available,
        immediate,
        withdrawal_shares: owed - immediate,
        share_reserves_after: if immediate > 0 {
            z - div_units(immediate, c)
        } else {
            z
        },
    }
}

/// Whether each step of removing liquidity stays in range.
pub open spec fn removal_quote_fits(
    lp_amount: int,
    z: int,
    y: int,
    c: int,
    supply: int,
    min_share_reserves: int,
    solvency: int,
) -> bool {
    let q = removal_quote(lp_amount, z, y, c, supply, min_share_reserves, solvency);
    &&& lp_present_value_fits(z, y, c, supply)
    &&& fits_rounded(q.owed)
    &&& c != 0
    &&& fits_rounded(div_units(solvency, c))
    &&& fits(z - min_share_reserves)
    &&& fits(z - min_share_reserves - div_units(solvency, c))
    &&& fits_rounded(q.available)
    &&& fits(q.withdrawal_shares)
    &&& q.immediate > 0 ==> fits_rounded(div_units(q.immediate, c)) && fits(q.share_reserves_after)
}

/// Why removing liquidity fails, if it does.
pub open spec fn remove_liquidity_error(
    lp_resource: Seq<u8>,
    active_lp_shares_resource: Seq<u8>,
    lp_amount: int,
    z: int,
    y: int,
    c: int,
    supply: int,
    min_share_reserves: int,
    term: Term,
) -> Option<PoolError> {
    if lp_resource != active_lp_shares_resource {
        Some(PoolError::ResourceMismatch)
    } else if lp_amount <= 0 || term.checkpoint_duration == 0 {
        Some(PoolError::InvalidParameter)
    } else if lp_amount > supply {
        Some(PoolError::InsufficientBalance)
    } else if !term.solvency_fits() || !removal_quote_fits(
        lp_amount,
        z,
        y,
        c,
        supply,
        min_share_reserves,
        term.solvency(),
    ) {
        Some(PoolError::ArithmeticOverflow)
    } else {
        None
    }
}

/// What removing liquidity hands back: the capital to pay out now and the
/// withdrawal shares to mint for the rest. The liquidity shares are burnt.
#[derive(Clone, Copy, Debug, PartialEq, Eq, Structural)]
pub struct LiquidityRemoved {
    pub base_amount: Decimal,
    pub withdrawal_shares: Decimal,
}

/// Removes `lp_amount` of liquidity shares from the pool.
///
/// The shares are owed their present value. The pool pays now what its share
/// reserves hold above their floor and the solvency requirement of the
/// checkpoints in term; the rest is owed as withdrawal shares. The share
/// reserves fall by what is paid, in shares.
pub fn remove_liquidity(
    lp_resource: ResourceAddress,
    lp_amount: Decimal,
    share_reserves: &mut Decimal,
    bond_reserves: Decimal,
    share_price: Decimal,
    active_lp_shares: Decimal,
    min_share_reserves: Decimal,
    checkpoints: &HashMap<u64, Checkpoint>,
    current_checkpoint: u64,
    checkpoint_duration: u64,
    position_duration: u64,
    active_lp_shares_resource: ResourceAddress,
) -> (r: Result<LiquidityRemoved, PoolError>)
    ensures
        ({
            let term = term_of(
                checkpoints@,
                current_checkpoint,
                checkpoint_duration,
                position_duration,
            );
            let error = remove_liquidity_error(
                lp_resource@,
                active_lp_shares_resource@,
                lp_amount@,
                old(share_reserves)@,
                bond_reserves@,
                share_price@,
                active_lp_shares@,
                min_share_reserves@,
                term,
            );
            let q = removal_quote(
                lp_amount@,
                old(share_reserves)@,
                bond_reserves@,
                share_price@,
                active_lp_shares@,
                min_share_reserves@,
                term.solvency(),
            );
            match r {
                Ok(out) => {
                    &&& error is None
                    &&& out.base_amount@ == q.immediate
                    &&& out.withdrawal_shares@ == q.withdrawal_shares
                    &&& out.withdrawal_shares@ >= 0
                    &&& out.base_amount@ + out.withdrawal_shares@ == q.owed
                    &&& final(share_reserves)@ == q.share_reserves_after
                    &&& final(share_reserves)@ >= smaller(
                        old(share_reserves)@,
                        min_share_reserves@ + div_units(term.solvency(), share_price@),
                    )
                },
                Err(e) => error == Some(e) && *final(share_reserves) == *old(share_reserves),
            }
        }),
{
    let zero = Decimal::zero();
    validate_resource_address(lp_resource, active_lp_shares_resource)?;
    if lp_amount.le(zero) || checkpoint_duration == 0 {
        return Err(PoolError::InvalidParameter);
    }
    if lp_amount.gt(active_lp_shares) {
        return Err(PoolError::InsufficientBalance);
    }
    let z = *share_reserves;
    let solvency_requirement = calculate_solvency_requirement(
        checkpoints,
        current_checkpoint,
        checkpoint_duration,
        position_duration,
    )?;
    proof {
        lemma_removal_keeps_the_floor(
            lp_amount@,
            z@,
            bond_reserves@,
            share_price@,
            active_lp_shares@,
            min_share_reserves@,
            solvency_requirement@,
        );
    }
    let lp_present_value = calculate_lp_present_value(
        z,
        bond_reserves,
        share_price,
        active_lp_shares,
    )?;
    let total_value_to_withdraw = lp_amount.try_mul(lp_present_value)?;
    let solvency_shares = solvency_requirement.try_div(share_price)?;
    let above_floor = z.try_sub(min_share_reserves)?;
    let free_shares = above_floor.try_sub(solvency_shares)?;
    let available_share_value = free_shares.max(zero).try_mul(share_price)?;
    let immediate_withdrawal = total_value_to_withdraw.min(available_share_value);
    let withdrawal_shares_amount = total_value_to_withdraw.try_sub(immediate_withdrawal)?;
    if immediate_withdrawal.gt(zero) {
        let paid_shares = immediate_withdrawal.try_div(share_price)?;
        let new_share_reserves = z.try_sub(paid_shares)?;
        *share_reserves = new_share_reserves;
    }
    Ok(
        LiquidityRemoved {
            base_amount: immediate_withdrawal,
            withdrawal_shares: withdrawal_shares_amount,
        },
    )
}

/// Idle liquidity, in shares: what the share reserves hold above the solvency
/// requirement, but no more than they hold above their floor.
pub open spec fn idle_liquidity_units(
    z: int,
    c: int,
    min_share_reserves: int,
    solvency: int,
) -> int {
    smaller(larger(z - div_units(solvency, c), 0), z - min_share_reserves)
}

/// Whether each step of the idle liquidity stays in range.
pub open spec fn idle_liquidity_fits(
    z: int,
    c: int,
    min_share_reserves: int,
    solvency: int,
) -> bool {
    &&& c != 0
    &&& fits_rounded(div_units(solvency, c))
    &&& fits(z - div_units(solvency, c))
    &&& fits(z - min_share_reserves)
}

/// Why computing the idle liquidity fails, if it does.
pub open spec fn idle_liquidity_error(
    z: int,
    c: int,
    min_share_reserves: int,
    term: Term,
) -> Option<PoolError> {
    if term.checkpoint_duration == 0 {
        Some(PoolError::InvalidParameter)
    } else if !term.solvency_fits() || !idle_liquidity_fits(
        z,
        c,
        min_share_reserves,
        term.solvency(),
    ) {
        Some(PoolError::ArithmeticOverflow)
    } else {
        None
    }
}

/// The pool's idle liquidity: the shares that the reserves hold beyond the
/// solvency requirement and beyond their floor. It never exceeds what the
/// share reserves hold above the floor.
pub fn calculate_idle_liquidity(
    share_reserves: Decimal,
    share_price: Decimal,
    min_share_reserves: Decimal,
    checkpoints: &HashMap<u64, Checkpoint>,
    current_checkpoint: u64,
    checkpoint_duration: u64,
    position_duration: u64,
) -> (r: Result<Decimal, PoolError>)
    ensures
        ({
            let term = term_of(
                checkpoints@,
                current_checkpoint,
                checkpoint_duration,
                position_duration,
            );
            let error = idle_liquidity_error(
                share_reserves@,
                share_price@,
                min_share_reserves@,
                term,
            );
            match r {
                Ok(idle) => {
                    &&& error is None
                    &&& idle@ == idle_liquidity_units(
                        share_reserves@,
                        share_price@,
                        min_share_reserves@,
                        term.solvency(),
                    )
                    &&& idle@ <= share_reserves@ - min_share_reserves@
                },
                Err(e) => error == Some(e),
            }
        }),
{
    let solvency_requirement = calculate_solvency_requirement(
        checkpoints,
        current_checkpoint,
        checkpoint_duration,
        position_duration,
    )?;
    let solvency_shares = solvency_requirement.try_div(share_price)?;
    let free_shares = share_reserves.try_sub(solvency_shares)?;
    let above_floor = share_reserves.try_sub(min_share_reserves)?;
    Ok(free_shares.max(Decimal::zero()).min(above_floor))
}

/// What sweeping the idle liquidity does, in units.
pub struct SweepQuote {
    /// The idle liquidity at the share price, in capital.
    pub idle: int,
    /// That capital turned back into shares: what leaves the reserves.
    pub idle_shares: int,
    /// Withdrawal shares that become ready: those that the idle liquidity
    /// covers, but no more than are outstanding.
    pub ready: int,
    /// What is left of the share reserves over what they were.
    pub share_ratio: int,
    pub share_reserves_after: int,
    pub bond_reserves_after: int,
    pub zeta_adjustment_after: int,
}

/// The quote for sweeping the idle liquidity.
pub open spec fn sweep_quote(
    z: int,
    y: int,
    zeta: int,
    c: int,
    withdrawal_shares: int,
    supply: int,
    min_share_reserves: int,
    solvency: int,
) -> SweepQuote {
    let idle = mul_units(idle_liquidity_units(z, c, min_share_reserves, solvency), c);
    let idle_shares = div_units(idle, c);
    let covered = div_units(
        mul_units(idle_shares, withdrawal_shares),
        lp_present_value_units(z, y, c, supply),
    );
    let left = z - idle_shares;
    let share_ratio = div_units(left, left + idle_shares);
    SweepQuote {
        idle,
        idle_shares,
        ready: smaller(covered, withdrawal_shares),
        share_ratio,
        share_reserves_after: left,
        bond_reserves_after: mul_units(y, share_ratio),
        zeta_adjustment_after: mul_units(zeta, share_ratio),
    }
}

/// Whether a sweep has anything to do: withdrawal shares are outstanding,
/// liquidity is idle, and it covers some of them.
pub open spec fn sweep_distributes(q: SweepQuote, withdrawal_shares: int) -> bool {
    withdrawal_shares > 0 && q.idle > 0 && q.ready > 0
}

/// Whether each step that a sweep takes stays in range.
pub open spec fn sweep_quote_fits(
    z: int,
    y: int,
    zeta: int,
    c: int,
    withdrawal_shares: int,
    supply: int,
    min_share_reserves: int,
    solvency: int,
) -> bool {
    let q = sweep_quote(z, y, zeta, c, withdrawal_shares, supply, min_share_reserves, solvency);
    let present_value = lp_present_value_units(z, y, c, supply);
    &&& idle_liquidity_fits(z, c, min_share_reserves, solvency)
    &&& fits_rounded(q.idle)
    &&& withdrawal_shares > 0 && q.idle > 0 ==> {
        &&& lp_present_value_fits(z, y, c, supply)
        &&& fits_rounded(q.idle_shares)
        &&& fits_rounded(mul_units(q.idle_shares, withdrawal_shares))
        &&& present_value != 0
        &&& fits_rounded(div_units(mul_units(q.idle_shares, withdrawal_shares), present_value))
        &&& q.ready > 0 ==> {
            &&& fits(q.share_reserves_after)
            &&& fits(q.share_reserves_after + q.idle_shares)
            &&& q.share_reserves_after + q.idle_shares != 0
            &&& fits_rounded(q.share_ratio)
            &&& fits_rounded(q.zeta_adjustment_after)
            &&& fits_rounded(q.bond_reserves_after)
        }
    }
}

/// Why a sweep fails, if it does.
pub open spec fn sweep_error(
    z: int,
    y: int,
    zeta: int,
    c: int,
    withdrawal_shares: int,
    supply: int,
    min_share_reserves: int,
    term: Term,
) -> Option<PoolError> {
    if term.checkpoint_duration == 0 {
        Some(PoolError::InvalidParameter)
    } else if !term.solvency_fits() || !sweep_quote_fits(
        z,
        y,
        zeta,
        c,
        withdrawal_shares,
        supply,
        min_share_reserves,
        term.solvency(),
    ) {
        Some(PoolError::ArithmeticOverflow)
    } else {
        None
    }
}

/// Sweeps the idle liquidity out of the reserves and makes withdrawal shares
/// ready for it. Returns `(capital swept, withdrawal shares made ready)`: the
/// idle liquidity valued at the share price, and the ready shares to mint.
/// Both are zero, and nothing changes, where no withdrawal shares are
/// outstanding, no liquidity is idle, or it covers none of them.
///
/// The share reserves fall by the shares that the capital swept is worth; the
/// bond reserves and the zeta adjustment are scaled by the same ratio, which
/// keeps the spot price.
pub fn distribute_excess_idle_liquidity(
    share_reserves: &mut Decimal,
    bond_reserves: &mut Decimal,
    zeta_adjustment: &mut Decimal,
    share_price: Decimal,
    withdrawal_shares: Decimal,
    active_lp_shares: Decimal,
    min_share_reserves: Decimal,
    checkpoints: &HashMap<u64, Checkpoint>,
    current_checkpoint: u64,
    checkpoint_duration: u64,
    position_duration: u64,
) -> (r: Result<(Decimal, Decimal), PoolError>)
    ensures
        ({
            let term = term_of(
                checkpoints@,
                current_checkpoint,
                checkpoint_duration,
                position_duration,
            );
            let error = sweep_error(
                old(share_reserves)@,
                old(bond_reserves)@,
                old(zeta_adjustment)@,
                share_price@,
                withdrawal_shares@,
                active_lp_shares@,
                min_share_reserves@,
                term,
            );
            let q = sweep_quote(
                old(share_reserves)@,
                old(bond_reserves)@,
                old(zeta_adjustment)@,
                share_price@,
                withdrawal_shares@,
                active_lp_shares@,
                min_share_reserves@,
                term.solvency(),
            );
            match r {
                Ok(swept) => {
                    &&& error is None
                    &&& if sweep_distributes(q, withdrawal_shares@) {
                        &&& swept.0@ == q.idle
                        &&& swept.1@ == q.ready
                        &&& final(share_reserves)@ == q.share_reserves_after
                        &&& final(bond_reserves)@ == q.bond_reserves_after
                        &&& final(zeta_adjustment)@ == q.zeta_adjustment_after
                        &&& share_price@ > 0 ==> final(share_reserves)@ >= larger(
                            min_share_reserves@,
                            div_units(term.solvency(), share_price@),
                        )
                    } else {
                        &&& swept.0@ == 0
                        &&& swept.1@ == 0
                        &&& *final(share_reserves) == *old(share_reserves)
                        &&& *final(bond_reserves) == *old(bond_reserves)
                        &&& *final(zeta_adjustment) == *old(zeta_adjustment)
                    }
                },
                Err(e) => {
                    &&& error == Some(e)
                    &&& *final(share_reserves) == *old(share_reserves)
                    &&& *final(bond_reserves) == *old(bond_reserves)
                    &&& *final(zeta_adjustment) == *old(zeta_adjustment)
                },
            }
        }),
{
    let zero = Decimal::zero();
    let z = *share_reserves;
    let y = *bond_reserves;
    let zeta = *zeta_adjustment;
    let idle = calculate_idle_liquidity(
        z,
        share_price,
        min_share_reserves,
        checkpoints,
        current_checkpoint,
        checkpoint_duration,
        position_duration,
    )?;
    let idle_liquidity = idle.try_mul(share_price)?;
    if withdrawal_shares.le(zero) || idle_liquidity.le(zero) {
        return Ok((zero, zero));
    }
    let lp_present_value = calculate_lp_present_value(z, y, share_price, active_lp_shares)?;
    let idle_shares = idle_liquidity.try_div(share_price)?;
    let claim = idle_shares.try_mul(withdrawal_shares)?;
    let max_withdrawal_shares = claim.try_div(lp_present_value)?;
    let ready_withdrawal_shares = max_withdrawal_shares.min(withdrawal_shares);
    if ready_withdrawal_shares.le(zero) {
        return Ok((zero, zero));
    }
    proof {
        if share_price@ > 0 {
            lemma_sweep_keeps_the_floor(
                z@,
                y@,
                zeta@,
                share_price@,
                withdrawal_shares@,
                active_lp_shares@,
                min_share_reserves@,
                term_of(
                    checkpoints@,
                    current_checkpoint,
                    checkpoint_duration,
                    position_duration,
                ).solvency(),
            );
        }
    }
    let new_share_reserves = z.try_sub(idle_shares)?;
    let before = new_share_reserves.try_add(idle_shares)?;
    let share_ratio = new_share_reserves.try_div(before)?;
    let new_zeta_adjustment = zeta.try_mul(share_ratio)?;
    let new_bond_reserves = y.try_mul(share_ratio)?;
    *share_reserves = new_share_reserves;
    *zeta_adjustment = new_zeta_adjustment;
    *bond_reserves = new_bond_reserves;
    Ok((idle_liquidity, ready_withdrawal_shares))
}

/// Why redeeming withdrawal shares fails, if it does.
pub open spec fn redeem_error(
    resource: Seq<u8>,
    withdrawal_shares_resource: Seq<u8>,
    amount: int,
    ready: int,
    c: int,
) -> Option<PoolError> {
    if resource != withdrawal_shares_resource {
        Some(PoolError::ResourceMismatch)
    } else if ready <= 0 {
        Some(PoolError::InsufficientBalance)
    } else if !fits_rounded(mul_units(smaller(amount, ready), c)) {
        Some(PoolError::ArithmeticOverflow)
    } else {
        None
    }
}

/// What redeeming withdrawal shares hands back: the ready shares to burn and
/// the capital to pay out. The withdrawal shares handed in are burnt whole.
#[derive(Clone, Copy, Debug, PartialEq, Eq, Structural)]
pub struct Redemption {
    pub redeemed: Decimal,
    pub base_amount: Decimal,
}

/// Redeems `withdrawal_amount` of withdrawal shares against the
/// `ready_withdrawal_shares_amount` that are ready: as many as are ready are
/// redeemed, each for the share price.
pub fn redeem_withdrawal_shares(
    withdrawal_resource: ResourceAddress,
    withdrawal_amount: Decimal,
    ready_withdrawal_shares_amount: Decimal,
    share_price: Decimal,
    withdrawal_shares_resource: ResourceAddress,
) -> (r: Result<Redemption, PoolError>)
    ensures
        ({
            let error = redeem_error(
                withdrawal_resource@,
                withdrawal_shares_resource@,
                withdrawal_amount@,
                ready_withdrawal_shares_amount@,
                share_price@,
            );
            match r {
                Ok(out) => {
                    &&& error is None
                    &&& out.redeemed@ == smaller(
                        withdrawal_amount@,
                        ready_withdrawal_shares_amount@,
                    )
                    &&& out.base_amount@ == mul_units(out.redeemed@, share_price@)
                },
                Err(e) => error == Some(e),
            }
        }),
{
    validate_resource_address(withdrawal_resource, withdrawal_shares_resource)?;
    if ready_withdrawal_shares_amount.le(Decimal::zero()) {
        return Err(PoolError::InsufficientBalance);
    }
    let max_redemption = withdrawal_amount.min(ready_withdrawal_shares_amount);
    let base_tokens_amount = max_redemption.try_mul(share_price)?;
    Ok(Redemption { redeemed: max_redemption, base_amount: base_tokens_amount })
}

/// Takes a new share price from the yield source; a price that is not
/// positive is refused and the old one stays.
pub fn update_share_price_from_yield_source(
    new_share_price: Decimal,
    share_price: &mut Decimal,
) -> (r: Result<(), PoolError>)
    ensures
        r is Ok <==> new_share_price@ > 0,
        r is Ok ==> *final(share_price) == new_share_price,
        r matches Err(e) ==> e == PoolError::InvalidParameter && *final(share_price) == *old(
            share_price,
        ),
{
    if new_share_price.gt(Decimal::zero()) {
        *share_price = new_share_price;
        Ok(())
    } else {
        Err(PoolError::InvalidParameter)
    }
}

/// The amount to sweep out of the governance sink holding
/// `governance_balance`, for a proof of the asset `proof_resource`: all of
/// it where the proof is of the admin badge. That the proof is genuine is for
/// whoever keeps the sink to see to.
pub fn withdraw_governance_fees(
    admin_badge: ResourceAddress,
    proof_resource: ResourceAddress,
    governance_balance: Decimal,
) -> (r: Result<Decimal, PoolError>)
    ensures
        r == if proof_resource@ == admin_badge@ {
            Ok::<Decimal, PoolError>(governance_balance)
        } else {
            Err::<Decimal, PoolError>(PoolError::ResourceMismatch)
        },
{
    validate_resource_address(proof_resource, admin_badge)?;
    Ok(governance_balance)
}

/// Valuing an amount that is not negative at a positive price and turning
/// the value back into the amount loses to rounding, and never gains.
proof fn lemma_value_turned_back(x: int, c: int)
    requires
        x >= 0,
        c > 0,
    ensures
        0 <= mul_units(x, c),
        0 <= div_units(mul_units(x, c), c) <= x,
        forall|v: int| 0 <= v <= mul_units(x, c) ==> 0 <= #[trigger] div_units(v, c) <= x,
{
    reveal(mul_units);
    reveal(div_units);
    let s = scale();
    let m = (x * c) / s;
    assert(x * c >= 0 && m >= 0 && m * s <= x * c) by (nonlinear_arith)
        requires
            x >= 0,
            c > 0,
            s > 0,
            m == (x * c) / s,
    ;
    assert forall|v: int| 0 <= v <= m implies 0 <= #[trigger] div_units(v, c) <= x by {
        assert(v * s >= 0 && v * s <= x * c && (v * s) / c <= (x * c) / c && (x * c) / c == x && (v
            * s) / c >= 0) by (nonlinear_arith)
            requires
                0 <= v <= m,
                m * s <= x * c,
                c > 0,
                s > 0,
                x >= 0,
        ;
    }
}

/// Removing liquidity never takes the share reserves below their floor plus
/// the solvency requirement in shares: what is paid at once comes out of what
/// the reserves hold above the two, and reserves that are below stay as they
/// are.
pub proof fn lemma_removal_keeps_the_floor(
    lp_amount: int,
    z: int,
    y: int,
    c: int,
    supply: int,
    min_share_reserves: int,
    solvency: int,
)
    ensures
        removal_quote(
            lp_amount,
            z,
            y,
            c,
            supply,
            min_share_reserves,
            solvency,
        ).share_reserves_after >= smaller(z, min_share_reserves + div_units(solvency, c)),
{
    let q = removal_quote(lp_amount, z, y, c, supply, min_share_reserves, solvency);
    let free = larger(z - min_share_reserves - div_units(solvency, c), 0);
    if q.immediate > 0 {
        if c > 0 {
            lemma_value_turned_back(free, c);
            assert(div_units(q.immediate, c) <= free);
        } else {
            lemma_mul_units_sign(free, c);
        }
    }
}

/// A product of two amounts of which one is not negative and the other not
/// positive is not positive.
proof fn lemma_mul_units_sign(x: int, c: int)
    ensures
        x >= 0 && c <= 0 ==> mul_units(x, c) <= 0,
        x >= 0 && c >= 0 ==> mul_units(-x, c) <= 0,
{
    reveal(mul_units);
    let s = scale();
    if x >= 0 && c <= 0 {
        assert(x * c <= 0 && (x * c < 0 ==> (-(x * c)) / s >= 0) && (x * c == 0 ==> (x * c) / s
            == 0)) by (nonlinear_arith)
            requires
                x >= 0,
                c <= 0,
                s > 0,
        ;
    }
    if x >= 0 && c >= 0 {
        assert((-x) * c <= 0 && ((-x) * c < 0 ==> (-((-x) * c)) / s >= 0) && ((-x) * c == 0 ==> ((
        -x) * c) / s == 0)) by (nonlinear_arith)
            requires
                x >= 0,
                c >= 0,
                s > 0,
        ;
    }
}

/// At a positive share price, a sweep that distributes leaves the share
/// reserves at or above both their floor and the solvency requirement in
/// shares.
pub proof fn lemma_sweep_keeps_the_floor(
    z: int,
    y: int,
    zeta: int,
    c: int,
    withdrawal_shares: int,
    supply: int,
    min_share_reserves: int,
    solvency: int,
)
    requires
        c > 0,
        sweep_distributes(
            sweep_quote(z, y, zeta, c, withdrawal_shares, supply, min_share_reserves, solvency),
            withdrawal_shares,
        ),
    ensures
        sweep_quote(
            z,
            y,
            zeta,
            c,
            withdrawal_shares,
            supply,
            min_share_reserves,
            solvency,
        ).share_reserves_after >= larger(min_share_reserves, div_units(solvency, c)),
{
    let shares = idle_liquidity_units(z, c, min_share_reserves, solvency);
    if shares > 0 {
        lemma_value_turned_back(shares, c);
    } else {
        lemma_mul_units_sign(-shares, c);
    }
}

/// Idle liquidity never exceeds what the share reserves hold above their
/// floor, whatever the share price and the solvency requirement.
pub proof fn lemma_idle_liquidity_bounded(
    share_reserves: int,
    share_price: int,
    min_share_reserves: int,
    solvency: int,
)
    ensures
        idle_liquidity_units(share_reserves, share_price, min_share_reserves, solvency)
            <= share_reserves - min_share_reserves,
{
}

} // verus!
