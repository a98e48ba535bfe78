//! The life of a position: opening and closing longs and shorts against the
//! pool's reserves and its checkpoint ledger.
//!
//! Each operation quotes on the curve, splits the fee, and only then changes
//! the reserves and the ledger: an operation that fails changes nothing.
//! Moving assets and issuing position tokens is the caller's part; an
//! operation hands back the amounts to move and the record to issue.

use crate::curves::{
    calculate_long_face_value, calculate_position_fees, calculate_short_deposit, drains_bonds,
    lemma_div_units_by_one, lemma_mul_units_by_one_and_zero, long_face_value_fits,
    long_face_value_units, matured_bond_fee_units, matured_units, maturity_pricing_delta_z,
    maturity_pricing_fits, maturity_pricing_units, new_bond_fee_units, position_fees_fit,
    position_impact_fits, position_impact_units, quote_position_impact, short_deposit_fits,
    short_deposit_units, unmatured_units,
};
use crate::decimal::{div_units, fits, fits_rounded, mul_units, scale, Decimal};
use crate::error::PoolError;
use crate::events::{
    advance_and_replace, checkpoint_after, checkpoint_at, ledger_after, ledger_replaced,
    long_closed, long_opened, long_opened_fits, short_closed, short_opened, short_opened_fits,
};
use crate::helpers::{
    calculate_current_checkpoint, calculate_effective_share_reserves, calculate_spot_rate,
    calculate_time_remaining,
    spot_rate_fits, spot_rate_units, time_remaining_units, validate_resource_address,
    validate_single_nft,
};
use crate::types::{
    ledger_view, lemma_ledger_view_keys, Checkpoint, CheckpointView, LongPosition,
    ResourceAddress, ShortPosition,
};
use std::collections::HashMap;
use vstd::prelude::*;

verus! {

/// The reserves that a quote is made against, each amount in units.
pub struct Reserves {
    pub share_reserves: int,
    pub bond_reserves: int,
    pub zeta_adjustment: int,
    pub share_price: int,
}

impl Reserves {
    /// Share reserves that the curve prices against.
    pub open spec fn effective(self) -> int {
        self.share_reserves - self.zeta_adjustment
    }

    /// The spot rate of the reserves.
    pub open spec fn spot_rate(self) -> int {
        spot_rate_units(self.effective(), self.bond_reserves, self.share_price)
    }

    /// Whether the effective reserves and each step of the spot rate stay in range.
    pub open spec fn spot_rate_fits(self) -> bool {
        fits(self.effective()) && spot_rate_fits(
            self.effective(),
            self.bond_reserves,
            self.share_price,
        )
    }
}

/// Part of a fee that goes to governance: `fee * governance_fee`.
pub open spec fn governance_part(fee: int, governance_fee: int) -> int {
    mul_units(fee, governance_fee)
}

/// Part of a fee that stays with the liquidity providers.
pub open spec fn lp_part(fee: int, governance_fee: int) -> int {
    fee - governance_part(fee, governance_fee)
}

/// Shares that are moved to the governance sink for a fee: the governance
/// part at the share price, and nothing where that part is not positive.
pub open spec fn governance_shares(fee: int, governance_fee: int, share_price: int) -> int {
    if governance_part(fee, governance_fee) > 0 {
        div_units(governance_part(fee, governance_fee), share_price)
    } else {
        0
    }
}

/// Whether each step of splitting a fee stays in range.
pub open spec fn fee_split_fits(fee: int, governance_fee: int, share_price: int) -> bool {
    &&& fits_rounded(governance_part(fee, governance_fee))
    &&& fits(lp_part(fee, governance_fee))
    &&& governance_part(fee, governance_fee) > 0 ==> share_price != 0 && fits_rounded(
        governance_shares(fee, governance_fee, share_price),
    )
}

/// Splits a fee: returns the liquidity providers' part and the shares to move
/// to the governance sink.
pub fn split_fee(fee: Decimal, governance_fee: Decimal, share_price: Decimal) -> (r: Result<
    (Decimal, Decimal),
    PoolError,
>)
    ensures
        r is Ok <==> fee_split_fits(fee@, governance_fee@, share_price@),
        r matches Ok(parts) ==> parts.0@ == lp_part(fee@, governance_fee@) && parts.1@
            == governance_shares(fee@, governance_fee@, share_price@),
        r matches Err(e) ==> e == PoolError::ArithmeticOverflow,
{
    let governance_fee_amount = fee.try_mul(governance_fee)?;
    let lp_fee = fee.try_sub(governance_fee_amount)?;
    let shares = if governance_fee_amount.gt(Decimal::zero()) {
        governance_fee_amount.try_div(share_price)?
    } else {
        Decimal::zero()
    };
    Ok((lp_fee, shares))
}

/// The reserves held in four amounts.
pub open spec fn reserves_of(
    share_reserves: Decimal,
    bond_reserves: Decimal,
    zeta_adjustment: Decimal,
    share_price: Decimal,
) -> Reserves {
    Reserves {
        share_reserves: share_reserves@,
        bond_reserves: bond_reserves@,
        zeta_adjustment: zeta_adjustment@,
        share_price: share_price@,
    }
}

/// What opening a long does, in units.
pub struct LongOpenQuote {
    /// The capital in shares: `base / share_price`.
    pub share_amount: int,
    /// Face value that the shares buy on the curve.
    pub face_value: int,
    /// Fee on the new bonds, at the whole term left.
    pub fee: int,
    /// Part of the fee kept by the liquidity providers.
    pub lp_fee: int,
    /// Shares moved to the governance sink.
    pub governance_shares: int,
    /// Face value credited to the position: `face_value - lp_fee`.
    pub adjusted_face_value: int,
    pub share_reserves_after: int,
    pub bond_reserves_after: int,
}

/// The quote for opening a long with `base` of capital against `r`.
pub open spec fn long_open_quote(
    base: int,
    r: Reserves,
    new_bond_fee: int,
    governance_fee: int,
) -> LongOpenQuote {
    let share_amount = div_units(base, r.share_price);
    let face_value = long_face_value_units(share_amount, r.effective(), r.bond_reserves);
    let fee = new_bond_fee_units(face_value, scale(), r.spot_rate(), new_bond_fee);
    let lp_fee = lp_part(fee, governance_fee);
    LongOpenQuote {
        share_amount,
        face_value,
        fee,
        lp_fee,
        governance_shares: governance_shares(fee, governance_fee, r.share_price),
        adjusted_face_value: face_value - lp_fee,
        share_reserves_after: r.share_reserves + share_amount,
        bond_reserves_after: r.bond_reserves - (face_value - lp_fee),
    }
}

/// Whether each step of the quote for opening a long stays in range.
pub open spec fn long_open_quote_fits(
    base: int,
    r: Reserves,
    new_bond_fee: int,
    governance_fee: int,
) -> bool {
    let q = long_open_quote(base, r, new_bond_fee, governance_fee);
    &&& r.share_price != 0
    &&& fits_rounded(q.share_amount)
    &&& r.spot_rate_fits()
    &&& long_face_value_fits(q.share_amount, r.effective(), r.bond_reserves)
    &&& position_fees_fit(q.face_value, scale(), r.spot_rate(), new_bond_fee, 0)
    &&& fee_split_fits(q.fee, governance_fee, r.share_price)
    &&& fits(q.adjusted_face_value)
    &&& fits(q.share_reserves_after)
    &&& fits(q.bond_reserves_after)
}

/// Why opening a long fails, if it does: the wrong asset, a checkpoint
/// duration of zero, or a step that leaves the range of the amounts or of
/// the clock.
pub open spec fn open_long_error(
    base_resource: Seq<u8>,
    yield_source: Seq<u8>,
    base: int,
    now: u64,
    r: Reserves,
    ledger: Map<u64, CheckpointView>,
    current: u64,
    checkpoint_duration: u64,
    position_duration: u64,
    new_bond_fee: int,
    governance_fee: int,
) -> Option<PoolError> {
    let cp = checkpoint_after(current, now, checkpoint_duration);
    let l = ledger_after(ledger, current, now, checkpoint_duration, r.share_price);
    let q = long_open_quote(base, r, new_bond_fee, governance_fee);
    if base_resource != yield_source {
        Some(PoolError::ResourceMismatch)
    } else if checkpoint_duration == 0 {
        Some(PoolError::InvalidParameter)
    } else if cp + position_duration > u64::MAX || !long_open_quote_fits(
        base,
        r,
        new_bond_fee,
        governance_fee,
    ) || (l.contains_key(cp) && !long_opened_fits(
        l[cp],
        q.adjusted_face_value,
        (cp + position_duration) as u64,
    )) {
        Some(PoolError::ArithmeticOverflow)
    } else {
        None
    }
}

/// What opening a long hands back: the record to issue as the position, and
/// the shares to move from the yield source to the governance sink. The whole
/// capital goes to the yield source.
#[derive(Clone, Copy, Debug, PartialEq, Eq, Structural)]
pub struct LongOpened {
    pub position: LongPosition,
    pub governance_shares: Decimal,
}

/// Opens a long with `base_amount` of capital at `current_time`.
///
/// The capital is turned into shares at the share price and buys bonds on the
/// curve against the effective reserves. The fee on new bonds is taken at the
/// whole term; its governance part is moved out in shares, the rest is kept
/// by crediting the position with less face value. The share reserves grow by
/// the shares, the bond reserves fall by the credited face value, and the
/// position is registered under the checkpoint current at `current_time`.
pub fn open_long_position(
    base_resource: ResourceAddress,
    base_amount: Decimal,
    current_time: u64,
    share_reserves: &mut Decimal,
    bond_reserves: &mut Decimal,
    zeta_adjustment: Decimal,
    share_price: Decimal,
    checkpoints: &mut HashMap<u64, Checkpoint>,
    current_checkpoint: &mut u64,
    checkpoint_duration: u64,
    position_duration: u64,
    new_bond_fee: Decimal,
    governance_fee: Decimal,
    yield_source: ResourceAddress,
) -> (r: Result<LongOpened, PoolError>)
    ensures
        ({
            let reserves = reserves_of(
                *old(share_reserves),
                *old(bond_reserves),
                zeta_adjustment,
                share_price,
            );
            let ledger = ledger_view(old(checkpoints)@);
            let error = open_long_error(
                base_resource@,
                yield_source@,
                base_amount@,
                current_time,
                reserves,
                ledger,
                *old(current_checkpoint),
                checkpoint_duration,
                position_duration,
                new_bond_fee@,
                governance_fee@,
            );
            let q = long_open_quote(base_amount@, reserves, new_bond_fee@, governance_fee@);
            let cp = checkpoint_after(*old(current_checkpoint), current_time, checkpoint_duration);
            let l = ledger_after(
                ledger,
                *old(current_checkpoint),
                current_time,
                checkpoint_duration,
                share_price@,
            );
            match r {
                Ok(out) => {
                    &&& error is None
                    &&& final(share_reserves)@ == q.share_reserves_after
                    &&& final(bond_reserves)@ == q.bond_reserves_after
                    &&& *final(current_checkpoint) == cp
                    &&& ledger_view(final(checkpoints)@) == ledger_replaced(
                        l,
                        cp,
                        long_opened(l[cp], q.adjusted_face_value, (cp + position_duration) as u64),
                    )
                    &&& out.position.face_value@ == q.adjusted_face_value
                    &&& out.position.checkpoint == cp
                    &&& out.position.open_time == current_time
                    &&& out.position.maturity_time == cp + position_duration
                    &&& out.governance_shares@ == q.governance_shares
                    &&& old(checkpoints)@.contains_key(*old(current_checkpoint))
                        ==> final(checkpoints)@.contains_key(out.position.checkpoint)
                },
                Err(e) => {
                    &&& error == Some(e)
                    &&& *final(share_reserves) == *old(share_reserves)
                    &&& *final(bond_reserves) == *old(bond_reserves)
                    &&& *final(current_checkpoint) == *old(current_checkpoint)
                    &&& final(checkpoints)@ == old(checkpoints)@
                },
            }
        }),
{
    validate_resource_address(base_resource, yield_source)?;
    if checkpoint_duration == 0 {
        return Err(PoolError::InvalidParameter);
    }
    let z = *share_reserves;
    let y = *bond_reserves;
    let current = *current_checkpoint;
    let calculated = calculate_current_checkpoint(current_time, checkpoint_duration);
    let new_current = if calculated > current {
        calculated
    } else {
        current
    };
    let entry = checkpoint_at(
        checkpoints,
        current,
        checkpoint_duration,
        share_price,
        current_time,
        new_current,
    );
    if position_duration > u64::MAX - new_current {
        return Err(PoolError::ArithmeticOverflow);
    }
    let maturity_time = new_current + position_duration;
    let time_remaining = Decimal::one();
    let share_amount = base_amount.try_div(share_price)?;
    let effective_shares = calculate_effective_share_reserves(z, zeta_adjustment)?;
    let spot_rate = calculate_spot_rate(effective_shares, y, share_price)?;
    let face_value = calculate_long_face_value(share_amount, effective_shares, y)?;
    let (new_bond_fee_amount, _) = calculate_position_fees(
        face_value,
        time_remaining,
        spot_rate,
        new_bond_fee,
        Decimal::zero(),
    )?;
    let (lp_fee, governance_shares) = split_fee(new_bond_fee_amount, governance_fee, share_price)?;
    let adjusted_face_value = face_value.try_sub(lp_fee)?;
    let new_share_reserves = z.try_add(share_amount)?;
    let new_bond_reserves = y.try_sub(adjusted_face_value)?;
    let replacement = match entry {
        Some(cp) => Some(cp.with_long_opened(adjusted_face_value, maturity_time)?),
        None => None,
    };
    advance_and_replace(
        checkpoints,
        current,
        checkpoint_duration,
        share_price,
        current_time,
        new_current,
        replacement,
    );
    proof {
        lemma_ledger_view_keys(old(checkpoints)@, current);
        lemma_ledger_view_keys(checkpoints@, new_current);
    }
    *share_reserves = new_share_reserves;
    *bond_reserves = new_bond_reserves;
    *current_checkpoint = new_current;
    Ok(
        LongOpened {
            position: LongPosition {
                face_value: adjusted_face_value,
                checkpoint: new_current,
                open_time: current_time,
                maturity_time,
            },
            governance_shares,
        },
    )
}

/// What opening a short does, in units.
pub struct ShortOpenQuote {
    /// Collateral that the face value requires at the whole term left.
    pub deposit_required: int,
    /// Fee on the new bonds.
    pub fee: int,
    /// Part of the fee kept by the liquidity providers.
    pub lp_fee: int,
    /// Shares moved to the governance sink.
    pub governance_shares: int,
    /// What the opener has to put up: `deposit_required + lp_fee`.
    pub total_deposit: int,
    /// Share impact of the position.
    pub delta_z: int,
    pub share_reserves_after: int,
    pub bond_reserves_after: int,
}

/// The quote for opening a short of `face_value` against `r`.
pub open spec fn short_open_quote(
    face_value: int,
    r: Reserves,
    new_bond_fee: int,
    governance_fee: int,
) -> ShortOpenQuote {
    let deposit_required = short_deposit_units(
        face_value,
        r.effective(),
        r.bond_reserves,
        r.share_price,
        scale(),
    );
    let fee = new_bond_fee_units(face_value, scale(), r.spot_rate(), new_bond_fee);
    let lp_fee = lp_part(fee, governance_fee);
    let delta_z = position_impact_units(
        face_value,
        r.effective(),
        r.bond_reserves,
        scale(),
        r.share_price,
    );
    ShortOpenQuote {
        deposit_required,
        fee,
        lp_fee,
        governance_shares: governance_shares(fee, governance_fee, r.share_price),
        total_deposit: deposit_required + lp_fee,
        delta_z,
        share_reserves_after: r.share_reserves - (delta_z - div_units(lp_fee, r.share_price)),
        bond_reserves_after: r.bond_reserves + face_value,
    }
}

/// Whether the steps of opening a short stay in range, once its share impact
/// has been quoted.
pub open spec fn short_open_quote_fits(
    base: int,
    face_value: int,
    r: Reserves,
    new_bond_fee: int,
    governance_fee: int,
) -> bool {
    let q = short_open_quote(face_value, r, new_bond_fee, governance_fee);
    &&& short_deposit_fits(face_value, r.effective(), r.bond_reserves, r.share_price, scale())
    &&& spot_rate_fits(r.effective(), r.bond_reserves, r.share_price)
    &&& position_fees_fit(face_value, scale(), r.spot_rate(), new_bond_fee, 0)
    &&& fee_split_fits(q.fee, governance_fee, r.share_price)
    &&& fits(q.total_deposit)
    &&& fits(base - q.total_deposit)
    &&& r.share_price != 0
    &&& fits_rounded(div_units(q.lp_fee, r.share_price))
    &&& fits(q.delta_z - div_units(q.lp_fee, r.share_price))
    &&& fits(q.share_reserves_after)
    &&& fits(q.bond_reserves_after)
}

/// Why opening a short fails, if it does: the wrong asset, a face value that
/// is not positive or a checkpoint duration of zero, a face value that would
/// drain the bond reserves, a step that leaves the range of the amounts or of
/// the clock, or too little capital for the deposit.
pub open spec fn open_short_error(
    base_resource: Seq<u8>,
    yield_source: Seq<u8>,
    base: int,
    face_value: int,
    now: u64,
    r: Reserves,
    ledger: Map<u64, CheckpointView>,
    current: u64,
    checkpoint_duration: u64,
    position_duration: u64,
    new_bond_fee: int,
    governance_fee: int,
) -> Option<PoolError> {
    let cp = checkpoint_after(current, now, checkpoint_duration);
    let l = ledger_after(ledger, current, now, checkpoint_duration, r.share_price);
    let q = short_open_quote(face_value, r, new_bond_fee, governance_fee);
    if base_resource != yield_source {
        Some(PoolError::ResourceMismatch)
    } else if face_value <= 0 || checkpoint_duration == 0 {
        Some(PoolError::InvalidParameter)
    } else if cp + position_duration > u64::MAX || !fits(r.effective()) || !position_impact_fits(
        face_value,
        r.effective(),
        r.bond_reserves,
        scale(),
        r.share_price,
    ) {
        Some(PoolError::ArithmeticOverflow)
    } else if unmatured_units(face_value, scale()) > 0 && drains_bonds(
        unmatured_units(face_value, scale()),
        r.effective(),
        r.bond_reserves,
    ) {
        Some(PoolError::InsufficientLiquidity)
    } else if !short_open_quote_fits(base, face_value, r, new_bond_fee, governance_fee) || (
    l.contains_key(cp) && !short_opened_fits(l[cp], face_value, (cp + position_duration) as u64)) {
        Some(PoolError::ArithmeticOverflow)
    } else if base < q.total_deposit {
        Some(PoolError::InsufficientCollateral)
    } else {
        None
    }
}

/// What opening a short hands back: the record to issue as the position, the
/// part of the capital that is taken as deposit and the part that goes back
/// to the opener, and the shares to move from the yield source to the
/// governance sink.
#[derive(Clone, Copy, Debug, PartialEq, Eq, Structural)]
pub struct ShortOpened {
    pub position: ShortPosition,
    pub deposit: Decimal,
    pub change: Decimal,
    pub governance_shares: Decimal,
}

/// Opens a short of `face_value` at `current_time`, backed by `base_amount`
/// of capital.
///
/// The deposit is the collateral that the face value requires plus the
/// liquidity providers' part of the fee on new bonds; capital beyond it goes
/// back to the opener, and capital short of it fails the operation. The
/// share reserves fall by the share impact net of that fee part in shares,
/// the bond reserves grow by the face value, and the position is registered
/// under the checkpoint current at `current_time` with the share price it was
/// opened at.
pub fn open_short_position(
    base_resource: ResourceAddress,
    base_amount: Decimal,
    face_value: Decimal,
    current_time: u64,
    share_reserves: &mut Decimal,
    bond_reserves: &mut Decimal,
    zeta_adjustment: Decimal,
    share_price: Decimal,
    checkpoints: &mut HashMap<u64, Checkpoint>,
    current_checkpoint: &mut u64,
    checkpoint_duration: u64,
    position_duration: u64,
    new_bond_fee: Decimal,
    governance_fee: Decimal,
    yield_source: ResourceAddress,
) -> (r: Result<ShortOpened, PoolError>)
    ensures
        ({
            let reserves = reserves_of(
                *old(share_reserves),
                *old(bond_reserves),
                zeta_adjustment,
                share_price,
            );
            let ledger = ledger_view(old(checkpoints)@);
            let error = open_short_error(
                base_resource@,
                yield_source@,
                base_amount@,
                face_value@,
                current_time,
                reserves,
                ledger,
                *old(current_checkpoint),
                checkpoint_duration,
                position_duration,
                new_bond_fee@,
                governance_fee@,
            );
            let q = short_open_quote(face_value@, reserves, new_bond_fee@, governance_fee@);
            let cp = checkpoint_after(*old(current_checkpoint), current_time, checkpoint_duration);
            let l = ledger_after(
                ledger,
                *old(current_checkpoint),
                current_time,
                checkpoint_duration,
                share_price@,
            );
            match r {
                Ok(out) => {
                    &&& error is None
                    &&& final(share_reserves)@ == q.share_reserves_after
                    &&& final(bond_reserves)@ == q.bond_reserves_after
                    &&& *final(current_checkpoint) == cp
                    &&& ledger_view(final(checkpoints)@) == ledger_replaced(
                        l,
                        cp,
                        short_opened(l[cp], face_value@, (cp + position_duration) as u64),
                    )
                    &&& out.position.face_value == face_value
                    &&& out.position.checkpoint == cp
                    &&& out.position.open_time == current_time
                    &&& out.position.maturity_time == cp + position_duration
                    &&& out.position.initial_share_price == share_price
                    &&& out.deposit@ == q.total_deposit
                    &&& out.change@ == base_amount@ - q.total_deposit
                    &&& out.change@ >= 0
                    &&& out.governance_shares@ == q.governance_shares
                    &&& old(checkpoints)@.contains_key(*old(current_checkpoint))
                        ==> final(checkpoints)@.contains_key(out.position.checkpoint)
                },
                Err(e) => {
                    &&& error == Some(e)
                    &&& *final(share_reserves) == *old(share_reserves)
                    &&& *final(bond_reserves) == *old(bond_reserves)
                    &&& *final(current_checkpoint) == *old(current_checkpoint)
                    &&& final(checkpoints)@ == old(checkpoints)@
                },
            }
        }),
{
    validate_resource_address(base_resource, yield_source)?;
    if face_value.le(Decimal::zero()) || checkpoint_duration == 0 {
        return Err(PoolError::InvalidParameter);
    }
    let z = *share_reserves;
    let y = *bond_reserves;
    let current = *current_checkpoint;
    let calculated = calculate_current_checkpoint(current_time, checkpoint_duration);
    let new_current = if calculated > current {
        calculated
    } else {
        current
    };
    if position_duration > u64::MAX - new_current {
        return Err(PoolError::ArithmeticOverflow);
    }
    let maturity_time = new_current + position_duration;
    let time_remaining = Decimal::one();
    let effective_shares = calculate_effective_share_reserves(z, zeta_adjustment)?;
    let delta_z = quote_position_impact(
        face_value,
        effective_shares,
        y,
        time_remaining,
        share_price,
    )?;
    let deposit_required = calculate_short_deposit(
        face_value,
        effective_shares,
        y,
        share_price,
        time_remaining,
    )?;
    let spot_rate = calculate_spot_rate(effective_shares, y, share_price)?;
    let (new_bond_fee_amount, _) = calculate_position_fees(
        face_value,
        time_remaining,
        spot_rate,
        new_bond_fee,
        Decimal::zero(),
    )?;
    let (lp_fee, governance_shares) = split_fee(new_bond_fee_amount, governance_fee, share_price)?;
    let total_deposit_required = deposit_required.try_add(lp_fee)?;
    let change = base_amount.try_sub(total_deposit_required)?;
    let lp_fee_shares = lp_fee.try_div(share_price)?;
    let net_impact = delta_z.try_sub(lp_fee_shares)?;
    let new_share_reserves = z.try_sub(net_impact)?;
    let new_bond_reserves = y.try_add(face_value)?;
    let entry = checkpoint_at(
        checkpoints,
        current,
        checkpoint_duration,
        share_price,
        current_time,
        new_current,
    );
    let replacement = match entry {
        Some(cp) => Some(cp.with_short_opened(face_value, maturity_time)?),
        None => None,
    };
    if base_amount.lt(total_deposit_required) {
        return Err(PoolError::InsufficientCollateral);
    }
    advance_and_replace(
        checkpoints,
        current,
        checkpoint_duration,
        share_price,
        current_time,
        new_current,
        replacement,
    );
    proof {
        lemma_ledger_view_keys(old(checkpoints)@, current);
        lemma_ledger_view_keys(checkpoints@, new_current);
    }
    *share_reserves = new_share_reserves;
    *bond_reserves = new_bond_reserves;
    *current_checkpoint = new_current;
    Ok(
        ShortOpened {
            position: ShortPosition {
                face_value,
                checkpoint: new_current,
                open_time: current_time,
                maturity_time,
                initial_share_price: share_price,
            },
            deposit: total_deposit_required,
            change,
            governance_shares,
        },
    )
}

/// What closing a position does, in units.
pub struct CloseQuote {
    /// Share impact of the position at its time remaining.
    pub delta_z: int,
    pub fee_new: int,
    pub fee_matured: int,
    /// Part of the two fees kept by the liquidity providers.
    pub lp_fee: int,
    /// Shares moved to the governance sink.
    pub governance_shares: int,
    /// Part of the face value that returns to or leaves the bond reserves.
    pub unmatured: int,
    /// Shares that the matured part of the face value redeems for.
    pub matured_impact: int,
}

/// The quote for closing a position of `face_value` with `tr` of its term left.
pub open spec fn close_quote(
    face_value: int,
    tr: int,
    r: Reserves,
    new_bond_fee: int,
    matured_bond_fee: int,
    governance_fee: int,
) -> CloseQuote {
    let fee_new = new_bond_fee_units(face_value, tr, r.spot_rate(), new_bond_fee);
    let fee_matured = matured_bond_fee_units(face_value, tr, matured_bond_fee);
    CloseQuote {
        delta_z: position_impact_units(
            face_value,
            r.effective(),
            r.bond_reserves,
            tr,
            r.share_price,
        ),
        fee_new,
        fee_matured,
        lp_fee: lp_part(fee_new + fee_matured, governance_fee),
        governance_shares: governance_shares(fee_new + fee_matured, governance_fee, r.share_price),
        unmatured: unmatured_units(face_value, tr),
        matured_impact: maturity_pricing_units(matured_units(face_value, tr), r.share_price),
    }
}

/// Whether the steps that closing a long and closing a short share stay in
/// range, once the share impact has been quoted.
pub open spec fn close_quote_fits(
    face_value: int,
    tr: int,
    r: Reserves,
    new_bond_fee: int,
    matured_bond_fee: int,
    governance_fee: int,
) -> bool {
    let q = close_quote(face_value, tr, r, new_bond_fee, matured_bond_fee, governance_fee);
    &&& spot_rate_fits(r.effective(), r.bond_reserves, r.share_price)
    &&& position_fees_fit(face_value, tr, r.spot_rate(), new_bond_fee, matured_bond_fee)
    &&& fits(q.fee_new + q.fee_matured)
    &&& fee_split_fits(q.fee_new + q.fee_matured, governance_fee, r.share_price)
    &&& fits_rounded(mul_units(q.delta_z, r.share_price))
    &&& maturity_pricing_fits(matured_units(face_value, tr), r.share_price)
    &&& fits(scale() - governance_fee)
    &&& fits_rounded(mul_units(q.fee_matured, scale() - governance_fee))
}

/// The reserves and the payout after a long is closed.
pub struct LongCloseQuote {
    /// Paid out: the share impact at the share price, less the liquidity
    /// providers' part of the fees.
    pub proceeds: int,
    pub share_reserves_after: int,
    pub bond_reserves_after: int,
    pub zeta_adjustment_after: int,
}

/// The reserves and the payout after a long with the quote `q` is closed.
pub open spec fn long_close_quote(
    q: CloseQuote,
    r: Reserves,
    governance_fee: int,
) -> LongCloseQuote {
    LongCloseQuote {
        proceeds: mul_units(q.delta_z, r.share_price) - q.lp_fee,
        share_reserves_after: r.share_reserves - q.delta_z,
        bond_reserves_after: r.bond_reserves + q.unmatured,
        zeta_adjustment_after: r.zeta_adjustment - (q.matured_impact - mul_units(
            q.fee_matured,
            scale() - governance_fee,
        )),
    }
}

/// Whether the payout and the reserves after closing a long stay in range.
pub open spec fn long_close_quote_fits(q: CloseQuote, r: Reserves, governance_fee: int) -> bool {
    let after = long_close_quote(q, r, governance_fee);
    &&& fits(after.proceeds)
    &&& fits(after.share_reserves_after)
    &&& fits(after.bond_reserves_after)
    &&& fits(q.matured_impact - mul_units(q.fee_matured, scale() - governance_fee))
    &&& fits(after.zeta_adjustment_after)
}

/// Why closing a long fails, if it does: not one token of the expected kind,
/// a checkpoint duration of zero, a position whose unmatured part would drain
/// the bond reserves, or a step that leaves the range of the amounts.
pub open spec fn close_long_error(
    position_resource: Seq<u8>,
    position_amount: int,
    long_positions_resource: Seq<u8>,
    position: LongPosition,
    now: u64,
    r: Reserves,
    ledger: Map<u64, CheckpointView>,
    current: u64,
    checkpoint_duration: u64,
    new_bond_fee: int,
    matured_bond_fee: int,
    governance_fee: int,
) -> Option<PoolError> {
    let tr = time_remaining_units(now, position.open_time, position.maturity_time);
    let fv = position.face_value@;
    let l = ledger_after(ledger, current, now, checkpoint_duration, r.share_price);
    let q = close_quote(fv, tr, r, new_bond_fee, matured_bond_fee, governance_fee);
    if position_resource != long_positions_resource || position_amount != scale() {
        Some(PoolError::ResourceMismatch)
    } else if checkpoint_duration == 0 {
        Some(PoolError::InvalidParameter)
    } else if !fits(r.effective()) || !position_impact_fits(
        fv,
        r.effective(),
        r.bond_reserves,
        tr,
        r.share_price,
    ) {
        Some(PoolError::ArithmeticOverflow)
    } else if q.unmatured > 0 && drains_bonds(q.unmatured, r.effective(), r.bond_reserves) {
        Some(PoolError::InsufficientLiquidity)
    } else if !close_quote_fits(fv, tr, r, new_bond_fee, matured_bond_fee, governance_fee)
        || !long_close_quote_fits(q, r, governance_fee) || (l.contains_key(position.checkpoint)
        && !fits(l[position.checkpoint].long_positions - fv)) {
        Some(PoolError::ArithmeticOverflow)
    } else {
        None
    }
}

/// What closing a position hands back: the capital to pay out of the yield
/// source, and the shares to move from it to the governance sink.
#[derive(Clone, Copy, Debug, PartialEq, Eq, Structural)]
pub struct PositionClosed {
    pub proceeds: Decimal,
    pub governance_shares: Decimal,
}

/// The quote that closing a long and closing a short share.
struct Closing {
    time_remaining: Decimal,
    delta_z: Decimal,
    fee_matured: Decimal,
    lp_fee: Decimal,
    governance_shares: Decimal,
    unmatured: Decimal,
    matured_impact: Decimal,
    /// `delta_z` at the share price.
    impact_value: Decimal,
    /// `fee_matured * (1 - governance_fee)`.
    matured_fee_kept: Decimal,
}

/// Quotes the closing of a position of `face_value` opened at `open_time`
/// and maturing at `maturity_time`.
fn quote_closing(
    face_value: Decimal,
    open_time: u64,
    maturity_time: u64,
    current_time: u64,
    share_reserves: Decimal,
    bond_reserves: Decimal,
    zeta_adjustment: Decimal,
    share_price: Decimal,
    new_bond_fee: Decimal,
    matured_bond_fee: Decimal,
    governance_fee: Decimal,
) -> (r: Result<Closing, PoolError>)
    ensures
        ({
            let reserves = reserves_of(share_reserves, bond_reserves, zeta_adjustment, share_price);
            let tr = time_remaining_units(current_time, open_time, maturity_time);
            let q = close_quote(
                face_value@,
                tr,
                reserves,
                new_bond_fee@,
                matured_bond_fee@,
                governance_fee@,
            );
            let impact_fits = fits(reserves.effective()) && position_impact_fits(
                face_value@,
                reserves.effective(),
                bond_reserves@,
                tr,
                share_price@,
            );
            let drains = q.unmatured > 0 && drains_bonds(
                q.unmatured,
                reserves.effective(),
                bond_reserves@,
            );
            match r {
                Ok(c) => {
                    &&& impact_fits
                    &&& !drains
                    &&& close_quote_fits(
                        face_value@,
                        tr,
                        reserves,
                        new_bond_fee@,
                        matured_bond_fee@,
                        governance_fee@,
                    )
                    &&& c.time_remaining@ == tr
                    &&& c.delta_z@ == q.delta_z
                    &&& c.fee_matured@ == q.fee_matured
                    &&& c.lp_fee@ == q.lp_fee
                    &&& c.governance_shares@ == q.governance_shares
                    &&& c.unmatured@ == q.unmatured
                    &&& c.matured_impact@ == q.matured_impact
                    &&& c.impact_value@ == mul_units(q.delta_z, share_price@)
                    &&& c.matured_fee_kept@ == mul_units(q.fee_matured, scale() - governance_fee@)
                },
                Err(e) => if !impact_fits {
                    e == PoolError::ArithmeticOverflow
                } else if drains {
                    e == PoolError::InsufficientLiquidity
                } else {
                    e == PoolError::ArithmeticOverflow && !close_quote_fits(
                        face_value@,
                        tr,
                        reserves,
                        new_bond_fee@,
                        matured_bond_fee@,
                        governance_fee@,
                    )
                },
            }
        }),
{
    let one = Decimal::one();
    let time_remaining = calculate_time_remaining(current_time, open_time, maturity_time);
    let effective_shares = calculate_effective_share_reserves(share_reserves, zeta_adjustment)?;
    let delta_z = quote_position_impact(
        face_value,
        effective_shares,
        bond_reserves,
        time_remaining,
        share_price,
    )?;
    let spot_rate = calculate_spot_rate(effective_shares, bond_reserves, share_price)?;
    let (fee_new, fee_matured) = calculate_position_fees(
        face_value,
        time_remaining,
        spot_rate,
        new_bond_fee,
        matured_bond_fee,
    )?;
    let total_fee = fee_new.try_add(fee_matured)?;
    let (lp_fee, governance_shares) = split_fee(total_fee, governance_fee, share_price)?;
    let impact_value = delta_z.try_mul(share_price)?;
    let unmatured = face_value.try_mul(time_remaining)?;
    let elapsed = one.try_sub(time_remaining)?;
    let matured = face_value.try_mul(elapsed)?;
    let matured_impact = maturity_pricing_delta_z(matured, share_price)?;
    let kept_share = one.try_sub(governance_fee)?;
    let matured_fee_kept = fee_matured.try_mul(kept_share)?;
    Ok(
        Closing {
            time_remaining,
            delta_z,
            fee_matured,
            lp_fee,
            governance_shares,
            unmatured,
            matured_impact,
            impact_value,
            matured_fee_kept,
        },
    )
}

/// Closes the long `position` at `current_time`.
///
/// The position's face value is priced by its time remaining: the unmatured
/// part on the curve, the matured part at maturity. The holder is paid the
/// share impact at the share price less the liquidity providers' part of the
/// two fees. The share reserves fall by the impact, the unmatured part goes
/// back to the bond reserves, the zeta adjustment falls by the matured
/// impact net of the matured fee kept, and the position leaves its
/// checkpoint.
pub fn close_long_position(
    position_resource: ResourceAddress,
    position_amount: Decimal,
    position: LongPosition,
    current_time: u64,
    share_reserves: &mut Decimal,
    bond_reserves: &mut Decimal,
    zeta_adjustment: &mut Decimal,
    share_price: Decimal,
    checkpoints: &mut HashMap<u64, Checkpoint>,
    current_checkpoint: &mut u64,
    checkpoint_duration: u64,
    new_bond_fee: Decimal,
    matured_bond_fee: Decimal,
    governance_fee: Decimal,
    long_positions_resource: ResourceAddress,
) -> (r: Result<PositionClosed, PoolError>)
    ensures
        ({
            let reserves = reserves_of(
                *old(share_reserves),
                *old(bond_reserves),
                *old(zeta_adjustment),
                share_price,
            );
            let ledger = ledger_view(old(checkpoints)@);
            let error = close_long_error(
                position_resource@,
                position_amount@,
                long_positions_resource@,
                position,
                current_time,
                reserves,
                ledger,
                *old(current_checkpoint),
                checkpoint_duration,
                new_bond_fee@,
                matured_bond_fee@,
                governance_fee@,
            );
            let tr = time_remaining_units(current_time, position.open_time, position.maturity_time);
            let q = close_quote(
                position.face_value@,
                tr,
                reserves,
                new_bond_fee@,
                matured_bond_fee@,
                governance_fee@,
            );
            let after = long_close_quote(q, reserves, governance_fee@);
            let l = ledger_after(
                ledger,
                *old(current_checkpoint),
                current_time,
                checkpoint_duration,
                share_price@,
            );
            match r {
                Ok(out) => {
                    &&& error is None
                    &&& final(share_reserves)@ == after.share_reserves_after
                    &&& final(bond_reserves)@ == after.bond_reserves_after
                    &&& final(zeta_adjustment)@ == after.zeta_adjustment_after
                    &&& *final(current_checkpoint) == checkpoint_after(
                        *old(current_checkpoint),
                        current_time,
                        checkpoint_duration,
                    )
                    &&& ledger_view(final(checkpoints)@) == ledger_replaced(
                        l,
                        position.checkpoint,
                        long_closed(l[position.checkpoint], position.face_value@, tr),
                    )
                    &&& out.proceeds@ == after.proceeds
                    &&& out.governance_shares@ == q.governance_shares
                },
                Err(e) => {
                    &&& error == Some(e)
                    &&& *final(share_reserves) == *old(share_reserves)
                    &&& *final(bond_reserves) == *old(bond_reserves)
                    &&& *final(zeta_adjustment) == *old(zeta_adjustment)
                    &&& *final(current_checkpoint) == *old(current_checkpoint)
                    &&& final(checkpoints)@ == old(checkpoints)@
                },
            }
        }),
{
    validate_single_nft(position_resource, position_amount, long_positions_resource)?;
    if checkpoint_duration == 0 {
        return Err(PoolError::InvalidParameter);
    }
    let z = *share_reserves;
    let y = *bond_reserves;
    let zeta = *zeta_adjustment;
    let current = *current_checkpoint;
    let closing = quote_closing(
        position.face_value,
        position.open_time,
        position.maturity_time,
        current_time,
        z,
        y,
        zeta,
        share_price,
        new_bond_fee,
        matured_bond_fee,
        governance_fee,
    )?;
    let proceeds = closing.impact_value.try_sub(closing.lp_fee)?;
    let new_share_reserves = z.try_sub(closing.delta_z)?;
    let new_bond_reserves = y.try_add(closing.unmatured)?;
    let zeta_change = closing.matured_impact.try_sub(closing.matured_fee_kept)?;
    let new_zeta_adjustment = zeta.try_sub(zeta_change)?;
    let entry = checkpoint_at(
        checkpoints,
        current,
        checkpoint_duration,
        share_price,
        current_time,
        position.checkpoint,
    );
    let replacement = match entry {
        Some(cp) => Some(cp.with_long_closed(position.face_value, closing.time_remaining)?),
        None => None,
    };
    let new_current = advance_and_replace(
        checkpoints,
        current,
        checkpoint_duration,
        share_price,
        current_time,
        position.checkpoint,
        replacement,
    );
    *share_reserves = new_share_reserves;
    *bond_reserves = new_bond_reserves;
    *zeta_adjustment = new_zeta_adjustment;
    *current_checkpoint = new_current;
    Ok(PositionClosed { proceeds, governance_shares: closing.governance_shares })
}

/// The reserves and the payout after a short is closed.
pub struct ShortCloseQuote {
    /// Paid out: the face value grown by the share price since opening, less
    /// the share impact at the share price and the liquidity providers' part
    /// of the fees.
    pub proceeds: int,
    pub share_reserves_after: int,
    pub bond_reserves_after: int,
    pub zeta_adjustment_after: int,
}

/// The reserves and the payout after a short with the quote `q` is closed.
pub open spec fn short_close_quote(
    q: CloseQuote,
    face_value: int,
    initial_share_price: int,
    r: Reserves,
    governance_fee: int,
) -> ShortCloseQuote {
    ShortCloseQuote {
        proceeds: mul_units(face_value, div_units(r.share_price, initial_share_price)) - mul_units(
            q.delta_z,
            r.share_price,
        ) - q.lp_fee,
        share_reserves_after: r.share_reserves + q.delta_z,
        bond_reserves_after: r.bond_reserves - q.unmatured,
        zeta_adjustment_after: r.zeta_adjustment + (q.matured_impact + div_units(
            mul_units(q.fee_matured, scale() - governance_fee),
            r.share_price,
        )),
    }
}

/// Whether the payout and the reserves after closing a short stay in range.
pub open spec fn short_close_quote_fits(
    q: CloseQuote,
    face_value: int,
    initial_share_price: int,
    r: Reserves,
    governance_fee: int,
) -> bool {
    let after = short_close_quote(q, face_value, initial_share_price, r, governance_fee);
    let grown = mul_units(face_value, div_units(r.share_price, initial_share_price));
    let kept = div_units(mul_units(q.fee_matured, scale() - governance_fee), r.share_price);
    &&& initial_share_price != 0
    &&& fits_rounded(div_units(r.share_price, initial_share_price))
    &&& fits_rounded(grown)
    &&& fits(grown - mul_units(q.delta_z, r.share_price))
    &&& fits(after.proceeds)
    &&& fits(after.share_reserves_after)
    &&& fits(after.bond_reserves_after)
    &&& r.share_price != 0
    &&& fits_rounded(kept)
    &&& fits(q.matured_impact + kept)
    &&& fits(after.zeta_adjustment_after)
}

/// Why closing a short fails, if it does: not one token of the expected kind,
/// a checkpoint duration of zero, a position whose unmatured part would drain
/// the bond reserves, or a step that leaves the range of the amounts.
pub open spec fn close_short_error(
    position_resource: Seq<u8>,
    position_amount: int,
    short_positions_resource: Seq<u8>,
    position: ShortPosition,
    now: u64,
    r: Reserves,
    ledger: Map<u64, CheckpointView>,
    current: u64,
    checkpoint_duration: u64,
    new_bond_fee: int,
    matured_bond_fee: int,
    governance_fee: int,
) -> Option<PoolError> {
    let tr = time_remaining_units(now, position.open_time, position.maturity_time);
    let fv = position.face_value@;
    let l = ledger_after(ledger, current, now, checkpoint_duration, r.share_price);
    let q = close_quote(fv, tr, r, new_bond_fee, matured_bond_fee, governance_fee);
    if position_resource != short_positions_resource || position_amount != scale() {
        Some(PoolError::ResourceMismatch)
    } else if checkpoint_duration == 0 {
        Some(PoolError::InvalidParameter)
    } else if !fits(r.effective()) || !position_impact_fits(
        fv,
        r.effective(),
        r.bond_reserves,
        tr,
        r.share_price,
    ) {
        Some(PoolError::ArithmeticOverflow)
    } else if q.unmatured > 0 && drains_bonds(q.unmatured, r.effective(), r.bond_reserves) {
        Some(PoolError::InsufficientLiquidity)
    } else if !close_quote_fits(fv, tr, r, new_bond_fee, matured_bond_fee, governance_fee)
        || !short_close_quote_fits(q, fv, position.initial_share_price@, r, governance_fee) || (
    l.contains_key(position.checkpoint) && !fits(l[position.checkpoint].short_positions - fv)) {
        Some(PoolError::ArithmeticOverflow)
    } else {
        None
    }
}

/// Closes the short `position` at `current_time`.
///
/// The holder is paid the face value grown by the share price since the
/// position was opened, less the share impact at the share price and the
/// liquidity providers' part of the two fees. The reserves move the other
/// way than for a long: the share reserves grow by the impact, the unmatured
/// part leaves the bond reserves, the zeta adjustment grows by the matured
/// impact and the matured fee kept, in shares.
pub fn close_short_position(
    position_resource: ResourceAddress,
    position_amount: Decimal,
    position: ShortPosition,
    current_time: u64,
    share_reserves: &mut Decimal,
    bond_reserves: &mut Decimal,
    zeta_adjustment: &mut Decimal,
    share_price: Decimal,
    checkpoints: &mut HashMap<u64, Checkpoint>,
    current_checkpoint: &mut u64,
    checkpoint_duration: u64,
    new_bond_fee: Decimal,
    matured_bond_fee: Decimal,
    governance_fee: Decimal,
    short_positions_resource: ResourceAddress,
) -> (r: Result<PositionClosed, PoolError>)
    ensures
        ({
            let reserves = reserves_of(
                *old(share_reserves),
                *old(bond_reserves),
                *old(zeta_adjustment),
                share_price,
            );
            let ledger = ledger_view(old(checkpoints)@);
            let error = close_short_error(
                position_resource@,
                position_amount@,
                short_positions_resource@,
                position,
                current_time,
                reserves,
                ledger,
                *old(current_checkpoint),
                checkpoint_duration,
                new_bond_fee@,
                matured_bond_fee@,
                governance_fee@,
            );
            let tr = time_remaining_units(current_time, position.open_time, position.maturity_time);
            let q = close_quote(
                position.face_value@,
                tr,
                reserves,
                new_bond_fee@,
                matured_bond_fee@,
                governance_fee@,
            );
            let after = short_close_quote(
                q,
                position.face_value@,
                position.initial_share_price@,
                reserves,
                governance_fee@,
            );
            let l = ledger_after(
                ledger,
                *old(current_checkpoint),
                current_time,
                checkpoint_duration,
                share_price@,
            );
            match r {
                Ok(out) => {
                    &&& error is None
                    &&& final(share_reserves)@ == after.share_reserves_after
                    &&& final(bond_reserves)@ == after.bond_reserves_after
                    &&& final(zeta_adjustment)@ == after.zeta_adjustment_after
                    &&& *final(current_checkpoint) == checkpoint_after(
                        *old(current_checkpoint),
                        current_time,
                        checkpoint_duration,
                    )
                    &&& ledger_view(final(checkpoints)@) == ledger_replaced(
                        l,
                        position.checkpoint,
                        short_closed(l[position.checkpoint], position.face_value@, tr),
                    )
                    &&& out.proceeds@ == after.proceeds
                    &&& out.governance_shares@ == q.governance_shares
                },
                Err(e) => {
                    &&& error == Some(e)
                    &&& *final(share_reserves) == *old(share_reserves)
                    &&& *final(bond_reserves) == *old(bond_reserves)
                    &&& *final(zeta_adjustment) == *old(zeta_adjustment)
                    &&& *final(current_checkpoint) == *old(current_checkpoint)
                    &&& final(checkpoints)@ == old(checkpoints)@
                },
            }
        }),
{
    validate_single_nft(position_resource, position_amount, short_positions_resource)?;
    if checkpoint_duration == 0 {
        return Err(PoolError::InvalidParameter);
    }
    let z = *share_reserves;
    let y = *bond_reserves;
    let zeta = *zeta_adjustment;
    let current = *current_checkpoint;
    let closing = quote_closing(
        position.face_value,
        position.open_time,
        position.maturity_time,
        current_time,
        z,
        y,
        zeta,
        share_price,
        new_bond_fee,
        matured_bond_fee,
        governance_fee,
    )?;
    let share_price_ratio = share_price.try_div(position.initial_share_price)?;
    let grown = position.face_value.try_mul(share_price_ratio)?;
    let after_cost = grown.try_sub(closing.impact_value)?;
    let proceeds = after_cost.try_sub(closing.lp_fee)?;
    let new_share_reserves = z.try_add(closing.delta_z)?;
    let new_bond_reserves = y.try_sub(closing.unmatured)?;
    let kept_in_shares = closing.matured_fee_kept.try_div(share_price)?;
    let zeta_change = closing.matured_impact.try_add(kept_in_shares)?;
    let new_zeta_adjustment = zeta.try_add(zeta_change)?;
    let entry = checkpoint_at(
        checkpoints,
        current,
        checkpoint_duration,
        share_price,
        current_time,
        position.checkpoint,
    );
    let replacement = match entry {
        Some(cp) => Some(cp.with_short_closed(position.face_value, closing.time_remaining)?),
        None => None,
    };
    let new_current = advance_and_replace(
        checkpoints,
        current,
        checkpoint_duration,
        share_price,
        current_time,
        position.checkpoint,
        replacement,
    );
    *share_reserves = new_share_reserves;
    *bond_reserves = new_bond_reserves;
    *zeta_adjustment = new_zeta_adjustment;
    *current_checkpoint = new_current;
    Ok(PositionClosed { proceeds, governance_shares: closing.governance_shares })
}

/// A long that is opened and closed at once, with its whole term left,
/// against a pool that holds no bonds and at a share price of one, pays back
/// the capital less the liquidity providers' part of the two fees: the curve
/// takes nothing.
pub proof fn lemma_long_round_trip(
    base: int,
    r: Reserves,
    new_bond_fee: int,
    matured_bond_fee: int,
    governance_fee: int,
)
    requires
        r.bond_reserves <= 0,
        r.share_price == scale(),
        long_open_quote(base, r, new_bond_fee, governance_fee).adjusted_face_value > 0,
    ensures
        ({
            let opened = long_open_quote(base, r, new_bond_fee, governance_fee);
            let then = Reserves {
                share_reserves: opened.share_reserves_after,
                bond_reserves: opened.bond_reserves_after,
                ..r
            };
            let closed = close_quote(
                opened.adjusted_face_value,
                scale(),
                then,
                new_bond_fee,
                matured_bond_fee,
                governance_fee,
            );
            &&& closed.delta_z == opened.adjusted_face_value
            &&& long_close_quote(closed, then, governance_fee).proceeds == base - opened.lp_fee
                - closed.lp_fee
        }),
{
    let opened = long_open_quote(base, r, new_bond_fee, governance_fee);
    lemma_div_units_by_one(base);
    lemma_mul_units_by_one_and_zero(opened.adjusted_face_value);
}

} // verus!
