//! Small computations and the checks on parameters that the operations share.

use crate::constants::MAX_POSITION_DURATION;
use crate::decimal::{div_units, fits, fits_rounded, mul_units, scale, Decimal};
use crate::error::PoolError;
use crate::types::ResourceAddress;
use vstd::prelude::*;

verus! {

/// The spot rate `(z * c) / (z * c + y) - 1`, and zero where the effective
/// share reserves, the bond reserves or the denominator are not positive.
pub open spec fn spot_rate_units(z: int, y: int, c: int) -> int {
    if z <= 0 || y <= 0 || mul_units(z, c) + y <= 0 {
        0
    } else {
        div_units(mul_units(z, c), mul_units(z, c) + y) - scale()
    }
}

/// Whether each step of the spot rate stays in range.
pub open spec fn spot_rate_fits(z: int, y: int, c: int) -> bool {
    z <= 0 || y <= 0 || {
        &&& fits_rounded(mul_units(z, c))
        &&& fits(mul_units(z, c) + y)
        &&& mul_units(z, c) + y > 0 ==> {
            &&& fits_rounded(div_units(mul_units(z, c), mul_units(z, c) + y))
            &&& fits(spot_rate_units(z, y, c))
        }
    }
}

/// Whether a fee lies in `[0, 1]`.
pub open spec fn valid_fee(fee: int) -> bool {
    0 <= fee <= scale()
}

/// Whether the two durations can describe a pool: both positive, the position
/// duration a multiple of the checkpoint duration, at least one checkpoint and
/// at most ten years long.
pub open spec fn valid_durations(checkpoint_duration: u64, position_duration: u64) -> bool {
    &&& checkpoint_duration > 0
    &&& position_duration > 0
    &&& checkpoint_duration <= position_duration <= MAX_POSITION_DURATION
    &&& position_duration % checkpoint_duration == 0
}

/// The fraction of a position's term that is left, in units: zero once the
/// position has matured or where its two times are out of order, one until it
/// has opened, and `(maturity - now) / (maturity - open)` rounded down between.
pub open spec fn time_remaining_units(now: u64, open: u64, maturity: u64) -> int {
    if now >= maturity || open >= maturity {
        0
    } else if now <= open {
        scale()
    } else {
        ((maturity - now) * scale()) / (maturity - open)
    }
}

/// The start of the time bucket that `now` falls in.
pub open spec fn checkpoint_of(now: u64, checkpoint_duration: u64) -> u64
    recommends
        checkpoint_duration > 0,
{
    (now - now % checkpoint_duration) as u64
}

/// Share reserves that the curve prices against: `share_reserves` less
/// `zeta_adjustment`.
pub fn calculate_effective_share_reserves(share_reserves: Decimal, zeta_adjustment: Decimal) -> (r:
    Result<Decimal, PoolError>)
    ensures
        r is Ok <==> fits(share_reserves@ - zeta_adjustment@),
        r matches Ok(v) ==> v@ == share_reserves@ - zeta_adjustment@,
        r matches Err(e) ==> e == PoolError::ArithmeticOverflow,
{
    share_reserves.try_sub(zeta_adjustment)
}

/// The pool's current spot rate.
pub fn calculate_spot_rate(
    effective_share_reserves: Decimal,
    bond_reserves: Decimal,
    share_price: Decimal,
) -> (r: Result<Decimal, PoolError>)
    ensures
        r is Ok <==> spot_rate_fits(effective_share_reserves@, bond_reserves@, share_price@),
        r matches Ok(v) ==> v@ == spot_rate_units(
            effective_share_reserves@,
            bond_reserves@,
            share_price@,
        ),
        r matches Err(e) ==> e == PoolError::ArithmeticOverflow,
{
    let zero = Decimal::zero();
    if effective_share_reserves.le(zero) || bond_reserves.le(zero) {
        return Ok(zero);
    }
    let numerator = effective_share_reserves.try_mul(share_price)?;
    let denominator = numerator.try_add(bond_reserves)?;
    if denominator.le(zero) {
        return Ok(zero);
    }
    let ratio = numerator.try_div(denominator)?;
    ratio.try_sub(Decimal::one())
}

/// Accepts a fee in `[0, 1]`.
pub fn validate_fee(fee: Decimal) -> (r: Result<(), PoolError>)
    ensures
        r is Ok <==> valid_fee(fee@),
        r matches Err(e) ==> e == PoolError::InvalidParameter,
{
    if fee.ge(Decimal::zero()) && fee.le(Decimal::one()) {
        Ok(())
    } else {
        Err(PoolError::InvalidParameter)
    }
}

/// Accepts durations that can describe a pool.
pub fn validate_durations(checkpoint_duration: u64, position_duration: u64) -> (r: Result<
    (),
    PoolError,
>)
    ensures
        r is Ok <==> valid_durations(checkpoint_duration, position_duration),
        r matches Err(e) ==> e == PoolError::InvalidParameter,
{
    if checkpoint_duration == 0 || position_duration == 0 {
        return Err(PoolError::InvalidParameter);
    }
    if position_duration < checkpoint_duration || position_duration > MAX_POSITION_DURATION {
        return Err(PoolError::InvalidParameter);
    }
    if position_duration % checkpoint_duration != 0 {
        return Err(PoolError::InvalidParameter);
    }
    Ok(())
}

/// Accepts an amount of liquidity of at least `min_amount`.
pub fn validate_liquidity_amount(amount: Decimal, min_amount: Decimal) -> (r: Result<
    (),
    PoolError,
>)
    ensures
        r is Ok <==> amount@ >= min_amount@,
        r matches Err(e) ==> e == PoolError::InvalidParameter,
{
    if amount.ge(min_amount) {
        Ok(())
    } else {
        Err(PoolError::InvalidParameter)
    }
}

/// Accepts an asset that is the expected one.
pub fn validate_resource_address(actual: ResourceAddress, expected: ResourceAddress) -> (r: Result<
    (),
    PoolError,
>)
    ensures
        r is Ok <==> actual@ == expected@,
        r matches Err(e) ==> e == PoolError::ResourceMismatch,
{
    if actual.same_as(&expected) {
        Ok(())
    } else {
        Err(PoolError::ResourceMismatch)
    }
}

/// The fraction of a position's term that is left, between zero and one.
pub fn calculate_time_remaining(current_time: u64, open_time: u64, maturity_time: u64) -> (r:
    Decimal)
    ensures
        r@ == time_remaining_units(current_time, open_time, maturity_time),
        0 <= r@ <= scale(),
{
    if current_time >= maturity_time {
        return Decimal::zero();
    }
    if open_time >= maturity_time {
        return Decimal::zero();
    }
    let time_passed = current_time.saturating_sub(open_time);
    let total_duration = maturity_time - open_time;
    let remaining_duration = total_duration - time_passed;
    let remaining = Decimal::from_u64(remaining_duration);
    let total = Decimal::from_u64(total_duration);
    proof {
        lemma_fraction_of_term(remaining_duration as int, total_duration as int);
    }
    remaining.checked_div(total).unwrap()
}

/// The id of the checkpoint that `current_time` falls in.
pub fn calculate_current_checkpoint(current_time: u64, checkpoint_duration: u64) -> (r: u64)
    requires
        checkpoint_duration > 0,
    ensures
        r == checkpoint_of(current_time, checkpoint_duration),
        r <= current_time < r + checkpoint_duration,
        r % checkpoint_duration == 0,
{
    proof {
        vstd::arithmetic::div_mod::lemma_fundamental_div_mod(
            current_time as int,
            checkpoint_duration as int,
        );
        let q = current_time as int / checkpoint_duration as int;
        vstd::arithmetic::div_mod::lemma_mod_multiples_basic(q, checkpoint_duration as int);
        assert(q * checkpoint_duration == checkpoint_duration * q) by (nonlinear_arith);
    }
    current_time - (current_time % checkpoint_duration)
}

/// Whether the clock has moved into a later checkpoint than the current one.
pub fn should_update_checkpoint(current_checkpoint: u64, calculated_checkpoint: u64) -> (r: bool)
    ensures
        r == (calculated_checkpoint > current_checkpoint),
{
    calculated_checkpoint > current_checkpoint
}

/// Accepts exactly one position token of the expected kind.
pub fn validate_single_nft(
    resource: ResourceAddress,
    amount: Decimal,
    expected_resource: ResourceAddress,
) -> (r: Result<(), PoolError>)
    ensures
        r is Ok <==> resource@ == expected_resource@ && amount@ == scale(),
        r matches Err(e) ==> e == PoolError::ResourceMismatch,
{
    validate_resource_address(resource, expected_resource)?;
    if amount == Decimal::one() {
        Ok(())
    } else {
        Err(PoolError::ResourceMismatch)
    }
}

/// A part of a whole, both whole numbers, divides to the part's share of one,
/// rounded down.
proof fn lemma_fraction_of_term(part: int, whole: int)
    requires
        0 <= part <= whole,
        0 < whole,
    ensures
        div_units(part * scale(), whole * scale()) == (part * scale()) / whole,
        0 <= (part * scale()) / whole <= scale(),
        part == whole ==> (part * scale()) / whole == scale(),
        fits_rounded(div_units(part * scale(), whole * scale())),
        whole * scale() != 0,
{
    reveal(div_units);
    let s = scale();
    assert(part * s >= 0 && whole * s > 0 && (part * s) * s >= 0 && (part * s) * s == s * (part
        * s) && whole * s == s * whole) by (nonlinear_arith)
        requires
            0 <= part,
            0 < whole,
            s > 0,
    ;
    vstd::arithmetic::div_mod::lemma_div_multiples_vanish_quotient(s, part * s, whole);
    assert(0 <= (part * s) / whole <= s) by (nonlinear_arith)
        requires
            0 <= part <= whole,
            0 < whole,
            s > 0,
    ;
    if part == whole {
        assert((part * s) / whole == s) by (nonlinear_arith)
            requires
                part == whole,
                0 < whole,
                s > 0,
        ;
    }
}

} // verus!
