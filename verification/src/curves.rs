//! The pricing curve: the constant-product trading invariant, pricing at
//! maturity, their blend by time remaining, the fee schedule and the quotes
//! built on them. Every function is pure.
//!
//! Each quantity has two spec functions over units: `.._units`, the value, and
//! `.._fits`, whether every step of computing it stays inside the decimal
//! range. The executable function answers `Ok` exactly where the steps fit.

use crate::decimal::{
    div_units, fits, fits_rounded, lemma_view_properties, mul_units, quotient_toward_zero,
    scale, Decimal,
};
use crate::error::PoolError;
use vstd::prelude::*;

verus! {

/// Share cost of taking `dy` bonds out of a pool holding `z` shares and `y`
/// bonds along `z * y = (z + dz) * (y - dy)`. An empty pool trades one for
/// one; a trade for all the bonds or more is quoted as zero.
pub open spec fn trading_invariant_units(dy: int, z: int, y: int) -> int {
    if z <= 0 || y <= 0 {
        dy
    } else if y - dy <= 0 {
        0
    } else {
        div_units(mul_units(z, y), y - dy) - z
    }
}

/// Whether each step of the trading invariant stays in range.
pub open spec fn trading_invariant_fits(dy: int, z: int, y: int) -> bool {
    z <= 0 || y <= 0 || {
        &&& fits_rounded(mul_units(z, y))
        &&& fits(y - dy)
        &&& y - dy > 0 ==> {
            &&& fits_rounded(div_units(mul_units(z, y), y - dy))
            &&& fits(div_units(mul_units(z, y), y - dy) - z)
        }
    }
}

/// Whether a trade for `dy` bonds asks for all the bonds of a funded pool or
/// more, so that the trading invariant has no price for it.
pub open spec fn drains_bonds(dy: int, z: int, y: int) -> bool {
    z > 0 && y > 0 && y - dy <= 0
}

/// Shares that `dy` of matured bonds redeem for at share price `c`; zero where
/// the price is not positive.
pub open spec fn maturity_pricing_units(dy: int, c: int) -> int {
    if c <= 0 {
        0
    } else {
        div_units(dy, c)
    }
}

/// Whether the price at maturity stays in range.
pub open spec fn maturity_pricing_fits(dy: int, c: int) -> bool {
    c <= 0 || fits_rounded(div_units(dy, c))
}

/// The part of a face value that has not matured, at time remaining `tr`.
pub open spec fn unmatured_units(dy: int, tr: int) -> int {
    mul_units(dy, tr)
}

/// The part of a face value that has matured, at time remaining `tr`.
pub open spec fn matured_units(dy: int, tr: int) -> int {
    mul_units(dy, scale() - tr)
}

/// Share impact of a position of face value `dy` with time remaining `tr`:
/// the unmatured part priced on the curve plus the matured part priced at
/// maturity, a part that is not positive counting for nothing.
pub open spec fn position_impact_units(dy: int, z: int, y: int, tr: int, c: int) -> int {
    (if unmatured_units(dy, tr) > 0 {
        trading_invariant_units(unmatured_units(dy, tr), z, y)
    } else {
        0
    }) + (if matured_units(dy, tr) > 0 {
        maturity_pricing_units(matured_units(dy, tr), c)
    } else {
        0
    })
}

/// Whether each step of the share impact stays in range.
pub open spec fn position_impact_fits(dy: int, z: int, y: int, tr: int, c: int) -> bool {
    &&& fits_rounded(unmatured_units(dy, tr))
    &&& fits(scale() - tr)
    &&& fits_rounded(matured_units(dy, tr))
    &&& unmatured_units(dy, tr) > 0 ==> trading_invariant_fits(unmatured_units(dy, tr), z, y)
    &&& matured_units(dy, tr) > 0 ==> maturity_pricing_fits(matured_units(dy, tr), c)
    &&& fits(position_impact_units(dy, z, y, tr, c))
}

/// Fee on the unmatured part: `phi_new * (1 - spot_rate) * dy * tr`, each
/// product rounded in turn.
pub open spec fn new_bond_fee_units(dy: int, tr: int, spot_rate: int, phi_new: int) -> int {
    mul_units(mul_units(mul_units(phi_new, scale() - spot_rate), dy), tr)
}

/// Fee on the matured part: `phi_matured * dy * (1 - tr)`, each product
/// rounded in turn.
pub open spec fn matured_bond_fee_units(dy: int, tr: int, phi_matured: int) -> int {
    mul_units(mul_units(phi_matured, dy), scale() - tr)
}

/// Whether each step of the two fees stays in range.
pub open spec fn position_fees_fit(
    dy: int,
    tr: int,
    spot_rate: int,
    phi_new: int,
    phi_matured: int,
) -> bool {
    &&& fits(scale() - spot_rate)
    &&& fits_rounded(mul_units(phi_new, scale() - spot_rate))
    &&& fits_rounded(mul_units(mul_units(phi_new, scale() - spot_rate), dy))
    &&& fits_rounded(new_bond_fee_units(dy, tr, spot_rate, phi_new))
    &&& fits_rounded(mul_units(phi_matured, dy))
    &&& fits(scale() - tr)
    &&& fits_rounded(matured_bond_fee_units(dy, tr, phi_matured))
}

/// Value of one liquidity share: `(z * c + y) / supply`, and one where no
/// share has been issued.
pub open spec fn lp_present_value_units(z: int, y: int, c: int, supply: int) -> int {
    if supply <= 0 {
        scale()
    } else {
        div_units(mul_units(z, c) + y, supply)
    }
}

/// Whether each step of the present value stays in range.
pub open spec fn lp_present_value_fits(z: int, y: int, c: int, supply: int) -> bool {
    supply <= 0 || {
        &&& fits_rounded(mul_units(z, c))
        &&& fits(mul_units(z, c) + y)
        &&& fits_rounded(div_units(mul_units(z, c) + y, supply))
    }
}

/// Face value bought with `share_in` shares: the trading invariant solved for
/// the bonds, `y - (z * y) / (z + share_in)`; one for one in an empty pool.
pub open spec fn long_face_value_units(share_in: int, z: int, y: int) -> int {
    if z <= 0 || y <= 0 {
        share_in
    } else {
        y - div_units(mul_units(z, y), z + share_in)
    }
}

/// Whether each step of the face value stays in range, with a divisor that is not zero.
pub open spec fn long_face_value_fits(share_in: int, z: int, y: int) -> bool {
    z <= 0 || y <= 0 || {
        &&& fits_rounded(mul_units(z, y))
        &&& fits(z + share_in)
        &&& z + share_in != 0
        &&& fits_rounded(div_units(mul_units(z, y), z + share_in))
        &&& fits(long_face_value_units(share_in, z, y))
    }
}

/// Collateral for a short of face value `dy`: `dy * c` less the share impact
/// valued at `c`.
pub open spec fn short_deposit_units(dy: int, z: int, y: int, c: int, tr: int) -> int {
    mul_units(dy, c) - mul_units(position_impact_units(dy, z, y, tr, c), c)
}

/// Whether each step of the deposit stays in range.
pub open spec fn short_deposit_fits(dy: int, z: int, y: int, c: int, tr: int) -> bool {
    &&& position_impact_fits(dy, z, y, tr, c)
    &&& fits_rounded(mul_units(dy, c))
    &&& fits_rounded(mul_units(position_impact_units(dy, z, y, tr, c), c))
    &&& fits(short_deposit_units(dy, z, y, c, tr))
}

/// The error that `validate_trading_parameters` answers, if any: the first of
/// the four rules that the parameters break.
pub open spec fn trading_parameters_error(z: int, y: int, dy: int) -> Option<PoolError> {
    if z <= 0 || y <= 0 {
        Some(PoolError::InsufficientLiquidity)
    } else if dy <= 0 {
        Some(PoolError::InvalidParameter)
    } else if dy >= y {
        Some(PoolError::InsufficientLiquidity)
    } else {
        None
    }
}

/// Change in share reserves for a change `delta_y` in bond reserves on the
/// constant-product curve.
///
/// For a funded pool and a trade for less than all its bonds, the product of
/// the reserves after the trade is the product before it, less a rounding
/// loss below one unit plus one unit per whole bond left; the share cost is
/// not negative where the share reserves times the bonds traded come to one
/// unit or more.
pub fn trading_invariant_delta_z(delta_y: Decimal, z: Decimal, y: Decimal) -> (r: Result<
    Decimal,
    PoolError,
>)
    ensures
        r is Ok <==> trading_invariant_fits(delta_y@, z@, y@),
        r matches Ok(v) ==> v@ == trading_invariant_units(delta_y@, z@, y@),
        r matches Err(e) ==> e == PoolError::ArithmeticOverflow,
        r matches Ok(v) ==> (z@ > 0 && y@ > 0 && 0 < delta_y@ < y@ ==> 0 <= z@ * y@ - (z@ + v@) * (
        y@ - delta_y@) < scale() + (y@ - delta_y@)),
        r matches Ok(v) ==> (z@ > 0 && y@ > 0 && 0 < delta_y@ < y@ && z@ * delta_y@ >= scale()
            ==> v@ >= 0),
{
    let zero = Decimal::zero();
    if z.le(zero) || y.le(zero) {
        return Ok(delta_y);
    }
    let k = z.try_mul(y)?;
    let new_y = y.try_sub(delta_y)?;
    if new_y.le(zero) {
        return Ok(zero);
    }
    let new_z = k.try_div(new_y)?;
    let r = new_z.try_sub(z);
    proof {
        if 0 < delta_y@ < y@ {
            lemma_trading_invariant_keeps_product(delta_y@, z@, y@);
        }
    }
    r
}

/// Share cost of bonds at maturity: `delta_y / share_price`, and zero where
/// the share price is not positive.
pub fn maturity_pricing_delta_z(delta_y: Decimal, share_price: Decimal) -> (r: Result<
    Decimal,
    PoolError,
>)
    ensures
        r is Ok <==> maturity_pricing_fits(delta_y@, share_price@),
        r matches Ok(v) ==> v@ == maturity_pricing_units(delta_y@, share_price@),
        r matches Err(e) ==> e == PoolError::ArithmeticOverflow,
{
    if share_price.le(Decimal::zero()) {
        return Ok(Decimal::zero());
    }
    delta_y.try_div(share_price)
}

/// Share impact of a position with `time_remaining` of its term left: the
/// unmatured part of the face value priced on the curve, the matured part at
/// maturity.
pub fn position_impact_delta_z(
    delta_y: Decimal,
    z: Decimal,
    y: Decimal,
    time_remaining: Decimal,
    share_price: Decimal,
) -> (r: Result<Decimal, PoolError>)
    ensures
        r is Ok <==> position_impact_fits(delta_y@, z@, y@, time_remaining@, share_price@),
        r matches Ok(v) ==> v@ == position_impact_units(
            delta_y@,
            z@,
            y@,
            time_remaining@,
            share_price@,
        ),
        r matches Err(e) ==> e == PoolError::ArithmeticOverflow,
{
    let zero = Decimal::zero();
    let new_bonds = delta_y.try_mul(time_remaining)?;
    let elapsed = Decimal::one().try_sub(time_remaining)?;
    let matured_bonds = delta_y.try_mul(elapsed)?;
    let impact_new = if new_bonds.gt(zero) {
        trading_invariant_delta_z(new_bonds, z, y)?
    } else {
        zero
    };
    let impact_matured = if matured_bonds.gt(zero) {
        maturity_pricing_delta_z(matured_bonds, share_price)?
    } else {
        zero
    };
    impact_new.try_add(impact_matured)
}

/// The share impact of a position as a quote that can fail: a position whose
/// unmatured part asks for all the bonds of a funded pool or more has no
/// price.
pub open spec fn position_quote_error(dy: int, z: int, y: int, tr: int, c: int) -> Option<
    PoolError,
> {
    if !position_impact_fits(dy, z, y, tr, c) {
        Some(PoolError::ArithmeticOverflow)
    } else if unmatured_units(dy, tr) > 0 && drains_bonds(unmatured_units(dy, tr), z, y) {
        Some(PoolError::InsufficientLiquidity)
    } else {
        None
    }
}

/// Quotes the share impact of a position, refusing the one whose unmatured
/// part would drain the bond reserves instead of pricing it at zero.
pub fn quote_position_impact(
    delta_y: Decimal,
    z: Decimal,
    y: Decimal,
    time_remaining: Decimal,
    share_price: Decimal,
) -> (r: Result<Decimal, PoolError>)
    ensures
        match r {
            Ok(v) => position_quote_error(delta_y@, z@, y@, time_remaining@, share_price@)
                is None && v@ == position_impact_units(
                delta_y@,
                z@,
                y@,
                time_remaining@,
                share_price@,
            ),
            Err(e) => position_quote_error(delta_y@, z@, y@, time_remaining@, share_price@)
                == Some(e),
        },
{
    let zero = Decimal::zero();
    let impact = position_impact_delta_z(delta_y, z, y, time_remaining, share_price)?;
    let new_bonds = delta_y.try_mul(time_remaining)?;
    if new_bonds.gt(zero) && z.gt(zero) && y.gt(zero) {
        let left = y.try_sub(new_bonds)?;
        if left.le(zero) {
            return Err(PoolError::InsufficientLiquidity);
        }
    }
    Ok(impact)
}

/// The two fees of a position, `(fee_new, fee_matured)`: on the unmatured part
/// `new_bond_fee * (1 - spot_rate) * delta_y * time_remaining`, on the matured
/// part `matured_bond_fee * delta_y * (1 - time_remaining)`.
pub fn calculate_position_fees(
    delta_y: Decimal,
    time_remaining: Decimal,
    spot_rate: Decimal,
    new_bond_fee: Decimal,
    matured_bond_fee: Decimal,
) -> (r: Result<(Decimal, Decimal), PoolError>)
    ensures
        r is Ok <==> position_fees_fit(
            delta_y@,
            time_remaining@,
            spot_rate@,
            new_bond_fee@,
            matured_bond_fee@,
        ),
        r matches Ok(fees) ==> {
            &&& fees.0@ == new_bond_fee_units(delta_y@, time_remaining@, spot_rate@, new_bond_fee@)
            &&& fees.1@ == matured_bond_fee_units(delta_y@, time_remaining@, matured_bond_fee@)
        },
        r matches Err(e) ==> e == PoolError::ArithmeticOverflow,
{
    let one = Decimal::one();
    let discount = one.try_sub(spot_rate)?;
    let rate = new_bond_fee.try_mul(discount)?;
    let on_face = rate.try_mul(delta_y)?;
    let fee_new = on_face.try_mul(time_remaining)?;
    let matured_on_face = matured_bond_fee.try_mul(delta_y)?;
    let elapsed = one.try_sub(time_remaining)?;
    let fee_matured = matured_on_face.try_mul(elapsed)?;
    Ok((fee_new, fee_matured))
}

/// Present value of one liquidity share.
pub fn calculate_lp_present_value(
    share_reserves: Decimal,
    bond_reserves: Decimal,
    share_price: Decimal,
    active_lp_shares: Decimal,
) -> (r: Result<Decimal, PoolError>)
    ensures
        r is Ok <==> lp_present_value_fits(
            share_reserves@,
            bond_reserves@,
            share_price@,
            active_lp_shares@,
        ),
        r matches Ok(v) ==> v@ == lp_present_value_units(
            share_reserves@,
            bond_reserves@,
            share_price@,
            active_lp_shares@,
        ),
        r matches Err(e) ==> e == PoolError::ArithmeticOverflow,
{
    if active_lp_shares.le(Decimal::zero()) {
        return Ok(Decimal::one());
    }
    let share_value = share_reserves.try_mul(share_price)?;
    let total_value = share_value.try_add(bond_reserves)?;
    total_value.try_div(active_lp_shares)
}

/// Face value of the bonds that `share_amount` shares buy.
pub fn calculate_long_face_value(
    share_amount: Decimal,
    effective_share_reserves: Decimal,
    bond_reserves: Decimal,
) -> (r: Result<Decimal, PoolError>)
    ensures
        r is Ok <==> long_face_value_fits(share_amount@, effective_share_reserves@, bond_reserves@),
        r matches Ok(v) ==> v@ == long_face_value_units(
            share_amount@,
            effective_share_reserves@,
            bond_reserves@,
        ),
        r matches Err(e) ==> e == PoolError::ArithmeticOverflow,
{
    let zero = Decimal::zero();
    if effective_share_reserves.le(zero) || bond_reserves.le(zero) {
        return Ok(share_amount);
    }
    let k = effective_share_reserves.try_mul(bond_reserves)?;
    let new_z = effective_share_reserves.try_add(share_amount)?;
    let kept = k.try_div(new_z)?;
    bond_reserves.try_sub(kept)
}

/// Deposit that a short of `face_value` requires.
pub fn calculate_short_deposit(
    face_value: Decimal,
    effective_share_reserves: Decimal,
    bond_reserves: Decimal,
    share_price: Decimal,
    time_remaining: Decimal,
) -> (r: Result<Decimal, PoolError>)
    ensures
        r is Ok <==> short_deposit_fits(
            face_value@,
            effective_share_reserves@,
            bond_reserves@,
            share_price@,
            time_remaining@,
        ),
        r matches Ok(v) ==> v@ == short_deposit_units(
            face_value@,
            effective_share_reserves@,
            bond_reserves@,
            share_price@,
            time_remaining@,
        ),
        r matches Err(e) ==> e == PoolError::ArithmeticOverflow,
{
    let delta_z = position_impact_delta_z(
        face_value,
        effective_share_reserves,
        bond_reserves,
        time_remaining,
        share_price,
    )?;
    let collateral_required = face_value.try_mul(share_price)?;
    let proceeds_received = delta_z.try_mul(share_price)?;
    collateral_required.try_sub(proceeds_received)
}

/// Accepts a trade for `delta_y` bonds only against a funded pool, for a
/// positive amount below the bond reserves.
pub fn validate_trading_parameters(
    effective_share_reserves: Decimal,
    bond_reserves: Decimal,
    delta_y: Decimal,
) -> (r: Result<(), PoolError>)
    ensures
        r == match trading_parameters_error(effective_share_reserves@, bond_reserves@, delta_y@) {
            Some(e) => Err::<(), PoolError>(e),
            None => Ok(()),
        },
{
    let zero = Decimal::zero();
    if effective_share_reserves.le(zero) || bond_reserves.le(zero) {
        return Err(PoolError::InsufficientLiquidity);
    }
    if delta_y.le(zero) {
        return Err(PoolError::InvalidParameter);
    }
    if delta_y.ge(bond_reserves) {
        return Err(PoolError::InsufficientLiquidity);
    }
    Ok(())
}

/// On a funded pool, a trade for less than all the bonds keeps the product of
/// the reserves up to rounding: `z * y - (z + dz) * (y - dy)` is at least zero
/// and below `scale() + (y - dy)`. The share cost `dz` is not negative where
/// the product of the share reserves and the bonds traded is one unit or
/// more; below that, rounding may eat the product and leave a cost below
/// nothing.
pub proof fn lemma_trading_invariant_keeps_product(dy: int, z: int, y: int)
    requires
        z > 0,
        y > 0,
        0 < dy < y,
    ensures
        ({
            let dz = trading_invariant_units(dy, z, y);
            &&& 0 <= z * y - (z + dz) * (y - dy) < scale() + (y - dy)
            &&& z * dy >= scale() ==> dz >= 0
        }),
{
    reveal(mul_units);
    reveal(div_units);
    let s = scale();
    let k = mul_units(z, y);
    let ny = y - dy;
    let nz = div_units(k, ny);
    assert(z * y >= 0) by (nonlinear_arith)
        requires
            z > 0,
            y > 0,
    ;
    assert(k == (z * y) / s);
    vstd::arithmetic::div_mod::lemma_fundamental_div_mod(z * y, s);
    vstd::arithmetic::div_mod::lemma_mod_bound(z * y, s);
    assert(k >= 0) by (nonlinear_arith)
        requires
            z * y == s * k + (z * y) % s,
            0 <= (z * y) % s < s,
            z * y >= 0,
            s > 0,
    ;
    assert(k * s >= 0) by (nonlinear_arith)
        requires
            k >= 0,
            s > 0,
    ;
    assert(nz == (k * s) / ny);
    vstd::arithmetic::div_mod::lemma_fundamental_div_mod(k * s, ny);
    vstd::arithmetic::div_mod::lemma_mod_bound(k * s, ny);
    assert(z * y - nz * ny == (z * y) % s + (k * s) % ny) by (nonlinear_arith)
        requires
            z * y == s * k + (z * y) % s,
            k * s == ny * nz + (k * s) % ny,
    ;
    let dz = nz - z;
    if z * dy >= s {
        assert((dz + 1) * ny == nz * ny - z * y + z * dy + ny) by (nonlinear_arith)
            requires
                dz == nz - z,
                ny == y - dy,
        ;
        assert(dz + 1 > 0) by (nonlinear_arith)
            requires
                (dz + 1) * ny > 0,
                ny > 0,
        ;
    }
}

/// A product with one is the other factor, and a product with zero is zero.
pub proof fn lemma_mul_units_by_one_and_zero(a: int)
    ensures
        mul_units(a, scale()) == a,
        mul_units(a, 0) == 0,
{
    reveal(mul_units);
    let s = scale();
    assert(a * 0 == 0) by (nonlinear_arith);
    if a >= 0 {
        assert((a * s) / s == a && a * s >= 0) by (nonlinear_arith)
            requires
                a >= 0,
                s > 0,
        ;
    } else {
        assert((-(a * s)) / s == -a && a * s < 0) by (nonlinear_arith)
            requires
                a < 0,
                s > 0,
        ;
    }
}

/// A quotient by one is the dividend.
pub proof fn lemma_div_units_by_one(a: int)
    ensures
        div_units(a, scale()) == a,
{
    reveal(div_units);
    let s = scale();
    if a >= 0 {
        assert((a * s) / s == a && a * s >= 0) by (nonlinear_arith)
            requires
                a >= 0,
                s > 0,
        ;
    } else {
        assert((-(a * s)) / s == -a && a * s < 0) by (nonlinear_arith)
            requires
                a < 0,
                s > 0,
        ;
    }
}

/// Zero divided by anything but zero is zero.
pub proof fn lemma_div_units_of_zero(b: int)
    requires
        b != 0,
    ensures
        div_units(0, b) == 0,
{
    reveal(div_units);
    assert(0 * scale() == 0) by (nonlinear_arith);
    if b > 0 {
        assert(0int / b == 0) by (nonlinear_arith)
            requires
                b > 0,
        ;
    } else {
        assert(0int / (-b) == 0) by (nonlinear_arith)
            requires
                b < 0,
        ;
    }
}

/// With the whole term left, a position of positive face value is priced by
/// the trading invariant alone: the impact is the trading invariant's share
/// cost, and it is computed exactly where that is.
pub proof fn lemma_position_impact_at_full_term(
    delta_y: Decimal,
    z: Decimal,
    y: Decimal,
    share_price: Decimal,
)
    requires
        delta_y@ > 0,
    ensures
        position_impact_units(delta_y@, z@, y@, scale(), share_price@) == trading_invariant_units(
            delta_y@,
            z@,
            y@,
        ),
        position_impact_fits(delta_y@, z@, y@, scale(), share_price@) <==> trading_invariant_fits(
            delta_y@,
            z@,
            y@,
        ),
{
    lemma_mul_units_by_one_and_zero(delta_y@);
    lemma_view_properties(delta_y, z);
}

/// With no time left, a position of face value zero or more is priced at
/// maturity alone: the impact is the maturity price, and it is computed
/// exactly where that is.
pub proof fn lemma_position_impact_at_maturity(
    delta_y: Decimal,
    z: Decimal,
    y: Decimal,
    share_price: Decimal,
)
    requires
        delta_y@ >= 0,
    ensures
        position_impact_units(delta_y@, z@, y@, 0, share_price@) == maturity_pricing_units(
            delta_y@,
            share_price@,
        ),
        position_impact_fits(delta_y@, z@, y@, 0, share_price@) <==> maturity_pricing_fits(
            delta_y@,
            share_price@,
        ),
{
    lemma_mul_units_by_one_and_zero(delta_y@);
    lemma_view_properties(delta_y, z);
    if share_price@ != 0 {
        lemma_div_units_of_zero(share_price@);
    }
}

/// Whether the fixed-point product of `a` and `b` is exact, with nothing
/// rounded away.
pub open spec fn exact_product(a: int, b: int) -> bool {
    (a * b) % scale() == 0
}

/// A rate applied to a face value and then to a share of the term:
/// `(a * dy) * t`, each product rounded in turn. Both fees have this shape.
pub open spec fn fee_units(a: int, dy: int, t: int) -> int {
    mul_units(mul_units(a, dy), t)
}

/// The size of an amount, whatever its sign.
pub open spec fn magnitude(a: int) -> int {
    if a >= 0 {
        a
    } else {
        -a
    }
}

/// Scaling back twice a product and `w` more of the same sign gives twice the
/// product scaled back and, in units of the scale, less than two units and
/// `w` more.
proof fn lemma_scaled_back_double(x: int, w: int)
    ensures
        x >= 0 && w >= 0 ==> 0 <= scale() * (quotient_toward_zero(2 * x + w, scale()) - 2
            * quotient_toward_zero(x, scale())) < 2 * scale() + w,
        x <= 0 && w <= 0 ==> -(2 * scale() - w) < scale() * (quotient_toward_zero(
            2 * x + w,
            scale(),
        ) - 2 * quotient_toward_zero(x, scale())) <= 0,
        x >= 0 ==> 0 <= quotient_toward_zero(2 * x, scale()) - 2 * quotient_toward_zero(
            x,
            scale(),
        ) <= 1,
        x <= 0 ==> -1 <= quotient_toward_zero(2 * x, scale()) - 2 * quotient_toward_zero(
            x,
            scale(),
        ) <= 0,
        x % scale() == 0 ==> quotient_toward_zero(2 * x, scale()) == 2 * quotient_toward_zero(
            x,
            scale(),
        ),
        x >= 0 ==> quotient_toward_zero(x, scale()) >= 0,
        x <= 0 ==> quotient_toward_zero(x, scale()) <= 0,
{
}

/// Doubling the face value doubles a fee up to rounding, whatever the share
/// of the term `t`: the one unit that rounding the first product may cost is
/// carried through the product with `t`, so the fee on twice the face value
/// differs from twice the fee by less than `2 + |t|` units, `|t|` being the
/// size of `t` as a number. For `t` of size one or less that is at most two
/// units, and the two are equal where no product is rounded.
pub proof fn lemma_fee_of_double_face_value(a: int, dy: int, t: int)
    ensures
        -(2 * scale() + magnitude(t)) < scale() * (fee_units(a, 2 * dy, t) - 2 * fee_units(
            a,
            dy,
            t,
        )) < 2 * scale() + magnitude(t),
        magnitude(t) <= scale() ==> -2 <= fee_units(a, 2 * dy, t) - 2 * fee_units(a, dy, t) <= 2,
        exact_product(a, dy) && exact_product(mul_units(a, dy), t) ==> fee_units(a, 2 * dy, t) == 2
            * fee_units(a, dy, t),
{
    reveal(mul_units);
    let s = scale();
    let x = a * dy;
    let b = mul_units(a, dy);
    let b2 = mul_units(a, 2 * dy);
    assert(a * (2 * dy) == 2 * x) by (nonlinear_arith)
        requires
            x == a * dy,
    ;
    lemma_scaled_back_double(x, 0);
    let e = b2 - 2 * b;
    let u = b * t;
    let w = e * t;
    assert(b2 * t == 2 * u + w) by (nonlinear_arith)
        requires
            e == b2 - 2 * b,
            u == b * t,
            w == e * t,
    ;
    if x >= 0 {
        assert(if t >= 0 {
            u >= 0 && 0 <= w <= t
        } else {
            u <= 0 && t <= w <= 0
        }) by (nonlinear_arith)
            requires
                u == b * t,
                w == e * t,
                b >= 0,
                0 <= e <= 1,
        ;
    } else {
        assert(if t >= 0 {
            u <= 0 && -t <= w <= 0
        } else {
            u >= 0 && 0 <= w <= -t
        }) by (nonlinear_arith)
            requires
                u == b * t,
                w == e * t,
                b <= 0,
                -1 <= e <= 0,
        ;
    }
    lemma_scaled_back_double(u, w);
    if exact_product(a, dy) && exact_product(b, t) {
        assert(e == 0);
        assert(w == 0) by (nonlinear_arith)
            requires
                e == 0,
                w == e * t,
        ;
        lemma_scaled_back_double(u, 0);
    }
}

/// The fees are linear in the face value up to rounding, at any time
/// remaining: each fee on twice the face value differs from twice the fee by
/// less than two units and the size of its share of the term as a number,
/// which is the time remaining for the fee on the unmatured part and one less
/// the time remaining for the fee on the matured part. At a time remaining in
/// `[0, 1]` that is at most two units, and the two are equal where no product
/// is rounded.
pub proof fn lemma_position_fees_linear_in_face_value(
    delta_y: int,
    time_remaining: int,
    spot_rate: int,
    new_bond_fee: int,
    matured_bond_fee: int,
)
    ensures
        ({
            let rate = mul_units(new_bond_fee, scale() - spot_rate);
            let fee_new = new_bond_fee_units(delta_y, time_remaining, spot_rate, new_bond_fee);
            let fee_new_twice = new_bond_fee_units(
                2 * delta_y,
                time_remaining,
                spot_rate,
                new_bond_fee,
            );
            let fee_matured = matured_bond_fee_units(delta_y, time_remaining, matured_bond_fee);
            let fee_matured_twice = matured_bond_fee_units(
                2 * delta_y,
                time_remaining,
                matured_bond_fee,
            );
            let new_bound = 2 * scale() + magnitude(time_remaining);
            let matured_bound = 2 * scale() + magnitude(scale() - time_remaining);
            &&& -new_bound < scale() * (fee_new_twice - 2 * fee_new) < new_bound
            &&& -matured_bound < scale() * (fee_matured_twice - 2 * fee_matured) < matured_bound
            &&& 0 <= time_remaining <= scale() ==> {
                &&& -2 <= fee_new_twice - 2 * fee_new <= 2
                &&& -2 <= fee_matured_twice - 2 * fee_matured <= 2
            }
            &&& exact_product(rate, delta_y) && exact_product(
                mul_units(rate, delta_y),
                time_remaining,
            ) ==> fee_new_twice == 2 * fee_new
            &&& exact_product(matured_bond_fee, delta_y) && exact_product(
                mul_units(matured_bond_fee, delta_y),
                scale() - time_remaining,
            ) ==> fee_matured_twice == 2 * fee_matured
        }),
{
    lemma_fee_of_double_face_value(
        mul_units(new_bond_fee, scale() - spot_rate),
        delta_y,
        time_remaining,
    );
    lemma_fee_of_double_face_value(matured_bond_fee, delta_y, scale() - time_remaining);
}

} // verus!
