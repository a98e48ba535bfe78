//! Fixed-point amounts: a 192-bit signed count of 10^-18 units, with the
//! arithmetic of the Scrypto `Decimal` behind it.
//!
//! An amount is held as three plain limbs, so that it can be compared and
//! reasoned about here; sums, differences, products and quotients are
//! computed by `scrypto::math::Decimal`. The five functions at the end of the
//! file make those calls, and what they claim of the results is taken on
//! trust.

use crate::error::PoolError;
use scrypto::math::{CheckedAdd, CheckedDiv, CheckedMul, CheckedSub, I192};
use vstd::prelude::*;

verus! {

/// Number of 10^-18 units in one whole unit.
pub open spec fn scale() -> int {
    1_000_000_000_000_000_000
}

/// Weight of the middle limb: 2^64.
pub open spec fn limb_base() -> int {
    0x1_0000_0000_0000_0000int
}

/// Weight of the high limb: 2^128.
pub open spec fn limb_base_squared() -> int {
    0x1_0000_0000_0000_0000_0000_0000_0000_0000int
}

/// Smallest number of units a decimal holds: -2^191.
pub open spec fn min_units() -> int {
    -0x8000_0000_0000_0000_0000_0000_0000_0000_0000_0000_0000_0000int
}

/// Largest number of units a decimal holds: 2^191 - 1.
pub open spec fn max_units() -> int {
    0x7FFF_FFFF_FFFF_FFFF_FFFF_FFFF_FFFF_FFFF_FFFF_FFFF_FFFF_FFFFint
}

/// Whether a number of units can be held by a decimal.
pub open spec fn fits(units: int) -> bool {
    min_units() <= units <= max_units()
}

/// Whether a number of units can come out of a product or a quotient: these
/// are formed in a wider number and narrowed by magnitude, which leaves out
/// the smallest number of the range.
pub open spec fn fits_rounded(units: int) -> bool {
    -max_units() <= units <= max_units()
}

/// The quotient of `n` by `d` rounded toward zero, as machine division does.
pub open spec fn quotient_toward_zero(n: int, d: int) -> int
    recommends
        d != 0,
{
    if n >= 0 {
        if d > 0 {
            n / d
        } else {
            -(n / (-d))
        }
    } else {
        if d > 0 {
            -((-n) / d)
        } else {
            (-n) / (-d)
        }
    }
}

/// Units of the fixed-point product of two amounts given in units: the exact
/// product, scaled back and rounded toward zero.
#[verifier::opaque]
pub open spec fn mul_units(a: int, b: int) -> int {
    quotient_toward_zero(a * b, scale())
}

/// Units of the fixed-point quotient of two amounts given in units: the exact
/// quotient at 18 fractional digits, rounded toward zero. Only meaningful for
/// `b != 0`.
#[verifier::opaque]
pub open spec fn div_units(a: int, b: int) -> int {
    quotient_toward_zero(a * scale(), b)
}

/// A signed fixed-point number with 18 fractional digits, held as a 192-bit
/// two's complement count of 10^-18 units in three limbs, least significant
/// first. Every triple of limbs is a value.
#[derive(Clone, Copy, Debug, PartialEq, Eq, Structural)]
pub struct Decimal {
    pub lo: u64,
    pub mid: u64,
    pub hi: i64,
}

impl View for Decimal {
    type V = int;

    /// The number of 10^-18 units.
    open spec fn view(&self) -> int {
        self.lo as int + self.mid as int * limb_base() + self.hi as int * limb_base_squared()
    }
}

/// Every decimal holds a number of units in range, and no two decimals hold
/// the same number.
pub proof fn lemma_view_properties(a: Decimal, b: Decimal)
    ensures
        fits(a@),
        a@ == b@ ==> a == b,
{
}

impl Decimal {
    /// The amount zero.
    pub fn zero() -> (r: Decimal)
        ensures
            r@ == 0,
    {
        Decimal { lo: 0, mid: 0, hi: 0 }
    }

    /// The amount one.
    pub fn one() -> (r: Decimal)
        ensures
            r@ == scale(),
    {
        Decimal { lo: 1_000_000_000_000_000_000, mid: 0, hi: 0 }
    }

    /// Whether this amount is less than `other`.
    pub fn lt(self, other: Decimal) -> (r: bool)
        ensures
            r == (self@ < other@),
    {
        if self.hi != other.hi {
            self.hi < other.hi
        } else if self.mid != other.mid {
            self.mid < other.mid
        } else {
            self.lo < other.lo
        }
    }

    /// Whether this amount is at most `other`.
    pub fn le(self, other: Decimal) -> (r: bool)
        ensures
            r == (self@ <= other@),
    {
        !other.lt(self)
    }

    /// Whether this amount is greater than `other`.
    pub fn gt(self, other: Decimal) -> (r: bool)
        ensures
            r == (self@ > other@),
    {
        other.lt(self)
    }

    /// Whether this amount is at least `other`.
    pub fn ge(self, other: Decimal) -> (r: bool)
        ensures
            r == (self@ >= other@),
    {
        !self.lt(other)
    }

    /// The larger of two amounts.
    pub fn max(self, other: Decimal) -> (r: Decimal)
        ensures
            r@ == if self@ >= other@ { self@ } else { other@ },
    {
        if self.lt(other) {
            other
        } else {
            self
        }
    }

    /// The smaller of two amounts.
    pub fn min(self, other: Decimal) -> (r: Decimal)
        ensures
            r@ == if self@ <= other@ { self@ } else { other@ },
    {
        if other.lt(self) {
            other
        } else {
            self
        }
    }

    /// The sum, or `None` where it leaves the range.
    pub fn checked_add(self, other: Decimal) -> (r: Option<Decimal>)
        ensures
            r is Some <==> fits(self@ + other@),
            r matches Some(v) ==> v@ == self@ + other@,
    {
        sum_of(self, other)
    }

    /// The difference, or `None` where it leaves the range.
    pub fn checked_sub(self, other: Decimal) -> (r: Option<Decimal>)
        ensures
            r is Some <==> fits(self@ - other@),
            r matches Some(v) ==> v@ == self@ - other@,
    {
        difference_of(self, other)
    }

    /// The fixed-point product, or `None` where it leaves the range of
    /// products.
    pub fn checked_mul(self, other: Decimal) -> (r: Option<Decimal>)
        ensures
            r is Some <==> fits_rounded(mul_units(self@, other@)),
            r matches Some(v) ==> v@ == mul_units(self@, other@),
    {
        product_of(self, other)
    }

    /// The fixed-point quotient, or `None` where the divisor is zero or the
    /// quotient leaves the range of quotients.
    pub fn checked_div(self, other: Decimal) -> (r: Option<Decimal>)
        ensures
            r is Some <==> (other@ != 0 && fits_rounded(div_units(self@, other@))),
            r matches Some(v) ==> v@ == div_units(self@, other@),
    {
        quotient_of(self, other)
    }

    /// The whole number `n` as a decimal.
    pub fn from_u64(n: u64) -> (r: Decimal)
        ensures
            r@ == n * scale(),
    {
        whole_number(n)
    }

    /// The sum, or the overflow error.
    pub(crate) fn try_add(self, other: Decimal) -> (r: Result<Decimal, PoolError>)
        ensures
            r is Ok <==> fits(self@ + other@),
            r matches Ok(v) ==> v@ == self@ + other@,
            r matches Err(e) ==> e == PoolError::ArithmeticOverflow,
    {
        match self.checked_add(other) {
            Some(v) => Ok(v),
            None => Err(PoolError::ArithmeticOverflow),
        }
    }

    /// The difference, or the overflow error.
    pub(crate) fn try_sub(self, other: Decimal) -> (r: Result<Decimal, PoolError>)
        ensures
            r is Ok <==> fits(self@ - other@),
            r matches Ok(v) ==> v@ == self@ - other@,
            r matches Err(e) ==> e == PoolError::ArithmeticOverflow,
    {
        match self.checked_sub(other) {
            Some(v) => Ok(v),
            None => Err(PoolError::ArithmeticOverflow),
        }
    }

    /// The fixed-point product, or the overflow error.
    pub(crate) fn try_mul(self, other: Decimal) -> (r: Result<Decimal, PoolError>)
        ensures
            r is Ok <==> fits_rounded(mul_units(self@, other@)),
            r matches Ok(v) ==> v@ == mul_units(self@, other@),
            r matches Err(e) ==> e == PoolError::ArithmeticOverflow,
    {
        match self.checked_mul(other) {
            Some(v) => Ok(v),
            None => Err(PoolError::ArithmeticOverflow),
        }
    }

    /// The fixed-point quotient, or the overflow error.
    pub(crate) fn try_div(self, other: Decimal) -> (r: Result<Decimal, PoolError>)
        ensures
            r is Ok <==> (other@ != 0 && fits_rounded(div_units(self@, other@))),
            r matches Ok(v) ==> v@ == div_units(self@, other@),
            r matches Err(e) ==> e == PoolError::ArithmeticOverflow,
    {
        match self.checked_div(other) {
            Some(v) => Ok(v),
            None => Err(PoolError::ArithmeticOverflow),
        }
    }
}

/// Calls `Decimal::checked_add` of scrypto on the two values, handed over and
/// taken back limb by limb. Claimed: the result is the exact sum of the units
/// where that is in range, and `None` otherwise.
#[verifier::external_body]
fn sum_of(a: Decimal, b: Decimal) -> (r: Option<Decimal>)
    ensures
        r is Some <==> fits(a@ + b@),
        r matches Some(v) ==> v@ == a@ + b@,
{
    let x = scrypto::math::Decimal::from_attos(I192::from_digits([a.lo, a.mid, a.hi as u64]));
    let y = scrypto::math::Decimal::from_attos(I192::from_digits([b.lo, b.mid, b.hi as u64]));
    match x.checked_add(y) {
        Some(v) => {
            let d = v.attos().to_digits();
            Some(Decimal { lo: d[0], mid: d[1], hi: d[2] as i64 })
        },
        None => None,
    }
}

/// Calls `Decimal::checked_sub` of scrypto on the two values, handed over and
/// taken back limb by limb. Claimed: the result is the exact difference of the
/// units where that is in range, and `None` otherwise.
#[verifier::external_body]
fn difference_of(a: Decimal, b: Decimal) -> (r: Option<Decimal>)
    ensures
        r is Some <==> fits(a@ - b@),
        r matches Some(v) ==> v@ == a@ - b@,
{
    let x = scrypto::math::Decimal::from_attos(I192::from_digits([a.lo, a.mid, a.hi as u64]));
    let y = scrypto::math::Decimal::from_attos(I192::from_digits([b.lo, b.mid, b.hi as u64]));
    match x.checked_sub(y) {
        Some(v) => {
            let d = v.attos().to_digits();
            Some(Decimal { lo: d[0], mid: d[1], hi: d[2] as i64 })
        },
        None => None,
    }
}

/// Calls `Decimal::checked_mul` of scrypto on the two values, handed over and
/// taken back limb by limb. Claimed: scrypto multiplies the units exactly,
/// divides by 10^18 rounding toward zero, and answers `None` exactly where
/// that quotient, by its magnitude, needs more than 191 bits: so -2^191 is
/// refused too.
#[verifier::external_body]
fn product_of(a: Decimal, b: Decimal) -> (r: Option<Decimal>)
    ensures
        r is Some <==> fits_rounded(mul_units(a@, b@)),
        r matches Some(v) ==> v@ == mul_units(a@, b@),
{
    let x = scrypto::math::Decimal::from_attos(I192::from_digits([a.lo, a.mid, a.hi as u64]));
    let y = scrypto::math::Decimal::from_attos(I192::from_digits([b.lo, b.mid, b.hi as u64]));
    match x.checked_mul(y) {
        Some(v) => {
            let d = v.attos().to_digits();
            Some(Decimal { lo: d[0], mid: d[1], hi: d[2] as i64 })
        },
        None => None,
    }
}

/// Calls `Decimal::checked_div` of scrypto on the two values, handed over and
/// taken back limb by limb. Claimed: scrypto multiplies the dividend's units by
/// 10^18 exactly, divides by the divisor's units rounding toward zero, and
/// answers `None` exactly where the divisor is zero or that quotient, by its
/// magnitude, needs more than 191 bits: so -2^191 is refused too.
#[verifier::external_body]
fn quotient_of(a: Decimal, b: Decimal) -> (r: Option<Decimal>)
    ensures
        r is Some <==> (b@ != 0 && fits_rounded(div_units(a@, b@))),
        r matches Some(v) ==> v@ == div_units(a@, b@),
{
    let x = scrypto::math::Decimal::from_attos(I192::from_digits([a.lo, a.mid, a.hi as u64]));
    let y = scrypto::math::Decimal::from_attos(I192::from_digits([b.lo, b.mid, b.hi as u64]));
    match x.checked_div(y) {
        Some(v) => {
            let d = v.attos().to_digits();
            Some(Decimal { lo: d[0], mid: d[1], hi: d[2] as i64 })
        },
        None => None,
    }
}

/// Calls `Decimal::from` of scrypto on a `u64`. Claimed: the result holds the
/// number times 10^18 units, which is always in range.
#[verifier::external_body]
fn whole_number(n: u64) -> (r: Decimal)
    ensures
        r@ == n * scale(),
{
    let d = scrypto::math::Decimal::from(n).attos().to_digits();
    Decimal { lo: d[0], mid: d[1], hi: d[2] as i64 }
}

} // verus!
