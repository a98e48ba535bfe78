//! Defaults and limits of the pool's parameters.

use crate::decimal::{scale, Decimal};
use vstd::prelude::*;

verus! {

/// Default checkpoint duration: one week in seconds.
pub const DEFAULT_CHECKPOINT_DURATION: u64 = 604800;

/// Default position duration: one year in seconds.
pub const DEFAULT_POSITION_DURATION: u64 = 31536000;

/// Shortest position duration that the defaults allow: one default checkpoint.
pub const MIN_POSITION_DURATION: u64 = DEFAULT_CHECKPOINT_DURATION;

/// Longest position duration: ten years in seconds.
pub const MAX_POSITION_DURATION: u64 = 315360000;

/// Default floor of the share reserves: 1000.
pub fn default_min_share_reserves() -> (r: Decimal)
    ensures
        r@ == 1000 * scale(),
{
    Decimal::from_u64(1000)
}

/// Largest fee: 1, the whole amount.
pub fn max_fee_percentage() -> (r: Decimal)
    ensures
        r@ == scale(),
{
    Decimal::one()
}

/// Default fee on newly minted bonds: 0.01.
pub fn default_new_bond_fee() -> (r: Decimal)
    ensures
        r@ * 100 == scale(),
{
    Decimal { lo: 10_000_000_000_000_000, mid: 0, hi: 0 }
}

/// Default fee on matured bonds: 0.005.
pub fn default_matured_bond_fee() -> (r: Decimal)
    ensures
        r@ * 200 == scale(),
{
    Decimal { lo: 5_000_000_000_000_000, mid: 0, hi: 0 }
}

/// Default share of the fees that goes to governance: 0.1.
pub fn default_governance_fee() -> (r: Decimal)
    ensures
        r@ * 10 == scale(),
{
    Decimal { lo: 100_000_000_000_000_000, mid: 0, hi: 0 }
}

/// Default share of the zombie interest that goes to governance: 0.1.
pub fn default_zombie_governance_fee() -> (r: Decimal)
    ensures
        r@ * 10 == scale(),
{
    Decimal { lo: 100_000_000_000_000_000, mid: 0, hi: 0 }
}

/// Tolerance for comparing amounts: 0.000001.
pub fn epsilon() -> (r: Decimal)
    ensures
        r@ * 1_000_000 == scale(),
{
    Decimal { lo: 1_000_000_000_000, mid: 0, hi: 0 }
}

/// Smallest amount of liquidity that can be added: 1.
pub fn min_liquidity() -> (r: Decimal)
    ensures
        r@ == scale(),
{
    Decimal::one()
}

/// Largest fee that is still reasonable: 0.1.
pub fn max_reasonable_fee() -> (r: Decimal)
    ensures
        r@ * 10 == scale(),
{
    Decimal { lo: 100_000_000_000_000_000, mid: 0, hi: 0 }
}

} // verus!
