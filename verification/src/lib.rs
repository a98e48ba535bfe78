//! Pricing and settlement core of a fixed-rate lending pool: a constant-product
//! trading curve blended with linear maturity pricing, a checkpoint ledger that
//! buckets positions by maturity, and the long/short/liquidity lifecycle that
//! moves the pool's reserves.
//!
//! Every amount is a [`decimal::Decimal`], a signed fixed-point number with 18
//! fractional digits. Contracts speak of an amount through its view, the number
//! of 10^-18 units it holds.

pub mod constants;
pub mod curves;
pub mod decimal;
pub mod dex;
pub mod error;
pub mod events;
pub mod helpers;
pub mod influxpool;
pub mod liquidity;
pub mod types;
