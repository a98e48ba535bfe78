//! The errors that the pool's operations answer.

use vstd::prelude::*;

verus! {

/// Why an operation on the pool was refused. A refused operation changes nothing.
#[derive(Clone, Copy, Debug, PartialEq, Eq, Structural)]
pub enum PoolError {
    /// A fee outside `[0, 1]`, a duration that is zero, not a multiple of the
    /// checkpoint duration or outside the allowed span, or an amount that is
    /// not positive where it has to be.
    InvalidParameter,
    /// The supplied asset or position token is not the one the pool expects.
    ResourceMismatch,
    /// The trade would drain the bond reserves, or the pool has no reserves
    /// where a quote needs them.
    InsufficientLiquidity,
    /// The deposit for a short is below what the position requires.
    InsufficientCollateral,
    /// More was asked for than the holder or the pool has ready.
    InsufficientBalance,
    /// The pool has not been created yet.
    NotInitialized,
    /// The pool has already been created.
    AlreadyInitialized,
    /// A result does not fit the decimal range, or a division by zero.
    ArithmeticOverflow,
}

} // verus!
