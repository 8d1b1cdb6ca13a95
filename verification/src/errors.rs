//! The failure taxonomy of the pool core.
//!
//! Every operation aborts with exactly one of these values; no error is
//! silently swallowed, and arithmetic never wraps to fake a success.

use vstd::prelude::*;

verus! {

/// Why a pool operation was refused or aborted.
#[derive(Clone, Copy, Debug, PartialEq, Eq, Structural)]
pub enum PoolError {
    /// The caller lacks the capability the operation demands.
    Unauthorized,
    /// A checked addition or multiplication would exceed the 64-bit range.
    Overflow,
    /// A checked subtraction would go below zero.
    Underflow,
    /// The caller asked for more than the pool or their entitlement covers.
    InsufficientFunds,
    /// An argument was rejected before any effect took place.
    InvalidInput,
    /// The external token-transfer primitive reported failure.
    TransferFailed,
    /// The emergency-drain gate is not set.
    NotEnabled,
    /// A nested invocation arrived while an operation was mid-flight.
    Reentrant,
}

} // verus!
