//! Custodial accounting core for a pooled-token program.
//!
//! The library tracks a shared pool's custodied supply, an admin-settable
//! interest rate, and an emergency-drain gate, and it orchestrates deposits,
//! withdrawals, emergency withdrawals, and reward computation against an
//! external token-transfer primitive. Three hazards are handled throughout:
//! authorization (privileged callers are distinguished from arbitrary ones),
//! arithmetic safety (fixed-width balances never silently wrap), and
//! reentrancy (an external transfer call may re-enter the program before the
//! triggering operation has finished mutating state).

pub mod access;
pub mod arith;
pub mod codec;
pub mod errors;
pub mod events;
pub mod gateway;
pub mod identity;
pub mod ledger;
pub mod ops;
pub mod users;
