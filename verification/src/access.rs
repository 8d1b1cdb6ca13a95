//! Capability checks performed before any privileged mutation.
//!
//! Every state-mutating operation declares its required capability and calls
//! [`require`] before proceeding; no privileged field is ever updated
//! unconditionally.

use vstd::prelude::*;

use crate::errors::PoolError;
use crate::identity::Identity;

verus! {

/// What a caller must be for an operation to proceed.
pub enum Capability {
    /// The caller must equal the pool's admin.
    IsAdmin { admin: Identity },
    /// The caller must hold a positive recorded entitlement; the number is
    /// supplied by the external entitlement collaborator.
    IsEntitledHolder { entitlement: u64 },
}

/// Verifies the calling identity against the required capability, failing
/// with `Unauthorized` exactly when the capability is not held.
pub fn require(caller: &Identity, required: &Capability) -> (r: Result<(), PoolError>)
    ensures
        match *required {
            Capability::IsAdmin { admin } => r == if *caller == admin {
                Ok::<(), PoolError>(())
            } else {
                Err::<(), PoolError>(PoolError::Unauthorized)
            },
            Capability::IsEntitledHolder { entitlement } => r == if entitlement > 0 {
                Ok::<(), PoolError>(())
            } else {
                Err::<(), PoolError>(PoolError::Unauthorized)
            },
        },
{
    match required {
        Capability::IsAdmin { admin } => {
            if *caller == *admin {
                Ok(())
            } else {
                Err(PoolError::Unauthorized)
            }
        },
        Capability::IsEntitledHolder { entitlement } => {
            if *entitlement > 0 {
                Ok(())
            } else {
                Err(PoolError::Unauthorized)
            }
        },
    }
}

} // verus!
