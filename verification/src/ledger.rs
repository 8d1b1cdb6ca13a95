//! The persistent pool record and its primitive mutations.
//!
//! The record is exclusively owned by the program: outside this crate it can
//! be read through the getters and changed only through the operation set in
//! [`crate::ops`]. `operation_in_progress` is the reentrancy marker, true only
//! between the start of a mutating operation and its completion.

use vstd::prelude::*;

use crate::errors::PoolError;
use crate::identity::Identity;

verus! {

/// The mathematical content of a [`Pool`] record.
pub struct PoolView {
    pub total_supply: u64,
    pub interest_rate: u64,
    pub admin: Identity,
    pub emergency_withdraw_enabled: bool,
    pub operation_in_progress: bool,
}

/// The pool record: total custodied supply, rate, admin, emergency gate, and
/// the reentrancy marker.
pub struct Pool {
    total_supply: u64,
    interest_rate: u64,
    admin: Identity,
    emergency_withdraw_enabled: bool,
    operation_in_progress: bool,
}

impl View for Pool {
    type V = PoolView;

    closed spec fn view(&self) -> PoolView {
        PoolView {
            total_supply: self.total_supply,
            interest_rate: self.interest_rate,
            admin: self.admin,
            emergency_withdraw_enabled: self.emergency_withdraw_enabled,
            operation_in_progress: self.operation_in_progress,
        }
    }
}

impl Pool {
    /// Creates a pool at birth: empty, zero rate, the given admin, the given
    /// emergency gate, and no operation mid-flight.
    pub fn new(admin: Identity, emergency_withdraw_enabled: bool) -> (r: Pool)
        ensures
            r@ == (PoolView {
                total_supply: 0,
                interest_rate: 0,
                admin,
                emergency_withdraw_enabled,
                operation_in_progress: false,
            }),
    {
        Pool {
            total_supply: 0,
            interest_rate: 0,
            admin,
            emergency_withdraw_enabled,
            operation_in_progress: false,
        }
    }

    /// Rebuilds a pool record from its stored fields.
    pub fn from_parts(
        total_supply: u64,
        interest_rate: u64,
        admin: Identity,
        emergency_withdraw_enabled: bool,
        operation_in_progress: bool,
    ) -> (r: Pool)
        ensures
            r@ == (PoolView {
                total_supply,
                interest_rate,
                admin,
                emergency_withdraw_enabled,
                operation_in_progress,
            }),
    {
        Pool { total_supply, interest_rate, admin, emergency_withdraw_enabled, operation_in_progress }
    }

    /// Tokens currently custodied by the pool account.
    pub fn total_supply(&self) -> (r: u64)
        ensures
            r == self@.total_supply,
    {
        self.total_supply
    }

    /// The admin-settable interest rate.
    pub fn interest_rate(&self) -> (r: u64)
        ensures
            r == self@.interest_rate,
    {
        self.interest_rate
    }

    /// The sole principal authorized for privileged mutation.
    pub fn admin(&self) -> (r: Identity)
        ensures
            r == self@.admin,
    {
        self.admin
    }

    /// Whether the emergency-drain path is gated open.
    pub fn emergency_withdraw_enabled(&self) -> (r: bool)
        ensures
            r == self@.emergency_withdraw_enabled,
    {
        self.emergency_withdraw_enabled
    }

    /// Whether a mutating operation is mid-flight.
    pub fn operation_in_progress(&self) -> (r: bool)
        ensures
            r == self@.operation_in_progress,
    {
        self.operation_in_progress
    }

    /// Pure field assignment of the rate; callers authorize first.
    pub(crate) fn set_rate(&mut self, new_rate: u64)
        ensures
            final(self)@ == (PoolView { interest_rate: new_rate, ..old(self)@ }),
    {
        self.interest_rate = new_rate;
    }

    /// Credits the supply, failing with `Overflow` exactly when the sum
    /// leaves the 64-bit range; on failure the record is untouched.
    pub(crate) fn apply_deposit(&mut self, amount: u64) -> (r: Result<(), PoolError>)
        ensures
            old(self)@.total_supply + amount <= u64::MAX ==> r == Ok::<(), PoolError>(())
                && final(self)@ == (PoolView {
                total_supply: (old(self)@.total_supply + amount) as u64,
                ..old(self)@
            }),
            old(self)@.total_supply + amount > u64::MAX ==> r == Err::<(), PoolError>(
                PoolError::Overflow,
            ) && final(self)@ == old(self)@,
    {
        match crate::arith::checked_add(self.total_supply, amount) {
            Ok(s) => {
                self.total_supply = s;
                Ok(())
            },
            Err(e) => Err(e),
        }
    }

    /// Debits the supply, failing with `InsufficientFunds` exactly when the
    /// amount exceeds it; on failure the record is untouched.
    pub(crate) fn apply_withdrawal(&mut self, amount: u64) -> (r: Result<(), PoolError>)
        ensures
            amount <= old(self)@.total_supply ==> r == Ok::<(), PoolError>(())
                && final(self)@ == (PoolView {
                total_supply: (old(self)@.total_supply - amount) as u64,
                ..old(self)@
            }),
            amount > old(self)@.total_supply ==> r == Err::<(), PoolError>(
                PoolError::InsufficientFunds,
            ) && final(self)@ == old(self)@,
    {
        if amount > self.total_supply {
            return Err(PoolError::InsufficientFunds);
        }
        match crate::arith::checked_sub(self.total_supply, amount) {
            Ok(s) => {
                self.total_supply = s;
                Ok(())
            },
            Err(e) => Err(e),
        }
    }

    /// Takes the non-reentrant lock, failing with `Reentrant` exactly when an
    /// operation is already mid-flight.
    pub(crate) fn enter(&mut self) -> (r: Result<(), PoolError>)
        ensures
            !old(self)@.operation_in_progress ==> r == Ok::<(), PoolError>(())
                && final(self)@ == (PoolView { operation_in_progress: true, ..old(self)@ }),
            old(self)@.operation_in_progress ==> r == Err::<(), PoolError>(PoolError::Reentrant)
                && final(self)@ == old(self)@,
    {
        if self.operation_in_progress {
            Err(PoolError::Reentrant)
        } else {
            self.operation_in_progress = true;
            Ok(())
        }
    }

    /// Releases the non-reentrant lock at the end of an operation.
    pub(crate) fn exit(&mut self)
        ensures
            final(self)@ == (PoolView { operation_in_progress: false, ..old(self)@ }),
    {
        self.operation_in_progress = false;
    }
}

} // verus!
