//! The ports to the two external collaborators: the token-transfer primitive
//! and the per-user entitlement record.
//!
//! Both live outside this crate; the host environment supplies the
//! implementations. A call to [`TransferGateway::transfer`] is the one
//! suspension point at which a nested invocation of the pool program may
//! arrive, so the operations in [`crate::ops`] commit their ledger effects
//! before making it.

use vstd::prelude::*;

use crate::errors::PoolError;
use crate::identity::Identity;
use crate::ledger::Pool;

verus! {

/// The mathematical content of a [`TransferRequest`].
pub struct TransferRequestView {
    pub from: Identity,
    pub to: Identity,
    pub authority: Identity,
    pub amount: u64,
}

/// One requested movement of custodied value; ephemeral, alive for a single
/// gateway call.
///
/// Only this crate can build one — each operation in [`crate::ops`] has a
/// request builder whose contract fixes the accounts and the amount exactly
/// — so every request a gateway implementation receives is covered by one of
/// those contracts.
pub struct TransferRequest {
    pub(crate) from: Identity,
    pub(crate) to: Identity,
    pub(crate) authority: Identity,
    pub(crate) amount: u64,
}

impl View for TransferRequest {
    type V = TransferRequestView;

    closed spec fn view(&self) -> TransferRequestView {
        TransferRequestView {
            from: self.from,
            to: self.to,
            authority: self.authority,
            amount: self.amount,
        }
    }
}

impl TransferRequest {
    /// Assembles a request; reachable only through the per-operation
    /// builders in [`crate::ops`].
    pub(crate) fn assemble(from: Identity, to: Identity, authority: Identity, amount: u64) -> (r:
        TransferRequest)
        ensures
            r@ == (TransferRequestView { from, to, authority, amount }),
    {
        TransferRequest { from, to, authority, amount }
    }

    /// The account the value leaves.
    pub fn from_account(&self) -> (r: Identity)
        ensures
            r == self@.from,
    {
        self.from
    }

    /// The account the value arrives at.
    pub fn to_account(&self) -> (r: Identity)
        ensures
            r == self@.to,
    {
        self.to
    }

    /// The identity that authorizes the movement.
    pub fn authority(&self) -> (r: Identity)
        ensures
            r == self@.authority,
    {
        self.authority
    }

    /// The amount to move.
    pub fn amount(&self) -> (r: u64)
        ensures
            r == self@.amount,
    {
        self.amount
    }
}

/// The external token-transfer primitive.
///
/// The pool record travels through the call because a transfer may re-enter
/// the program; the contract records what every implementation may rely on
/// and leaves intact. The `requires` clause is the effects-before-
/// interactions discipline made into an obligation: Verus makes every
/// verified caller prove that the reentrancy marker is already set — the
/// operation is mid-flight and its ledger effect committed — before the
/// primitive runs, so a nested invocation arriving during the call is
/// refused by the lock and never observes a stale balance. The transfer
/// primitive itself never writes the pool record, and a nested invocation
/// reaches it only through the operation set of [`crate::ops`], which while
/// the marker is set refuses every supply mutation and never changes the
/// admin, the emergency gate, or the marker itself. The interest rate is
/// deliberately not listed: a nested rate change by the admin is possible
/// and harmless.
pub trait TransferGateway {
    /// Moves `request@.amount` from `request@.from` to `request@.to` under
    /// `request@.authority` in the external ledger, reporting success or
    /// `TransferFailed`.
    fn transfer(&mut self, pool: &mut Pool, request: &TransferRequest) -> (r: Result<
        (),
        PoolError,
    >)
        requires
            old(pool)@.operation_in_progress,
        ensures
            r == Ok::<(), PoolError>(()) || r == Err::<(), PoolError>(PoolError::TransferFailed),
            final(pool)@.total_supply == old(pool)@.total_supply,
            final(pool)@.admin == old(pool)@.admin,
            final(pool)@.emergency_withdraw_enabled == old(pool)@.emergency_withdraw_enabled,
            final(pool)@.operation_in_progress == old(pool)@.operation_in_progress,
    ;
}

/// The external per-user entitlement record: how much of the pool each holder
/// may withdraw. The core only queries and debits it; the bookkeeping itself
/// is the collaborator's, so nothing is promised of these results.
pub trait EntitlementRegistry {
    /// The amount `holder` is currently entitled to withdraw.
    fn entitlement_of(&self, holder: &Identity) -> u64;

    /// Records that `amount` of `holder`'s entitlement has been consumed.
    fn debit(&mut self, holder: &Identity, amount: u64);

    /// Restores `amount` of `holder`'s entitlement after an aborted
    /// operation.
    fn credit(&mut self, holder: &Identity, amount: u64);
}

} // verus!
