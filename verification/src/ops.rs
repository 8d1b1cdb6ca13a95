//! The operation set: the only paths that mutate a pool.
//!
//! Each mutating operation validates its inputs, takes the non-reentrant
//! lock, commits its ledger effect, and only then invokes the transfer
//! gateway — effects before interactions — so a nested invocation arriving
//! during the gateway call observes the already-updated balance and is
//! refused by the lock. The gateway's own `requires` makes the lock half of
//! that ordering an obligation Verus checks at every call, and the request
//! handed over is built by a per-operation builder whose contract fixes its
//! accounts and amount exactly. A gateway failure aborts the operation: the
//! effect committed earlier is restored before the lock is released,
//! mirroring the host runtime's all-or-nothing execution of the whole
//! operation.

use vstd::prelude::*;

use crate::access::Capability;
use crate::errors::PoolError;
use crate::gateway::EntitlementRegistry;
use crate::gateway::TransferGateway;
use crate::gateway::TransferRequest;
use crate::gateway::TransferRequestView;
use crate::identity::Identity;
use crate::ledger::Pool;
use crate::ledger::PoolView;

verus! {

/// The accounts a deposit moves value between: the depositor's token
/// account, the pool's custody account, and the depositing identity itself,
/// which authorizes the transfer.
pub struct Deposit {
    pub user_token_account: Identity,
    pub pool_token_account: Identity,
    pub user: Identity,
}

/// The accounts a withdrawal moves value between, plus the pool authority
/// that signs the outgoing transfer and the withdrawing identity.
pub struct Withdraw {
    pub user_token_account: Identity,
    pub pool_token_account: Identity,
    pub pool_authority: Identity,
    pub user: Identity,
}

/// The accounts of an emergency withdrawal; the same shape as a withdrawal.
pub struct EmergencyWithdraw {
    pub user_token_account: Identity,
    pub pool_token_account: Identity,
    pub pool_authority: Identity,
    pub user: Identity,
}

/// The operation returned `Ok`.
pub open spec fn succeeds(r: Result<(), PoolError>) -> bool {
    r == Ok::<(), PoolError>(())
}

/// The operation aborted with exactly the error `e`.
pub open spec fn fails(r: Result<(), PoolError>, e: PoolError) -> bool {
    r == Err::<(), PoolError>(e)
}

/// What every settled mutating operation leaves intact: the admin, the
/// emergency gate, and — the lock released — the reentrancy marker. The
/// interest rate is not listed, since a nested rate change by the admin
/// during the gateway call is possible and harmless.
pub open spec fn settled_frame(v: PoolView, f: PoolView) -> bool {
    f.admin == v.admin && f.emergency_withdraw_enabled == v.emergency_withdraw_enabled
        && !f.operation_in_progress
}

/// The two outcomes of an operation that reached its gateway call after
/// committing a supply change of `credited - debited`: the transfer
/// succeeded and the change stands, or it failed and the change was
/// discarded.
pub open spec fn interaction_outcome(
    v: PoolView,
    f: PoolView,
    r: Result<(), PoolError>,
    credited: u64,
    debited: u64,
) -> bool {
    ((succeeds(r) && f.total_supply == v.total_supply + credited - debited) || (fails(
        r,
        PoolError::TransferFailed,
    ) && f.total_supply == v.total_supply)) && settled_frame(v, f)
}

/// The exact transfer a deposit hands to the gateway: the full deposited
/// amount moves from the depositor's token account into the pool's custody
/// account, authorized by the depositor.
pub fn deposit_request(accounts: &Deposit, amount: u64) -> (r: TransferRequest)
    ensures
        r@ == (TransferRequestView {
            from: accounts.user_token_account,
            to: accounts.pool_token_account,
            authority: accounts.user,
            amount,
        }),
{
    TransferRequest::assemble(
        accounts.user_token_account,
        accounts.pool_token_account,
        accounts.user,
        amount,
    )
}

/// The exact transfer a withdrawal hands to the gateway: the withdrawn
/// amount moves from the pool's custody account to the user's token
/// account, authorized by the pool authority.
pub fn withdrawal_request(accounts: &Withdraw, amount: u64) -> (r: TransferRequest)
    ensures
        r@ == (TransferRequestView {
            from: accounts.pool_token_account,
            to: accounts.user_token_account,
            authority: accounts.pool_authority,
            amount,
        }),
{
    TransferRequest::assemble(
        accounts.pool_token_account,
        accounts.user_token_account,
        accounts.pool_authority,
        amount,
    )
}

/// The exact transfer an emergency withdrawal hands to the gateway: the
/// caller's entitled share — never more — moves from the pool's custody
/// account to the caller's token account, authorized by the pool authority.
pub fn emergency_request(accounts: &EmergencyWithdraw, share: u64) -> (r: TransferRequest)
    ensures
        r@ == (TransferRequestView {
            from: accounts.pool_token_account,
            to: accounts.user_token_account,
            authority: accounts.pool_authority,
            amount: share,
        }),
{
    TransferRequest::assemble(
        accounts.pool_token_account,
        accounts.user_token_account,
        accounts.pool_authority,
        share,
    )
}

/// Sets the interest rate, provided the caller is the admin.
///
/// Any caller other than the admin fails with `Unauthorized` and leaves the
/// record — the rate included — exactly as it was.
pub fn set_interest_rate(pool: &mut Pool, caller: &Identity, new_rate: u64) -> (r: Result<
    (),
    PoolError,
>)
    ensures
        *caller == old(pool)@.admin ==> succeeds(r) && final(pool)@ == (PoolView {
            interest_rate: new_rate,
            ..old(pool)@
        }),
        *caller != old(pool)@.admin ==> fails(r, PoolError::Unauthorized) && final(pool)@ == old(pool)@,
{
    let admin = pool.admin();
    match crate::access::require(caller, &Capability::IsAdmin { admin }) {
        Ok(()) => {
            pool.set_rate(new_rate);
            Ok(())
        },
        Err(e) => Err(e),
    }
}

/// Deposits `amount` into the pool on behalf of `accounts.user`.
///
/// The supply is credited before the incoming transfer is requested; if the
/// transfer fails, the credit is discarded and the record is left as found.
/// Whether the gateway succeeds is the external primitive's decision, so the
/// last clause states the exact pair of possible outcomes.
pub fn deposit<G: TransferGateway>(
    pool: &mut Pool,
    gateway: &mut G,
    accounts: &Deposit,
    amount: u64,
) -> (r: Result<(), PoolError>)
    ensures
        amount == 0 ==> fails(r, PoolError::InvalidInput) && final(pool)@ == old(pool)@,
        amount > 0 && old(pool)@.operation_in_progress ==> fails(r, PoolError::Reentrant) && final(pool)@ == old(pool)@,
        amount > 0 && !old(pool)@.operation_in_progress && old(pool)@.total_supply + amount
            > u64::MAX ==> fails(r, PoolError::Overflow) && final(pool)@ == old(pool)@,
        amount > 0 && !old(pool)@.operation_in_progress && old(pool)@.total_supply + amount
            <= u64::MAX ==> interaction_outcome(old(pool)@, final(pool)@, r, amount, 0),
{
    if amount == 0 {
        return Err(PoolError::InvalidInput);
    }
    match pool.enter() {
        Ok(()) => (),
        Err(e) => {
            return Err(e);
        },
    }
    match pool.apply_deposit(amount) {
        Ok(()) => (),
        Err(e) => {
            pool.exit();
            return Err(e);
        },
    }
    let request = deposit_request(accounts, amount);
    match gateway.transfer(pool, &request) {
        Ok(()) => {
            pool.exit();
            Ok(())
        },
        Err(_) => {
            let _ = pool.apply_withdrawal(amount);
            pool.exit();
            Err(PoolError::TransferFailed)
        },
    }
}

/// Withdraws `amount` for `accounts.user`, whose recorded entitlement is
/// passed in by the caller that queried the external record.
///
/// The supply is debited before the outgoing transfer is requested — the
/// ordering that keeps a reentrant destination from double-spending a stale
/// balance — and restored if the transfer fails.
pub fn withdraw_with_entitlement<G: TransferGateway>(
    pool: &mut Pool,
    gateway: &mut G,
    accounts: &Withdraw,
    amount: u64,
    entitlement: u64,
) -> (r: Result<(), PoolError>)
    ensures
        amount > entitlement ==> fails(r, PoolError::InsufficientFunds) && final(pool)@ == old(pool)@,
        amount <= entitlement && old(pool)@.operation_in_progress ==> fails(r, PoolError::Reentrant)
            && final(pool)@ == old(pool)@,
        amount <= entitlement && !old(pool)@.operation_in_progress && amount > old(pool)@.total_supply ==> fails(r, PoolError::InsufficientFunds) && final(pool)@ == old(pool)@,
        amount <= entitlement && !old(pool)@.operation_in_progress && amount <= old(pool)@.total_supply ==> interaction_outcome(old(pool)@, final(pool)@, r, 0, amount),
{
    if amount > entitlement {
        return Err(PoolError::InsufficientFunds);
    }
    match pool.enter() {
        Ok(()) => (),
        Err(e) => {
            return Err(e);
        },
    }
    match pool.apply_withdrawal(amount) {
        Ok(()) => (),
        Err(e) => {
            pool.exit();
            return Err(e);
        },
    }
    let request = withdrawal_request(accounts, amount);
    match gateway.transfer(pool, &request) {
        Ok(()) => {
            pool.exit();
            Ok(())
        },
        Err(_) => {
            let _ = pool.apply_deposit(amount);
            pool.exit();
            Err(PoolError::TransferFailed)
        },
    }
}

/// Withdraws `amount` for `accounts.user`, querying the external entitlement
/// record first.
///
/// The entitlement answer is the collaborator's, so this contract states
/// what holds of the record whatever that answer was; the exact accounting,
/// given the answer, is the contract of [`withdraw_with_entitlement`].
pub fn withdraw<G: TransferGateway, R: EntitlementRegistry>(
    pool: &mut Pool,
    gateway: &mut G,
    registry: &R,
    accounts: &Withdraw,
    amount: u64,
) -> (r: Result<(), PoolError>)
    ensures
        succeeds(r) || fails(r, PoolError::InsufficientFunds) || fails(r, PoolError::Reentrant)
            || fails(r, PoolError::TransferFailed),
        old(pool)@.operation_in_progress ==> (fails(r, PoolError::InsufficientFunds) || fails(
            r,
            PoolError::Reentrant,
        )) && final(pool)@ == old(pool)@,
        !old(pool)@.operation_in_progress && amount > old(pool)@.total_supply ==> fails(
            r,
            PoolError::InsufficientFunds,
        ) && final(pool)@ == old(pool)@,
        fails(r, PoolError::InsufficientFunds) || fails(r, PoolError::Reentrant) ==> final(pool)@
            == old(pool)@,
        succeeds(r) || fails(r, PoolError::TransferFailed) ==> !old(pool)@.operation_in_progress
            && amount <= old(pool)@.total_supply && settled_frame(old(pool)@, final(pool)@),
        succeeds(r) ==> final(pool)@.total_supply == old(pool)@.total_supply - amount,
        fails(r, PoolError::TransferFailed) ==> final(pool)@.total_supply == old(pool)@.total_supply,
{
    let entitlement = registry.entitlement_of(&accounts.user);
    withdraw_with_entitlement(pool, gateway, accounts, amount, entitlement)
}

/// Drains `accounts.user`'s entitled share — and only that share — from the
/// pool, provided the emergency gate is set.
///
/// `share` is the entitled amount the caller queried from the external
/// record; a zero share means the caller is no entitled holder and fails
/// `Unauthorized`. The debit is committed before the transfer is requested
/// and restored if the transfer fails.
pub fn emergency_withdraw_with_share<G: TransferGateway>(
    pool: &mut Pool,
    gateway: &mut G,
    accounts: &EmergencyWithdraw,
    share: u64,
) -> (r: Result<(), PoolError>)
    ensures
        !old(pool)@.emergency_withdraw_enabled ==> fails(r, PoolError::NotEnabled) && final(pool)@
            == old(pool)@,
        old(pool)@.emergency_withdraw_enabled && share == 0 ==> fails(r, PoolError::Unauthorized)
            && final(pool)@ == old(pool)@,
        old(pool)@.emergency_withdraw_enabled && share > 0 && old(pool)@.operation_in_progress ==> fails(r, PoolError::Reentrant) && final(pool)@ == old(pool)@,
        old(pool)@.emergency_withdraw_enabled && share > 0 && !old(pool)@.operation_in_progress
            && share > old(pool)@.total_supply ==> fails(r, PoolError::InsufficientFunds) && final(pool)@ == old(pool)@,
        old(pool)@.emergency_withdraw_enabled && share > 0 && !old(pool)@.operation_in_progress
            && share <= old(pool)@.total_supply ==> interaction_outcome(
            old(pool)@,
            final(pool)@,
            r,
            0,
            share,
        ),
{
    if !pool.emergency_withdraw_enabled() {
        return Err(PoolError::NotEnabled);
    }
    match crate::access::require(
        &accounts.user,
        &Capability::IsEntitledHolder { entitlement: share },
    ) {
        Ok(()) => (),
        Err(e) => {
            return Err(e);
        },
    }
    match pool.enter() {
        Ok(()) => (),
        Err(e) => {
            return Err(e);
        },
    }
    match pool.apply_withdrawal(share) {
        Ok(()) => (),
        Err(e) => {
            pool.exit();
            return Err(e);
        },
    }
    let request = emergency_request(accounts, share);
    match gateway.transfer(pool, &request) {
        Ok(()) => {
            pool.exit();
            Ok(())
        },
        Err(_) => {
            let _ = pool.apply_deposit(share);
            pool.exit();
            Err(PoolError::TransferFailed)
        },
    }
}

/// Drains `accounts.user`'s entitled share from the pool, querying and
/// debiting the external entitlement record.
///
/// The share is the collaborator's answer, so this contract states what
/// holds of the record whatever that answer was; the exact accounting, given
/// the share, is the contract of [`emergency_withdraw_with_share`]. On any
/// abort after the debit, the debit is credited back.
pub fn emergency_withdraw<G: TransferGateway, R: EntitlementRegistry>(
    pool: &mut Pool,
    gateway: &mut G,
    registry: &mut R,
    accounts: &EmergencyWithdraw,
) -> (r: Result<(), PoolError>)
    ensures
        succeeds(r) || fails(r, PoolError::NotEnabled) || fails(r, PoolError::Unauthorized)
            || fails(r, PoolError::Reentrant) || fails(r, PoolError::InsufficientFunds) || fails(
            r,
            PoolError::TransferFailed,
        ),
        !old(pool)@.emergency_withdraw_enabled ==> fails(r, PoolError::NotEnabled) && final(pool)@
            == old(pool)@,
        old(pool)@.emergency_withdraw_enabled && old(pool)@.operation_in_progress ==> (fails(
            r,
            PoolError::Unauthorized,
        ) || fails(r, PoolError::Reentrant)) && final(pool)@ == old(pool)@,
        !succeeds(r) && !fails(r, PoolError::TransferFailed) ==> final(pool)@ == old(pool)@,
        succeeds(r) || fails(r, PoolError::TransferFailed) ==> old(pool)@.emergency_withdraw_enabled && !old(pool)@.operation_in_progress && settled_frame(
            old(pool)@,
            final(pool)@,
        ),
        succeeds(r) ==> final(pool)@.total_supply < old(pool)@.total_supply,
        fails(r, PoolError::TransferFailed) ==> final(pool)@.total_supply == old(pool)@.total_supply,
{
    if !pool.emergency_withdraw_enabled() {
        return Err(PoolError::NotEnabled);
    }
    let share = registry.entitlement_of(&accounts.user);
    if share == 0 {
        return Err(PoolError::Unauthorized);
    }
    if pool.operation_in_progress() {
        return Err(PoolError::Reentrant);
    }
    registry.debit(&accounts.user, share);
    match emergency_withdraw_with_share(pool, gateway, accounts, share) {
        Ok(()) => Ok(()),
        Err(e) => {
            registry.credit(&accounts.user, share);
            Err(e)
        },
    }
}

/// Computes `principal * rate * time / 100` for the pool's current rate,
/// read-only and without a capability; the product is taken in a
/// double-width intermediate and the call fails with `Overflow` exactly when
/// the final scaled value does not fit in 64 bits.
pub fn calculate_rewards(pool: &Pool, principal: u64, time: u64) -> (r: Result<u64, PoolError>)
    ensures
        principal * pool@.interest_rate * time / 100 <= u64::MAX ==> r == Ok::<u64, PoolError>(
            (principal * pool@.interest_rate * time / 100) as u64,
        ),
        principal * pool@.interest_rate * time / 100 > u64::MAX ==> r == Err::<u64, PoolError>(
            PoolError::Overflow,
        ),
{
    crate::arith::widened_mul_div(principal, pool.interest_rate(), time, 100)
}

} // verus!
