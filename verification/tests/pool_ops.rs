use pool_custody::errors::PoolError;
use pool_custody::gateway::EntitlementRegistry;
use pool_custody::gateway::TransferGateway;
use pool_custody::gateway::TransferRequest;
use pool_custody::identity::Identity;
use pool_custody::ledger::Pool;
use pool_custody::ops;

fn id(tag: u8) -> Identity {
    Identity::from_bytes([tag; 32])
}

fn deposit_accounts(user: Identity, pool_account: Identity) -> ops::Deposit {
    ops::Deposit {
        user_token_account: id(100),
        pool_token_account: pool_account,
        user,
    }
}

fn withdraw_accounts(user: Identity, pool_account: Identity) -> ops::Withdraw {
    ops::Withdraw {
        user_token_account: id(100),
        pool_token_account: pool_account,
        pool_authority: id(101),
        user,
    }
}

fn emergency_accounts(user: Identity, pool_account: Identity) -> ops::EmergencyWithdraw {
    ops::EmergencyWithdraw {
        user_token_account: id(100),
        pool_token_account: pool_account,
        pool_authority: id(101),
        user,
    }
}

/// Records every transfer it is asked to make, together with the supply the
/// pool showed at that moment, and always succeeds.
struct RecordingGateway {
    log: Vec<(Identity, Identity, u64)>,
    observed_supply: Vec<u64>,
}

impl RecordingGateway {
    fn new() -> RecordingGateway {
        RecordingGateway { log: Vec::new(), observed_supply: Vec::new() }
    }
}

impl TransferGateway for RecordingGateway {
    fn transfer(&mut self, pool: &mut Pool, request: &TransferRequest) -> Result<(), PoolError> {
        self.observed_supply.push(pool.total_supply());
        self.log.push((request.from_account(), request.to_account(), request.amount()));
        Ok(())
    }
}

/// Always reports transport failure.
struct FailingGateway;

impl TransferGateway for FailingGateway {
    fn transfer(&mut self, _pool: &mut Pool, _request: &TransferRequest) -> Result<(), PoolError> {
        Err(PoolError::TransferFailed)
    }
}

/// A fixed entitlement table over identities.
struct TableRegistry {
    entries: Vec<(Identity, u64)>,
}

impl EntitlementRegistry for TableRegistry {
    fn entitlement_of(&self, holder: &Identity) -> u64 {
        for entry in self.entries.iter() {
            if entry.0 == *holder {
                return entry.1;
            }
        }
        0
    }

    fn debit(&mut self, holder: &Identity, amount: u64) {
        for entry in self.entries.iter_mut() {
            if entry.0 == *holder {
                entry.1 -= amount;
            }
        }
    }

    fn credit(&mut self, holder: &Identity, amount: u64) {
        for entry in self.entries.iter_mut() {
            if entry.0 == *holder {
                entry.1 += amount;
            }
        }
    }
}

/// From within its own transfer, calls back into `withdraw` on the same pool
/// and records what the nested call returned and what supply it observed.
struct ReentrantGateway {
    amount: u64,
    user: Identity,
    pool_account: Identity,
    nested_result: Option<Result<(), PoolError>>,
    nested_deposit_result: Option<Result<(), PoolError>>,
    observed_supply: Option<u64>,
}

impl TransferGateway for ReentrantGateway {
    fn transfer(&mut self, pool: &mut Pool, _request: &TransferRequest) -> Result<(), PoolError> {
        self.observed_supply = Some(pool.total_supply());
        let mut inner = RecordingGateway::new();
        let registry = TableRegistry { entries: vec![(self.user, self.amount)] };
        let accounts = withdraw_accounts(self.user, self.pool_account);
        let nested = ops::withdraw(pool, &mut inner, &registry, &accounts, self.amount);
        self.nested_result = Some(nested);
        let deposit = deposit_accounts(self.user, self.pool_account);
        self.nested_deposit_result = Some(ops::deposit(pool, &mut inner, &deposit, 1));
        Ok(())
    }
}

fn seeded_pool(admin: Identity, supply: u64, emergency: bool) -> Pool {
    let mut pool = Pool::new(admin, emergency);
    if supply > 0 {
        let mut gateway = RecordingGateway::new();
        let accounts = deposit_accounts(id(9), id(10));
        let r = ops::deposit(&mut pool, &mut gateway, &accounts, supply);
        assert_eq!(r, Ok(()));
    }
    pool
}

#[test]
fn request_builders_fix_accounts_and_amounts() {
    let user = id(2);
    let pool_account = id(10);
    let dep = ops::deposit_request(&deposit_accounts(user, pool_account), 7);
    assert!(dep.from_account() == id(100));
    assert!(dep.to_account() == pool_account);
    assert!(dep.authority() == user);
    assert_eq!(dep.amount(), 7);
    let wd = ops::withdrawal_request(&withdraw_accounts(user, pool_account), 8);
    assert!(wd.from_account() == pool_account);
    assert!(wd.to_account() == id(100));
    assert!(wd.authority() == id(101));
    assert_eq!(wd.amount(), 8);
    let em = ops::emergency_request(&emergency_accounts(user, pool_account), 9);
    assert!(em.from_account() == pool_account);
    assert!(em.to_account() == id(100));
    assert!(em.authority() == id(101));
    assert_eq!(em.amount(), 9);
}

#[test]
fn set_interest_rate_requires_admin() {
    let admin = id(1);
    let outsider = id(2);
    let mut pool = Pool::new(admin, false);
    assert_eq!(
        ops::set_interest_rate(&mut pool, &outsider, 777),
        Err(PoolError::Unauthorized)
    );
    assert_eq!(pool.interest_rate(), 0);
    assert_eq!(ops::set_interest_rate(&mut pool, &admin, 777), Ok(()));
    assert_eq!(pool.interest_rate(), 777);
}

#[test]
fn deposit_scenario_records_one_transfer() {
    let admin = id(1);
    let user = id(2);
    let pool_account = id(10);
    let mut pool = Pool::new(admin, false);
    let mut gateway = RecordingGateway::new();
    let accounts = deposit_accounts(user, pool_account);
    assert_eq!(ops::deposit(&mut pool, &mut gateway, &accounts, 100), Ok(()));
    assert_eq!(pool.total_supply(), 100);
    assert_eq!(gateway.log.len(), 1);
    assert_eq!(
        gateway.log[0],
        (accounts.user_token_account, pool_account, 100)
    );
}

#[test]
fn deposit_rejects_zero_amount() {
    let mut pool = Pool::new(id(1), false);
    let mut gateway = RecordingGateway::new();
    let accounts = deposit_accounts(id(2), id(10));
    assert_eq!(
        ops::deposit(&mut pool, &mut gateway, &accounts, 0),
        Err(PoolError::InvalidInput)
    );
    assert_eq!(pool.total_supply(), 0);
    assert_eq!(gateway.log.len(), 0);
}

#[test]
fn deposit_overflow_is_refused() {
    let mut pool = seeded_pool(id(1), u64::MAX, false);
    let mut gateway = RecordingGateway::new();
    let accounts = deposit_accounts(id(2), id(10));
    assert_eq!(
        ops::deposit(&mut pool, &mut gateway, &accounts, 1),
        Err(PoolError::Overflow)
    );
    assert_eq!(pool.total_supply(), u64::MAX);
}

#[test]
fn deposit_transfer_failure_discards_effect() {
    let mut pool = Pool::new(id(1), false);
    let mut gateway = FailingGateway;
    let accounts = deposit_accounts(id(2), id(10));
    assert_eq!(
        ops::deposit(&mut pool, &mut gateway, &accounts, 40),
        Err(PoolError::TransferFailed)
    );
    assert_eq!(pool.total_supply(), 0);
    assert!(!pool.operation_in_progress());
}

#[test]
fn withdraw_underflow_guard() {
    let user = id(2);
    let mut pool = seeded_pool(id(1), 30, false);
    let mut gateway = RecordingGateway::new();
    let registry = TableRegistry { entries: vec![(user, 1000)] };
    let accounts = withdraw_accounts(user, id(10));
    assert_eq!(
        ops::withdraw(&mut pool, &mut gateway, &registry, &accounts, 31),
        Err(PoolError::InsufficientFunds)
    );
    assert_eq!(pool.total_supply(), 30);
}

#[test]
fn withdraw_needs_entitlement() {
    let user = id(2);
    let mut pool = seeded_pool(id(1), 100, false);
    let mut gateway = RecordingGateway::new();
    let registry = TableRegistry { entries: vec![(user, 10)] };
    let accounts = withdraw_accounts(user, id(10));
    assert_eq!(
        ops::withdraw(&mut pool, &mut gateway, &registry, &accounts, 11),
        Err(PoolError::InsufficientFunds)
    );
    assert_eq!(pool.total_supply(), 100);
}

#[test]
fn withdraw_ordering_effects_before_interaction() {
    let user = id(2);
    let mut pool = seeded_pool(id(1), 100, false);
    let mut gateway = RecordingGateway::new();
    let registry = TableRegistry { entries: vec![(user, 50)] };
    let accounts = withdraw_accounts(user, id(10));
    assert_eq!(
        ops::withdraw(&mut pool, &mut gateway, &registry, &accounts, 50),
        Ok(())
    );
    assert_eq!(pool.total_supply(), 50);
    // the deduction was already visible when the gateway ran the transfer
    let observed = gateway.observed_supply.last().copied();
    assert_eq!(observed, Some(50));
    let last = gateway.log.last().copied();
    assert_eq!(last, Some((accounts.pool_token_account, accounts.user_token_account, 50)));
}

#[test]
fn withdraw_transfer_failure_restores_supply() {
    let user = id(2);
    let mut pool = seeded_pool(id(1), 100, false);
    let mut gateway = FailingGateway;
    let registry = TableRegistry { entries: vec![(user, 100)] };
    let accounts = withdraw_accounts(user, id(10));
    assert_eq!(
        ops::withdraw(&mut pool, &mut gateway, &registry, &accounts, 60),
        Err(PoolError::TransferFailed)
    );
    assert_eq!(pool.total_supply(), 100);
    assert!(!pool.operation_in_progress());
}

#[test]
fn reentrant_withdraw_is_refused() {
    let user = id(2);
    let pool_account = id(10);
    let mut pool = seeded_pool(id(1), 100, false);
    let mut gateway = ReentrantGateway {
        amount: 50,
        user,
        pool_account,
        nested_result: None,
        nested_deposit_result: None,
        observed_supply: None,
    };
    let registry = TableRegistry { entries: vec![(user, 50)] };
    let accounts = withdraw_accounts(user, pool_account);
    let outer = ops::withdraw(&mut pool, &mut gateway, &registry, &accounts, 50);
    assert_eq!(outer, Ok(()));
    // the nested calls arrived mid-operation and were refused
    assert_eq!(gateway.nested_result, Some(Err(PoolError::Reentrant)));
    assert_eq!(gateway.nested_deposit_result, Some(Err(PoolError::Reentrant)));
    // it already saw the deducted balance, not the stale one
    assert_eq!(gateway.observed_supply, Some(50));
    // exactly one deduction took place
    assert_eq!(pool.total_supply(), 50);
}

#[test]
fn emergency_withdraw_needs_gate() {
    let user = id(2);
    let mut pool = seeded_pool(id(1), 100, false);
    let mut gateway = RecordingGateway::new();
    let mut registry = TableRegistry { entries: vec![(user, 100)] };
    let accounts = emergency_accounts(user, id(10));
    assert_eq!(
        ops::emergency_withdraw(&mut pool, &mut gateway, &mut registry, &accounts),
        Err(PoolError::NotEnabled)
    );
    assert_eq!(pool.total_supply(), 100);
}

#[test]
fn emergency_withdraw_needs_entitlement() {
    let stranger = id(7);
    let mut pool = seeded_pool(id(1), 100, true);
    let mut gateway = RecordingGateway::new();
    let mut registry = TableRegistry { entries: vec![(id(2), 100)] };
    let accounts = emergency_accounts(stranger, id(10));
    assert_eq!(
        ops::emergency_withdraw(&mut pool, &mut gateway, &mut registry, &accounts),
        Err(PoolError::Unauthorized)
    );
    assert_eq!(pool.total_supply(), 100);
}

#[test]
fn emergency_withdraw_drains_only_own_share() {
    let caller = id(2);
    let other = id(3);
    let mut pool = seeded_pool(id(1), 100, true);
    let mut gateway = RecordingGateway::new();
    let mut registry = TableRegistry { entries: vec![(caller, 30), (other, 70)] };
    let accounts = emergency_accounts(caller, id(10));
    assert_eq!(
        ops::emergency_withdraw(&mut pool, &mut gateway, &mut registry, &accounts),
        Ok(())
    );
    // only the caller's share left the pool
    assert_eq!(pool.total_supply(), 70);
    assert_eq!(gateway.log.last().copied(), Some((accounts.pool_token_account, accounts.user_token_account, 30)));
    // the caller's entitlement was consumed; the other holder's is untouched
    assert_eq!(registry.entitlement_of(&caller), 0);
    assert_eq!(registry.entitlement_of(&other), 70);
}

#[test]
fn emergency_withdraw_failure_restores_entitlement() {
    let caller = id(2);
    let mut pool = seeded_pool(id(1), 100, true);
    let mut gateway = FailingGateway;
    let mut registry = TableRegistry { entries: vec![(caller, 30)] };
    let accounts = emergency_accounts(caller, id(10));
    assert_eq!(
        ops::emergency_withdraw(&mut pool, &mut gateway, &mut registry, &accounts),
        Err(PoolError::TransferFailed)
    );
    assert_eq!(pool.total_supply(), 100);
    assert_eq!(registry.entitlement_of(&caller), 30);
}

#[test]
fn calculate_rewards_widened_intermediate() {
    let admin = id(1);
    let mut pool = Pool::new(admin, false);
    assert_eq!(ops::set_interest_rate(&mut pool, &admin, 1000), Ok(()));
    let principal: u64 = 1_000_000_000_000;
    let r = ops::calculate_rewards(&pool, principal, 1000);
    // 10^12 * 1000 * 1000 / 100 computed without wrapping
    assert_eq!(r, Ok(10_000_000_000_000_000));
}

#[test]
fn calculate_rewards_overflow_is_explicit() {
    let admin = id(1);
    let mut pool = Pool::new(admin, false);
    assert_eq!(ops::set_interest_rate(&mut pool, &admin, u64::MAX), Ok(()));
    assert_eq!(
        ops::calculate_rewards(&pool, u64::MAX, u64::MAX),
        Err(PoolError::Overflow)
    );
}

#[test]
fn withdraw_can_drain_the_whole_pool() {
    let user = id(2);
    let mut pool = seeded_pool(id(1), 100, false);
    let mut gateway = RecordingGateway::new();
    let registry = TableRegistry { entries: vec![(user, 100)] };
    let accounts = withdraw_accounts(user, id(10));
    assert_eq!(
        ops::withdraw(&mut pool, &mut gateway, &registry, &accounts, 100),
        Ok(())
    );
    assert_eq!(pool.total_supply(), 0);
}

#[test]
fn emergency_withdraw_share_beyond_pool_is_refused() {
    let caller = id(2);
    let mut pool = seeded_pool(id(1), 20, true);
    let mut gateway = RecordingGateway::new();
    let mut registry = TableRegistry { entries: vec![(caller, 30)] };
    let accounts = emergency_accounts(caller, id(10));
    assert_eq!(
        ops::emergency_withdraw(&mut pool, &mut gateway, &mut registry, &accounts),
        Err(PoolError::InsufficientFunds)
    );
    assert_eq!(pool.total_supply(), 20);
    assert_eq!(registry.entitlement_of(&caller), 30);
}

#[test]
fn calculate_rewards_with_zero_rate() {
    let pool = Pool::new(id(1), false);
    assert_eq!(ops::calculate_rewards(&pool, u64::MAX, u64::MAX), Ok(0));
}

#[test]
fn supply_is_deposits_minus_withdrawals() {
    let user = id(2);
    let mut pool = Pool::new(id(1), false);
    let mut gateway = RecordingGateway::new();
    let registry = TableRegistry { entries: vec![(user, 1000)] };
    let dep = deposit_accounts(user, id(10));
    let wd = withdraw_accounts(user, id(10));
    assert_eq!(ops::deposit(&mut pool, &mut gateway, &dep, 100), Ok(()));
    assert_eq!(ops::deposit(&mut pool, &mut gateway, &dep, 50), Ok(()));
    assert_eq!(ops::withdraw(&mut pool, &mut gateway, &registry, &wd, 30), Ok(()));
    assert_eq!(pool.total_supply(), 100 + 50 - 30);
}
